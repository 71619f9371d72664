//! The connection interface of the display: what a driver operation sends
//! over the bus, first as abstract bus operations ([`BusOp`], viewed as
//! [`Step`]) and then, one level down, as pin and SPI actions ([`WireOp`]).
use vstd::prelude::*;
use crate::command::{Command, command_address};

verus! {

/// What one bus operation does, as a mathematical value.
pub enum Step {
    /// Select a command (data/command line low, one byte).
    Cmd(Command),
    /// Send these data bytes (data/command line high, one byte per transfer).
    Data(Seq<u8>),
    /// Send the same data byte this many times.
    Repeat(u8, nat),
    /// Pulse the reset line, holding it low for the given milliseconds.
    Reset(u8),
    /// Wait the given milliseconds.
    Delay(u8),
    /// Wait until the busy line reports that the controller is idle.
    WaitIdle,
}

/// One operation of the display's connection interface.
#[derive(Debug, PartialEq, Eq)]
pub enum BusOp {
    Command(Command),
    Data(Vec<u8>),
    DataRepeat(u8, u32),
    Reset(u8),
    DelayMs(u8),
    WaitUntilIdle,
}

impl BusOp {
    /// The abstract step that this operation performs.
    pub open spec fn step(&self) -> Step {
        match self {
            BusOp::Command(c) => Step::Cmd(*c),
            BusOp::Data(d) => Step::Data(d@),
            BusOp::DataRepeat(v, n) => Step::Repeat(*v, *n as nat),
            BusOp::Reset(d) => Step::Reset(*d),
            BusOp::DelayMs(ms) => Step::Delay(*ms),
            BusOp::WaitUntilIdle => Step::WaitIdle,
        }
    }
}

/// The steps performed by a sequence of bus operations.
pub open spec fn steps_of(ops: Seq<BusOp>) -> Seq<Step> {
    ops.map_values(|op: BusOp| op.step())
}

/// A single data step holding one byte.
pub open spec fn byte_step(b: u8) -> Step {
    Step::Data(seq![b])
}

/// An ordered list of bus operations: what a driver operation sends to the
/// display.  A [`Runner`] hands out its pin and SPI actions in order and
/// ends the operation at the first failed SPI transfer, which is then the
/// operation's error (see [`law_run_stops_at_first_failure`]).
#[derive(Debug, PartialEq, Eq)]
pub struct Plan {
    pub ops: Vec<BusOp>,
}

impl View for Plan {
    type V = Seq<Step>;

    open spec fn view(&self) -> Seq<Step> {
        steps_of(self.ops@)
    }
}

proof fn lemma_steps_push(ops: Seq<BusOp>, op: BusOp)
    ensures
        steps_of(ops.push(op)) == steps_of(ops).push(op.step()),
{
    assert(steps_of(ops.push(op)) =~= steps_of(ops).push(op.step()));
}

proof fn lemma_steps_concat(a: Seq<BusOp>, b: Seq<BusOp>)
    ensures
        steps_of(a + b) == steps_of(a) + steps_of(b),
{
    assert(steps_of(a + b) =~= steps_of(a) + steps_of(b));
}

impl Plan {
    /// The empty plan.
    pub fn new() -> (p: Plan)
        ensures
            p@ == Seq::<Step>::empty(),
    {
        let p = Plan { ops: Vec::new() };
        assert(p@ =~= Seq::<Step>::empty());
        p
    }

    fn push(&mut self, op: BusOp)
        ensures
            final(self)@ == old(self)@.push(op.step()),
    {
        proof {
            lemma_steps_push(self.ops@, op);
        }
        self.ops.push(op);
    }

    /// Select a command.
    pub fn cmd(&mut self, command: Command)
        ensures
            final(self)@ == old(self)@.push(Step::Cmd(command)),
    {
        self.push(BusOp::Command(command));
    }

    /// Send data bytes.
    pub fn data(&mut self, data: &[u8])
        ensures
            final(self)@ == old(self)@.push(Step::Data(data@)),
    {
        let v = vstd::slice::slice_to_vec(data);
        self.push(BusOp::Data(v));
    }

    /// Send a single data byte.
    pub fn data_byte(&mut self, b: u8)
        ensures
            final(self)@ == old(self)@.push(byte_step(b)),
    {
        let mut v: Vec<u8> = Vec::new();
        v.push(b);
        assert(v@ =~= seq![b]);
        self.push(BusOp::Data(v));
    }

    /// Select a command, then send its data bytes.
    pub fn cmd_with_data(&mut self, command: Command, data: &[u8])
        ensures
            final(self)@ == old(self)@.push(Step::Cmd(command)).push(Step::Data(data@)),
    {
        self.cmd(command);
        self.data(data);
    }

    /// Send the same data byte `repetitions` times.
    pub fn data_x_times(&mut self, val: u8, repetitions: u32)
        ensures
            final(self)@ == old(self)@.push(Step::Repeat(val, repetitions as nat)),
    {
        self.push(BusOp::DataRepeat(val, repetitions));
    }

    /// Pulse the reset line.
    pub fn reset(&mut self, duration: u8)
        ensures
            final(self)@ == old(self)@.push(Step::Reset(duration)),
    {
        self.push(BusOp::Reset(duration));
    }

    /// Wait some milliseconds.
    pub fn delay_ms(&mut self, ms: u8)
        ensures
            final(self)@ == old(self)@.push(Step::Delay(ms)),
    {
        self.push(BusOp::DelayMs(ms));
    }

    /// Wait until the controller is idle.
    pub fn wait_until_idle(&mut self)
        ensures
            final(self)@ == old(self)@.push(Step::WaitIdle),
    {
        self.push(BusOp::WaitUntilIdle);
    }

    /// Append another plan after this one.
    pub fn append(&mut self, other: Plan)
        ensures
            final(self)@ == old(self)@ + other@,
    {
        let mut other = other;
        proof {
            lemma_steps_concat(self.ops@, other.ops@);
        }
        self.ops.append(&mut other.ops);
    }
}

/// One action on the pins or the SPI bus.
#[derive(Clone, Copy, Debug, PartialEq, Eq, Structural)]
pub enum WireOp {
    /// Data/command line low (command).
    DcLow,
    /// Data/command line high (data).
    DcHigh,
    /// Chip select low: start of a transfer.
    CsLow,
    /// Chip select high: end of a transfer.
    CsHigh,
    /// Transfer one byte over SPI; a failed transfer ends the operation.
    Write(u8),
    RstHigh,
    RstLow,
    DelayMs(u8),
    /// Poll the busy line until the controller is idle.
    WaitUntilIdle,
}

/// One SPI transfer of a single byte, framed by chip select.
pub open spec fn frame(b: u8) -> Seq<WireOp> {
    seq![WireOp::CsLow, WireOp::Write(b), WireOp::CsHigh]
}

/// One framed transfer per byte, in order.
pub open spec fn frames(d: Seq<u8>) -> Seq<WireOp>
    decreases d.len(),
{
    if d.len() == 0 {
        Seq::empty()
    } else {
        frames(d.drop_last()) + frame(d.last())
    }
}

/// The pin and SPI actions that one step performs.
pub open spec fn wire_of(s: Step) -> Seq<WireOp> {
    match s {
        Step::Cmd(c) => seq![WireOp::DcLow] + frame(command_address(c)),
        Step::Data(d) => seq![WireOp::DcHigh] + frames(d),
        Step::Repeat(v, n) => seq![WireOp::DcHigh] + frames(Seq::new(n, |i: int| v)),
        Step::Reset(d) => seq![
            WireOp::RstHigh,
            WireOp::DelayMs(10),
            WireOp::RstLow,
            WireOp::DelayMs(d),
            WireOp::RstHigh,
            WireOp::DelayMs(200),
        ],
        Step::Delay(ms) => seq![WireOp::DelayMs(ms)],
        Step::WaitIdle => seq![WireOp::WaitUntilIdle],
    }
}

/// The bytes that a sequence of wire actions transfers over SPI, in order.
pub open spec fn written(w: Seq<WireOp>) -> Seq<u8>
    decreases w.len(),
{
    if w.len() == 0 {
        Seq::empty()
    } else {
        let rest = written(w.drop_last());
        match w.last() {
            WireOp::Write(b) => rest.push(b),
            _ => rest,
        }
    }
}

fn push_frame(w: &mut Vec<WireOp>, b: u8)
    ensures
        final(w)@ == old(w)@ + frame(b),
{
    w.push(WireOp::CsLow);
    w.push(WireOp::Write(b));
    w.push(WireOp::CsHigh);
    assert(w@ =~= old(w)@ + frame(b));
}

/// The pin and SPI actions that a bus operation performs: a command is one
/// transfer with the data/command line low; data is one transfer per byte
/// with it high; a reset holds the reset line low for the given duration
/// between waits of 10 and 200 milliseconds.
pub fn wire_ops(op: &BusOp) -> (w: Vec<WireOp>)
    ensures
        w@ == wire_of(op.step()),
{
    let mut w: Vec<WireOp> = Vec::new();
    match op {
        BusOp::Command(c) => {
            w.push(WireOp::DcLow);
            push_frame(&mut w, c.address());
            assert(w@ =~= wire_of(op.step()));
        },
        BusOp::Data(d) => {
            w.push(WireOp::DcHigh);
            let mut i: usize = 0;
            while i < d.len()
                invariant
                    i <= d.len(),
                    w@ == seq![WireOp::DcHigh] + frames(d@.take(i as int)),
                decreases d.len() - i,
            {
                proof {
                    assert(d@.take(i + 1).drop_last() =~= d@.take(i as int));
                }
                push_frame(&mut w, d[i]);
                i = i + 1;
                assert(w@ =~= seq![WireOp::DcHigh] + frames(d@.take(i as int)));
            }
            assert(d@.take(i as int) =~= d@);
        },
        BusOp::DataRepeat(v, n) => {
            w.push(WireOp::DcHigh);
            let mut i: u32 = 0;
            while i < *n
                invariant
                    i <= *n,
                    w@ == seq![WireOp::DcHigh] + frames(Seq::new(i as nat, |j: int| *v)),
                decreases *n - i,
            {
                proof {
                    assert(Seq::new((i + 1) as nat, |j: int| *v).drop_last() =~= Seq::new(
                        i as nat,
                        |j: int| *v,
                    ));
                }
                push_frame(&mut w, *v);
                i = i + 1;
                assert(w@ =~= seq![WireOp::DcHigh] + frames(Seq::new(i as nat, |j: int| *v)));
            }
        },
        BusOp::Reset(d) => {
            w.push(WireOp::RstHigh);
            w.push(WireOp::DelayMs(10));
            w.push(WireOp::RstLow);
            w.push(WireOp::DelayMs(*d));
            w.push(WireOp::RstHigh);
            w.push(WireOp::DelayMs(200));
            assert(w@ =~= wire_of(op.step()));
        },
        BusOp::DelayMs(ms) => {
            w.push(WireOp::DelayMs(*ms));
            assert(w@ =~= wire_of(op.step()));
        },
        BusOp::WaitUntilIdle => {
            w.push(WireOp::WaitUntilIdle);
            assert(w@ =~= wire_of(op.step()));
        },
    }
    w
}

/// The value of two bytes read big-endian.
pub open spec fn be16(hi: u8, lo: u8) -> int {
    hi as int * 256 + lo as int
}

/// The pin and SPI actions of a sequence of steps, in order.
pub open spec fn plan_wire(s: Seq<Step>) -> Seq<WireOp>
    decreases s.len(),
{
    if s.len() == 0 {
        Seq::empty()
    } else {
        plan_wire(s.drop_last()) + wire_of(s.last())
    }
}

/// The bytes written by two action sequences in a row are those of the
/// first, then those of the second.
pub proof fn lemma_written_concat(a: Seq<WireOp>, b: Seq<WireOp>)
    ensures
        written(a + b) == written(a) + written(b),
    decreases b.len(),
{
    if b.len() == 0 {
        assert(a + b =~= a);
        assert(written(a) + written(b) =~= written(a));
    } else {
        assert((a + b).drop_last() =~= a + b.drop_last());
        lemma_written_concat(a, b.drop_last());
        assert(written(a + b) =~= written(a) + written(b));
    }
}

proof fn lemma_written_frame(b: u8)
    ensures
        written(frame(b)) == seq![b],
{
    let f = frame(b);
    let f2 = seq![WireOp::CsLow, WireOp::Write(b)];
    let f1 = seq![WireOp::CsLow];
    let f0 = Seq::<WireOp>::empty();
    assert(f.drop_last() =~= f2);
    assert(f2.drop_last() =~= f1);
    assert(f1.drop_last() =~= f0);
    assert(written(f0) == Seq::<u8>::empty());
    assert(written(f1) == Seq::<u8>::empty());
    assert(written(f2) == Seq::<u8>::empty().push(b));
    assert(written(f) == Seq::<u8>::empty().push(b));
    assert(Seq::<u8>::empty().push(b) =~= seq![b]);
}

proof fn lemma_written_frames(d: Seq<u8>)
    ensures
        written(frames(d)) == d,
    decreases d.len(),
{
    if d.len() == 0 {
        assert(written(frames(d)) =~= d);
    } else {
        lemma_written_frames(d.drop_last());
        lemma_written_concat(frames(d.drop_last()), frame(d.last()));
        lemma_written_frame(d.last());
        assert(written(frames(d)) =~= d);
    }
}

proof fn lemma_written_prefix(op: WireOp, rest: Seq<WireOp>)
    requires
        !(op is Write),
    ensures
        written(seq![op] + rest) == written(rest),
{
    lemma_written_concat(seq![op], rest);
    let s1 = seq![op];
    assert(s1.drop_last() =~= Seq::<WireOp>::empty());
    assert(written(Seq::<WireOp>::empty()) == Seq::<u8>::empty());
    assert(written(s1) == Seq::<u8>::empty());
    assert(Seq::<u8>::empty() + written(rest) =~= written(rest));
}

/// Data reaches the bus unchanged: the bytes written for a data step are
/// exactly its data, in order.
pub proof fn law_data_reaches_bus(d: Seq<u8>)
    ensures
        written(wire_of(Step::Data(d))) == d,
{
    lemma_written_prefix(WireOp::DcHigh, frames(d));
    lemma_written_frames(d);
}

/// A repeated byte reaches the bus as that many copies of the byte.
pub proof fn law_repeat_reaches_bus(v: u8, n: nat)
    ensures
        written(wire_of(Step::Repeat(v, n))) == Seq::new(n, |i: int| v),
{
    lemma_written_prefix(WireOp::DcHigh, frames(Seq::new(n, |i: int| v)));
    lemma_written_frames(Seq::new(n, |i: int| v));
}

/// A command reaches the bus as its one address byte.
pub proof fn law_command_reaches_bus(c: Command)
    ensures
        written(wire_of(Step::Cmd(c))) == seq![command_address(c)],
{
    lemma_written_prefix(WireOp::DcLow, frame(command_address(c)));
    lemma_written_frame(command_address(c));
}

/// The bytes that one step puts on the bus.
pub open spec fn step_bytes(s: Step) -> Seq<u8> {
    match s {
        Step::Cmd(c) => seq![command_address(c)],
        Step::Data(d) => d,
        Step::Repeat(v, n) => Seq::new(n, |i: int| v),
        _ => Seq::empty(),
    }
}

/// The bytes that a sequence of steps puts on the bus, in order.
pub open spec fn bus_bytes(s: Seq<Step>) -> Seq<u8>
    decreases s.len(),
{
    if s.len() == 0 {
        Seq::empty()
    } else {
        bus_bytes(s.drop_last()) + step_bytes(s.last())
    }
}

/// `bus_bytes` distributes over appending one step and over concatenation.
pub proof fn lemma_bus_bytes_auto()
    ensures
        forall|s: Seq<Step>, x: Step| #[trigger]
            bus_bytes(s.push(x)) == bus_bytes(s) + step_bytes(x),
        forall|a: Seq<Step>, b: Seq<Step>| #[trigger]
            bus_bytes(a + b) == bus_bytes(a) + bus_bytes(b),
        bus_bytes(Seq::<Step>::empty()) == Seq::<u8>::empty(),
{
    assert forall|s: Seq<Step>, x: Step| #[trigger]
        bus_bytes(s.push(x)) == bus_bytes(s) + step_bytes(x) by {
        assert(s.push(x).drop_last() =~= s);
    }
    assert forall|a: Seq<Step>, b: Seq<Step>| #[trigger]
        bus_bytes(a + b) == bus_bytes(a) + bus_bytes(b) by {
        lemma_bus_bytes_concat(a, b);
    }
}

proof fn lemma_bus_bytes_concat(a: Seq<Step>, b: Seq<Step>)
    ensures
        bus_bytes(a + b) == bus_bytes(a) + bus_bytes(b),
    decreases b.len(),
{
    if b.len() == 0 {
        assert(a + b =~= a);
        assert(bus_bytes(a) + bus_bytes(b) =~= bus_bytes(a));
    } else {
        assert((a + b).drop_last() =~= a + b.drop_last());
        lemma_bus_bytes_concat(a, b.drop_last());
        assert(bus_bytes(a + b) =~= bus_bytes(a) + bus_bytes(b));
    }
}

proof fn lemma_written_no_writes(w: Seq<WireOp>)
    requires
        forall|i: int| 0 <= i < w.len() ==> !(#[trigger] w[i] is Write),
    ensures
        written(w) == Seq::<u8>::empty(),
    decreases w.len(),
{
    if w.len() > 0 {
        lemma_written_no_writes(w.drop_last());
    }
}

proof fn lemma_plan_wire_push(s: Seq<Step>, x: Step)
    ensures
        plan_wire(s.push(x)) == plan_wire(s) + wire_of(x),
{
    assert(s.push(x).drop_last() =~= s);
}

proof fn lemma_written_step(x: Step)
    ensures
        written(wire_of(x)) == step_bytes(x),
{
    match x {
        Step::Cmd(c) => law_command_reaches_bus(c),
        Step::Data(d) => law_data_reaches_bus(d),
        Step::Repeat(v, n) => law_repeat_reaches_bus(v, n),
        Step::Reset(d) => lemma_written_no_writes(wire_of(x)),
        Step::Delay(ms) => lemma_written_prefix(WireOp::DelayMs(ms), Seq::empty()),
        Step::WaitIdle => lemma_written_prefix(WireOp::WaitUntilIdle, Seq::empty()),
    }
}

/// What the wire carries is what the plan says: the bytes written by the
/// pin and SPI actions of a sequence of steps are the bytes of its commands
/// and data, in order.
pub proof fn law_plan_reaches_bus(s: Seq<Step>)
    ensures
        written(plan_wire(s)) == bus_bytes(s),
    decreases s.len(),
{
    if s.len() > 0 {
        law_plan_reaches_bus(s.drop_last());
        assert(s.drop_last().push(s.last()) =~= s);
        lemma_plan_wire_push(s.drop_last(), s.last());
        lemma_written_concat(plan_wire(s.drop_last()), wire_of(s.last()));
        lemma_written_step(s.last());
    }
}

/// A plan that stops early has sent a prefix of its bytes: when the actions
/// of a plan are performed up to, not including, action `k` (as when the
/// transfer at `k` fails), the bytes written so far, followed by those the
/// remaining actions would write, are exactly the plan's bytes.
pub proof fn law_stopped_plan_sends_prefix(s: Seq<Step>, k: int)
    requires
        0 <= k <= plan_wire(s).len(),
    ensures
        written(plan_wire(s).take(k)) + written(plan_wire(s).skip(k)) == bus_bytes(s),
        written(plan_wire(s).take(k)).len() <= bus_bytes(s).len(),
        bus_bytes(s).take(written(plan_wire(s).take(k)).len() as int) == written(
            plan_wire(s).take(k),
        ),
{
    let w = plan_wire(s);
    assert(w.take(k) + w.skip(k) =~= w);
    lemma_written_concat(w.take(k), w.skip(k));
    law_plan_reaches_bus(s);
    let pre = written(w.take(k));
    assert(bus_bytes(s).take(pre.len() as int) =~= pre);
}

/// All pin and SPI actions of a plan, in the order they are performed.
pub fn plan_wire_ops(p: &Plan) -> (w: Vec<WireOp>)
    ensures
        w@ == plan_wire(p@),
{
    let mut w: Vec<WireOp> = Vec::new();
    let mut i: usize = 0;
    assert(steps_of(p.ops@.take(0)) =~= Seq::<Step>::empty());
    while i < p.ops.len()
        invariant
            i <= p.ops.len(),
            w@ == plan_wire(steps_of(p.ops@.take(i as int))),
        decreases p.ops.len() - i,
    {
        let mut more = wire_ops(&p.ops[i]);
        proof {
            assert(steps_of(p.ops@.take(i + 1)) =~= steps_of(p.ops@.take(i as int)).push(
                p.ops@[i as int].step(),
            ));
            lemma_plan_wire_push(steps_of(p.ops@.take(i as int)), p.ops@[i as int].step());
        }
        w.append(&mut more);
        i = i + 1;
    }
    assert(p.ops@.take(i as int) =~= p.ops@);
    w
}

/// What the caller of a [`Runner`] does next.
#[derive(Clone, Copy, Debug, PartialEq, Eq, Structural)]
pub enum Next {
    /// Perform this action, then report whether it failed.
    Perform(WireOp),
    /// Every action was performed: the operation succeeded.
    Done,
    /// A transfer failed: the operation ends with that failure's error and
    /// nothing more is sent.
    Stop,
}

/// Where the execution of a plan stands.
pub struct RunnerState {
    pub actions: Seq<WireOp>,
    pub pos: nat,
    pub stopped: bool,
}

/// One step of executing a plan: after a reported failure (or once
/// stopped) the run stops; when every action has been handed out it is
/// done; otherwise the next action is handed out.
pub open spec fn spec_next(s: RunnerState, last_failed: bool) -> (RunnerState, Next) {
    if s.stopped || last_failed {
        (RunnerState { stopped: true, ..s }, Next::Stop)
    } else if s.pos >= s.actions.len() {
        (s, Next::Done)
    } else {
        (RunnerState { pos: s.pos + 1, ..s }, Next::Perform(s.actions[s.pos as int]))
    }
}

/// What a run hands out from state `s`, when the action at index `fail_at`
/// (if any) fails and every other succeeds; `last_failed` is the outcome of
/// the action performed just before.
pub open spec fn run_from(s: RunnerState, last_failed: bool, fail_at: Option<nat>) -> Seq<Next>
    decreases s.actions.len() - s.pos,
{
    let (s2, n) = spec_next(s, last_failed);
    match n {
        Next::Perform(a) => if s.pos < s.actions.len() {
            seq![n] + run_from(s2, fail_at == Some(s.pos), fail_at)
        } else {
            seq![n]
        },
        _ => seq![n],
    }
}

/// The steps that perform each of a sequence of actions.
pub open spec fn performs(w: Seq<WireOp>) -> Seq<Next> {
    w.map_values(|a: WireOp| Next::Perform(a))
}

/// Executes a plan: hands out its pin and SPI actions one by one and stops
/// at the first failure reported back.
pub struct Runner {
    actions: Vec<WireOp>,
    pos: usize,
    stopped: bool,
}

impl View for Runner {
    type V = RunnerState;

    closed spec fn view(&self) -> RunnerState {
        RunnerState { actions: self.actions@, pos: self.pos as nat, stopped: self.stopped }
    }
}

impl Runner {
    /// A run never moves past its last action.
    #[verifier::type_invariant]
    closed spec fn in_range(self) -> bool {
        self.pos <= self.actions.len()
    }

    /// A run of `plan` from its first action.
    pub fn new(plan: &Plan) -> (r: Runner)
        ensures
            r@ == (RunnerState { actions: plan_wire(plan@), pos: 0, stopped: false }),
    {
        Runner { actions: plan_wire_ops(plan), pos: 0, stopped: false }
    }

    /// The next step, given whether the action performed just before failed
    /// (`false` at the start).
    pub fn step(&mut self, last_failed: bool) -> (n: Next)
        ensures
            (final(self)@, n) == spec_next(old(self)@, last_failed),
    {
        proof {
            use_type_invariant(&*self);
        }
        if self.stopped || last_failed {
            self.stopped = true;
            Next::Stop
        } else if self.pos >= self.actions.len() {
            Next::Done
        } else {
            let a = self.actions[self.pos];
            self.pos = self.pos + 1;
            Next::Perform(a)
        }
    }
}

proof fn lemma_run_from(w: Seq<WireOp>, i: nat, fail_at: Option<nat>)
    requires
        i <= w.len(),
        fail_at matches Some(k) ==> i <= k < w.len(),
    ensures
        run_from(RunnerState { actions: w, pos: i, stopped: false }, false, fail_at) == match fail_at {
            Some(k) => performs(w.subrange(i as int, (k + 1) as int)).push(Next::Stop),
            None => performs(w.subrange(i as int, w.len() as int)).push(Next::Done),
        },
    decreases w.len() - i,
{
    let s = RunnerState { actions: w, pos: i, stopped: false };
    if i == w.len() {
        assert(performs(w.subrange(i as int, w.len() as int)) =~= Seq::<Next>::empty());
        assert(run_from(s, false, fail_at) =~= seq![Next::Done]);
    } else {
        let s2 = RunnerState { actions: w, pos: i + 1, stopped: false };
        let failed = fail_at == Some(i);
        if failed {
            let s3 = RunnerState { actions: w, pos: i + 1, stopped: false };
            assert(run_from(s3, true, fail_at) == seq![Next::Stop]);
            assert(performs(w.subrange(i as int, (i + 1) as int)) =~= seq![Next::Perform(w[i as int])]);
            assert(run_from(s, false, fail_at) =~= seq![Next::Perform(w[i as int])].push(
                Next::Stop,
            ));
        } else {
            lemma_run_from(w, i + 1, fail_at);
            match fail_at {
                Some(k) => {
                    assert(performs(w.subrange(i as int, (k + 1) as int)) =~= seq![
                        Next::Perform(w[i as int]),
                    ] + performs(w.subrange((i + 1) as int, (k + 1) as int)));
                },
                None => {
                    assert(performs(w.subrange(i as int, w.len() as int)) =~= seq![
                        Next::Perform(w[i as int]),
                    ] + performs(w.subrange((i + 1) as int, w.len() as int)));
                },
            }
            assert(run_from(s, false, fail_at) =~= seq![Next::Perform(w[i as int])] + run_from(
                s2,
                false,
                fail_at,
            ));
        }
    }
}

/// A run that meets no failure performs every action of the plan, in
/// order, and then reports success; what it writes is the plan's bytes.
pub proof fn law_run_completes(plan: Seq<Step>)
    ensures
        run_from(RunnerState { actions: plan_wire(plan), pos: 0, stopped: false }, false, None)
            == performs(plan_wire(plan)).push(Next::Done),
        written(plan_wire(plan)) == bus_bytes(plan),
{
    lemma_run_from(plan_wire(plan), 0, None);
    assert(plan_wire(plan).subrange(0, plan_wire(plan).len() as int) =~= plan_wire(plan));
    law_plan_reaches_bus(plan);
}

/// A run stops at the first failure: when the action at index `k` fails
/// (and every earlier one succeeded), the run performs the actions up to
/// and including `k`, in order, performs nothing after it and stops with
/// that failure; what was written by then is a prefix of the plan's
/// bytes.
pub proof fn law_run_stops_at_first_failure(plan: Seq<Step>, k: nat)
    requires
        k < plan_wire(plan).len(),
    ensures
        run_from(RunnerState { actions: plan_wire(plan), pos: 0, stopped: false }, false, Some(k))
            == performs(plan_wire(plan).take((k + 1) as int)).push(Next::Stop),
        bus_bytes(plan).take(written(plan_wire(plan).take((k + 1) as int)).len() as int) == written(
            plan_wire(plan).take((k + 1) as int),
        ),
{
    lemma_run_from(plan_wire(plan), 0, Some(k));
    assert(plan_wire(plan).subrange(0, (k + 1) as int) =~= plan_wire(plan).take((k + 1) as int));
    law_stopped_plan_sends_prefix(plan, (k + 1) as int);
}

/// The level of the busy line to ask about.
#[derive(Clone, Copy, Debug, PartialEq, Eq, Structural)]
pub enum PinLevel {
    Low,
    High,
}

/// Which level of the busy line means "busy": low for controllers whose busy
/// line is active low, high otherwise.
pub fn busy_level(is_busy_low: bool) -> (l: PinLevel)
    ensures
        l == (if is_busy_low { PinLevel::Low } else { PinLevel::High }),
{
    if is_busy_low {
        PinLevel::Low
    } else {
        PinLevel::High
    }
}

/// Whether the controller is busy, given the answer of the busy pin to the
/// question "are you at `busy_level(..)`?" (`None` when the pin could not
/// be read, which counts as not busy).
pub fn is_busy(reading: Option<bool>) -> (busy: bool)
    ensures
        busy == (reading == Some(true)),
{
    match reading {
        Some(b) => b,
        None => false,
    }
}

} // verus!
