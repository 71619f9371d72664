//! Start-up sequence of an ILI9325 LCD controller driven over an 8-bit
//! parallel bus: each register write sends the register index as a command
//! and then the 16-bit value as two data bytes, high byte first.
use vstd::prelude::*;
use crate::interface::be16;

verus! {

/// One action on the parallel bus of the LCD.
#[derive(Clone, Copy, Debug, PartialEq, Eq, Structural)]
pub enum LcdOp {
    /// Wait this many milliseconds.
    DelayMs(u32),
    /// Write a command: high byte, low byte.
    WriteCmd(u8, u8),
    /// Write data: high byte, low byte.
    WriteData(u8, u8),
}

/// Writing `y` to register `x`: the command (0x00, `x`) then the two bytes
/// of `y`, high byte first.
pub open spec fn spec_write_cmd_data(x: u8, y: u16) -> Seq<LcdOp> {
    seq![LcdOp::WriteCmd(0x00, x), LcdOp::WriteData((y >> 8) as u8, y as u8)]
}

/// The register writes of a table of (register, value) pairs, in order.
pub open spec fn register_writes(t: Seq<(u8, u16)>) -> Seq<LcdOp>
    decreases t.len(),
{
    if t.len() == 0 {
        Seq::empty()
    } else {
        register_writes(t.drop_last()) + spec_write_cmd_data(t.last().0, t.last().1)
    }
}

/// The (register, value) pairs written at start-up: driver output, LCD
/// driving wave, entry mode, display control, power-on sequence, gamma,
/// RAM window, panel interface and display on.
pub open spec fn ili9325_registers() -> Seq<(u8, u16)> {
    seq![
        (0x01u8, 0x0100u16),
        (0x02u8, 0x0700u16),
        (0x03u8, 0x1030u16),
        (0x04u8, 0x0000u16),
        (0x08u8, 0x0207u16),
        (0x09u8, 0x0000u16),
        (0x0Au8, 0x0000u16),
        (0x0Cu8, 0x0000u16),
        (0x0Du8, 0x0000u16),
        (0x0Fu8, 0x0000u16),
        (0x10u8, 0x0000u16),
        (0x11u8, 0x0007u16),
        (0x12u8, 0x0000u16),
        (0x13u8, 0x0000u16),
        (0x10u8, 0x1290u16),
        (0x11u8, 0x0227u16),
        (0x12u8, 0x001Du16),
        (0x13u8, 0x1500u16),
        (0x29u8, 0x0018u16),
        (0x2Bu8, 0x000Du16),
        (0x30u8, 0x0004u16),
        (0x31u8, 0x0307u16),
        (0x32u8, 0x0002u16),
        (0x35u8, 0x0206u16),
        (0x36u8, 0x0408u16),
        (0x37u8, 0x0507u16),
        (0x38u8, 0x0204u16),
        (0x39u8, 0x0707u16),
        (0x3Cu8, 0x0405u16),
        (0x3Du8, 0x0F02u16),
        (0x50u8, 0x0000u16),
        (0x51u8, 0x00EFu16),
        (0x52u8, 0x0000u16),
        (0x53u8, 0x013Fu16),
        (0x60u8, 0xA700u16),
        (0x61u8, 0x0001u16),
        (0x6Au8, 0x0000u16),
        (0x80u8, 0x0000u16),
        (0x81u8, 0x0000u16),
        (0x82u8, 0x0000u16),
        (0x83u8, 0x0000u16),
        (0x84u8, 0x0000u16),
        (0x85u8, 0x0000u16),
        (0x90u8, 0x0010u16),
        (0x92u8, 0x0600u16),
        (0x93u8, 0x0003u16),
        (0x95u8, 0x0110u16),
        (0x97u8, 0x0000u16),
        (0x98u8, 0x0000u16),
        (0x07u8, 0x0133u16),
    ]
}

/// The whole start-up sequence: a 50 ms wait, then the register writes.
pub open spec fn ili9325_init_steps() -> Seq<LcdOp> {
    seq![LcdOp::DelayMs(50)] + register_writes(ili9325_registers())
}

fn ili9325_register_table() -> (t: Vec<(u8, u16)>)
    ensures
        t@ == ili9325_registers(),
{
    let t: Vec<(u8, u16)> = vec![
        (0x01u8, 0x0100u16),
        (0x02u8, 0x0700u16),
        (0x03u8, 0x1030u16),
        (0x04u8, 0x0000u16),
        (0x08u8, 0x0207u16),
        (0x09u8, 0x0000u16),
        (0x0Au8, 0x0000u16),
        (0x0Cu8, 0x0000u16),
        (0x0Du8, 0x0000u16),
        (0x0Fu8, 0x0000u16),
        (0x10u8, 0x0000u16),
        (0x11u8, 0x0007u16),
        (0x12u8, 0x0000u16),
        (0x13u8, 0x0000u16),
        (0x10u8, 0x1290u16),
        (0x11u8, 0x0227u16),
        (0x12u8, 0x001Du16),
        (0x13u8, 0x1500u16),
        (0x29u8, 0x0018u16),
        (0x2Bu8, 0x000Du16),
        (0x30u8, 0x0004u16),
        (0x31u8, 0x0307u16),
        (0x32u8, 0x0002u16),
        (0x35u8, 0x0206u16),
        (0x36u8, 0x0408u16),
        (0x37u8, 0x0507u16),
        (0x38u8, 0x0204u16),
        (0x39u8, 0x0707u16),
        (0x3Cu8, 0x0405u16),
        (0x3Du8, 0x0F02u16),
        (0x50u8, 0x0000u16),
        (0x51u8, 0x00EFu16),
        (0x52u8, 0x0000u16),
        (0x53u8, 0x013Fu16),
        (0x60u8, 0xA700u16),
        (0x61u8, 0x0001u16),
        (0x6Au8, 0x0000u16),
        (0x80u8, 0x0000u16),
        (0x81u8, 0x0000u16),
        (0x82u8, 0x0000u16),
        (0x83u8, 0x0000u16),
        (0x84u8, 0x0000u16),
        (0x85u8, 0x0000u16),
        (0x90u8, 0x0010u16),
        (0x92u8, 0x0600u16),
        (0x93u8, 0x0003u16),
        (0x95u8, 0x0110u16),
        (0x97u8, 0x0000u16),
        (0x98u8, 0x0000u16),
        (0x07u8, 0x0133u16),
    ];
    assert(t@ =~= ili9325_registers());
    t
}

/// The LCD, driven through its chip select, reset, register select and
/// write strobe lines.
pub struct LCD;

impl LCD {
    /// The start-up sequence of the controller.
    #[allow(non_snake_case)]
    pub fn ILI9325_Initial(&self) -> (ops: Vec<LcdOp>)
        ensures
            ops@ == ili9325_init_steps(),
    {
        let table = ili9325_register_table();
        let mut ops: Vec<LcdOp> = Vec::new();
        // adjust the delay to the crystal so that the display starts reliably
        ops.push(LcdOp::DelayMs(50));
        let mut i: usize = 0;
        while i < table.len()
            invariant
                i <= table.len(),
                table@ == ili9325_registers(),
                ops@ == seq![LcdOp::DelayMs(50)] + register_writes(table@.take(i as int)),
            decreases table.len() - i,
        {
            let (reg, val) = table[i];
            let w = self.Write_Cmd_Data(reg, val);
            proof {
                assert(table@.take(i + 1).drop_last() =~= table@.take(i as int));
            }
            ops.push(w[0]);
            ops.push(w[1]);
            i = i + 1;
            assert(ops@ =~= seq![LcdOp::DelayMs(50)] + register_writes(table@.take(i as int)));
        }
        assert(table@.take(i as int) =~= table@);
        ops
    }

    /// Writing the 16-bit value `y` to register `x`.
    #[allow(non_snake_case)]
    pub fn Write_Cmd_Data(&self, x: u8, y: u16) -> (ops: Vec<LcdOp>)
        ensures
            ops@ == spec_write_cmd_data(x, y),
            be16((y >> 8) as u8, y as u8) == y,
    {
        let m: u8 = (y >> 8) as u8;
        let n: u8 = y as u8;
        proof {
            law_register_value_split(y);
        }
        let mut ops: Vec<LcdOp> = Vec::new();
        ops.push(LcdOp::WriteCmd(0x00, x));
        ops.push(LcdOp::WriteData(m, n));
        assert(ops@ =~= spec_write_cmd_data(x, y));
        ops
    }
}

/// A 16-bit register value is sent without loss: its high and low bytes,
/// read back big-endian, give the value again.
pub proof fn law_register_value_split(y: u16)
    ensures
        be16((y >> 8) as u8, y as u8) == y,
{
    assert(((y >> 8) as u8) as int * 256 + (y as u8) as int == y) by (bit_vector);
}

/// One action on the LCD's pins: chip select (CS), register select (RS:
/// low for a command, high for data), the 8-bit data port (P0) and the
/// write strobe (RW), which latches the port on its rising edge.
#[derive(Clone, Copy, Debug, PartialEq, Eq, Structural)]
pub enum LcdPin {
    CsLow,
    CsHigh,
    RsLow,
    RsHigh,
    /// Put a byte on the data port.
    Port(u8),
    RwLow,
    RwHigh,
    /// Wait this many milliseconds.
    DelayMs(u32),
}

/// Two bytes written over the port inside one chip-select frame, with the
/// register select line at `rs_high`: high byte first, each latched by a
/// pulse of the write strobe.
pub open spec fn spec_bus_write(rs_high: bool, dh: u8, dl: u8) -> Seq<LcdPin> {
    seq![
        LcdPin::CsLow,
        if rs_high { LcdPin::RsHigh } else { LcdPin::RsLow },
        LcdPin::Port(dh),
        LcdPin::RwLow,
        LcdPin::RwHigh,
        LcdPin::Port(dl),
        LcdPin::RwLow,
        LcdPin::RwHigh,
        LcdPin::CsHigh,
    ]
}

/// The pin actions of one bus action.
pub open spec fn spec_lcd_pins(op: LcdOp) -> Seq<LcdPin> {
    match op {
        LcdOp::DelayMs(ms) => seq![LcdPin::DelayMs(ms)],
        LcdOp::WriteCmd(dh, dl) => spec_bus_write(false, dh, dl),
        LcdOp::WriteData(dh, dl) => spec_bus_write(true, dh, dl),
    }
}

/// The byte last put on the data port, if any.
pub open spec fn port_value(w: Seq<LcdPin>) -> Option<u8>
    decreases w.len(),
{
    if w.len() == 0 {
        None
    } else {
        match w.last() {
            LcdPin::Port(b) => Some(b),
            _ => port_value(w.drop_last()),
        }
    }
}

/// The bytes latched by the write strobe: the byte on the data port at each
/// rising edge of RW, in order.
pub open spec fn latched(w: Seq<LcdPin>) -> Seq<u8>
    decreases w.len(),
{
    if w.len() == 0 {
        Seq::empty()
    } else {
        let rest = latched(w.drop_last());
        match (w.last(), port_value(w.drop_last())) {
            (LcdPin::RwHigh, Some(b)) => rest.push(b),
            _ => rest,
        }
    }
}

fn bus_write(rs_high: bool, dh: u8, dl: u8) -> (w: Vec<LcdPin>)
    ensures
        w@ == spec_bus_write(rs_high, dh, dl),
{
    let mut w: Vec<LcdPin> = Vec::new();
    w.push(LcdPin::CsLow);
    w.push(if rs_high { LcdPin::RsHigh } else { LcdPin::RsLow });
    w.push(LcdPin::Port(dh));
    w.push(LcdPin::RwLow);
    w.push(LcdPin::RwHigh);
    w.push(LcdPin::Port(dl));
    w.push(LcdPin::RwLow);
    w.push(LcdPin::RwHigh);
    w.push(LcdPin::CsHigh);
    assert(w@ =~= spec_bus_write(rs_high, dh, dl));
    w
}

impl LCD {
    /// Writes a command: chip select low, register select low, then the
    /// two bytes, each latched by a write strobe pulse.
    #[allow(non_snake_case)]
    pub fn Write_Cmd(&self, DH: u8, DL: u8) -> (w: Vec<LcdPin>)
        ensures
            w@ == spec_bus_write(false, DH, DL),
    {
        bus_write(false, DH, DL)
    }

    /// Writes data: as a command, with register select high.
    #[allow(non_snake_case)]
    pub fn Write_Data(&self, DH: u8, DL: u8) -> (w: Vec<LcdPin>)
        ensures
            w@ == spec_bus_write(true, DH, DL),
    {
        bus_write(true, DH, DL)
    }

    /// Waits `count` milliseconds.
    pub fn delayms(&self, count: u32) -> (w: Vec<LcdPin>)
        ensures
            w@ == seq![LcdPin::DelayMs(count)],
    {
        let mut w: Vec<LcdPin> = Vec::new();
        w.push(LcdPin::DelayMs(count));
        assert(w@ =~= seq![LcdPin::DelayMs(count)]);
        w
    }

    /// The pin actions of one bus action.
    pub fn pins(&self, op: LcdOp) -> (w: Vec<LcdPin>)
        ensures
            w@ == spec_lcd_pins(op),
    {
        match op {
            LcdOp::DelayMs(ms) => self.delayms(ms),
            LcdOp::WriteCmd(dh, dl) => self.Write_Cmd(dh, dl),
            LcdOp::WriteData(dh, dl) => self.Write_Data(dh, dl),
        }
    }
}

/// A bus write latches exactly its two bytes, high byte first.
pub proof fn law_bus_write_latches(rs_high: bool, dh: u8, dl: u8)
    ensures
        latched(spec_bus_write(rs_high, dh, dl)) == seq![dh, dl],
{
    let w = spec_bus_write(rs_high, dh, dl);
    assert(w.take(9) =~= w);
    assert forall|k: int| 1 <= k <= 9 implies #[trigger] w.take(k).drop_last() == w.take(k - 1) by {
        assert(w.take(k).drop_last() =~= w.take(k - 1));
    }
    assert(latched(w.take(0)) == Seq::<u8>::empty());
    assert(port_value(w.take(0)) == Option::<u8>::None);
    assert(latched(w.take(1)) == Seq::<u8>::empty());
    assert(port_value(w.take(1)) == Option::<u8>::None);
    assert(latched(w.take(2)) == Seq::<u8>::empty());
    assert(port_value(w.take(2)) == Option::<u8>::None);
    assert(port_value(w.take(3)) == Some(dh));
    assert(latched(w.take(3)) == Seq::<u8>::empty());
    assert(port_value(w.take(4)) == Some(dh));
    assert(latched(w.take(4)) == Seq::<u8>::empty());
    assert(latched(w.take(5)) =~= seq![dh]);
    assert(port_value(w.take(5)) == Some(dh));
    assert(port_value(w.take(6)) == Some(dl));
    assert(latched(w.take(6)) =~= seq![dh]);
    assert(port_value(w.take(7)) == Some(dl));
    assert(latched(w.take(7)) =~= seq![dh]);
    assert(latched(w.take(8)) =~= seq![dh, dl]);
    assert(latched(w.take(9)) =~= seq![dh, dl]);
}

/// Writing a register latches, on the port, the command `0x00, x` and then
/// the value `y` high byte first; the two value bytes read back as `y`.
pub proof fn law_register_write_latches(x: u8, y: u16)
    ensures
        latched(spec_lcd_pins(LcdOp::WriteCmd(0x00, x))) == seq![0x00u8, x],
        latched(spec_lcd_pins(LcdOp::WriteData((y >> 8) as u8, y as u8))) == seq![
            (y >> 8) as u8,
            y as u8,
        ],
        be16((y >> 8) as u8, y as u8) == y,
{
    law_bus_write_latches(false, 0x00, x);
    law_bus_write_latches(true, (y >> 8) as u8, y as u8);
    law_register_value_split(y);
}

} // verus!
