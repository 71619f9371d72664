use epd_custom::command::Command;
use epd_custom::constants::{
    lut_bb, lut_bb_quick, lut_bw, lut_bw_quick, lut_vcom0, lut_vcom0_quick, lut_wb, lut_wb_quick,
    lut_ww, lut_ww_quick,
};
use epd_custom::epd3in27::{
    Color, Epd3in27, RefreshLut, DEFAULT_BACKGROUND_COLOR, HEIGHT, IS_BUSY_LOW, WIDTH,
};
use epd_custom::epd_3in27wb::Epd3in27wb;
use epd_custom::epd3in27::{partial_size_fits, window_fits};
use epd_custom::interface::{
    busy_level, is_busy, plan_wire_ops, wire_ops, BusOp, Next, PinLevel, Plan, Runner, WireOp,
};

fn cmd(c: Command) -> BusOp {
    BusOp::Command(c)
}

fn data(d: &[u8]) -> BusOp {
    BusOp::Data(d.to_vec())
}

/// The bytes that a plan writes over SPI, in order.
fn bus_bytes(p: &Plan) -> Vec<u8> {
    let mut out = Vec::new();
    for op in &p.ops {
        for w in wire_ops(op) {
            if let WireOp::Write(b) = w {
                out.push(b);
            }
        }
    }
    out
}

fn lut_ops(vcom: Vec<u8>, ww: Vec<u8>, bw: Vec<u8>, wb: Vec<u8>, bb: Vec<u8>) -> Vec<BusOp> {
    vec![
        BusOp::WaitUntilIdle,
        cmd(Command::LutForVcom),
        BusOp::Data(vcom),
        cmd(Command::LutWhiteToWhite),
        BusOp::Data(ww),
        cmd(Command::LutBlackToWhite),
        BusOp::Data(bw),
        cmd(Command::LutWhiteToBlack),
        BusOp::Data(wb),
        cmd(Command::LutBlackToBlack),
        BusOp::Data(bb),
    ]
}

fn full_lut_ops() -> Vec<BusOp> {
    lut_ops(lut_vcom0(), lut_ww(), lut_bw(), lut_wb(), lut_bb())
}

fn quick_lut_ops() -> Vec<BusOp> {
    lut_ops(lut_vcom0_quick(), lut_ww_quick(), lut_bw_quick(), lut_wb_quick(), lut_bb_quick())
}

fn resolution_ops() -> Vec<BusOp> {
    vec![cmd(Command::ResolutionSetting), data(&[0x01]), data(&[0x90]), data(&[0x01]), data(&[0x2C])]
}

fn init_ops(lut: Vec<BusOp>) -> Vec<BusOp> {
    let mut v = vec![
        BusOp::Reset(10),
        cmd(Command::PowerSetting),
        data(&[0x07, 0x00, 0x0A, 0x00]),
        cmd(Command::BoosterSoftStart),
        data(&[0x07, 0x07, 0x07]),
        cmd(Command::PowerOn),
        BusOp::DelayMs(5),
        BusOp::WaitUntilIdle,
        cmd(Command::PanelSetting),
        data(&[0xCF]),
        cmd(Command::VcomAndDataIntervalSetting),
        data(&[0x37]),
        cmd(Command::PllControl),
        data(&[0x39]),
    ];
    v.extend(resolution_ops());
    v.push(cmd(Command::VcmDcSetting));
    v.push(data(&[0x0C]));
    v.extend(lut);
    v.push(BusOp::WaitUntilIdle);
    v
}

fn window_ops(bytes: [u8; 9]) -> Vec<BusOp> {
    bytes.iter().map(|b| data(&[*b])).collect()
}

#[test]
fn epd_size() {
    assert_eq!(WIDTH, 400);
    assert_eq!(HEIGHT, 300);
    assert_eq!(DEFAULT_BACKGROUND_COLOR, Color::White);
}

#[test]
fn command_addresses() {
    assert_eq!(Command::PowerSaving.address(), 0xE3);
    assert_eq!(Command::PanelSetting.address(), 0x00);
    assert_eq!(Command::DisplayRefresh.address(), 0x12);
    assert_eq!(Command::ResolutionSetting.address(), 0x61);
    assert_eq!(Command::PartialWindow.address(), 0x90);
    assert_eq!(Command::DataStartTransmission2.address(), 0x13);
}

#[test]
fn lut_tables() {
    assert_eq!(lut_vcom0().len(), 44);
    assert_eq!(lut_vcom0_quick().len(), 44);
    assert_eq!(lut_ww().len(), 42);
    assert_eq!(&lut_vcom0()[..6], &[0x00, 0x17, 0x00, 0x00, 0x00, 0x02]);
    assert_eq!(&lut_bb()[..6], &[0x80, 0x17, 0x00, 0x00, 0x00, 0x02]);
    assert_eq!(&lut_bb_quick()[..6], &[0x50, 0x0E, 0x00, 0x00, 0x00, 0x01]);
}

#[test]
fn new_sends_init_sequence() {
    let (epd, plan) = Epd3in27::new();
    assert_eq!(plan.ops, init_ops(full_lut_ops()));
    assert_eq!(*epd.background_color(), Color::White);
    assert_eq!(epd.width(), 400);
    assert_eq!(epd.height(), 300);
}

#[test]
fn wake_up_repeats_init() {
    let (mut epd, first) = Epd3in27::new();
    let again = epd.wake_up();
    assert_eq!(first, again);
}

#[test]
fn background_color_roundtrip() {
    let (mut epd, _) = Epd3in27::new();
    epd.set_background_color(Color::Black);
    assert_eq!(*epd.background_color(), Color::Black);
    epd.set_background_color(Color::White);
    assert_eq!(*epd.background_color(), Color::White);
}

#[test]
fn color_byte_values() {
    assert_eq!(Color::White.get_byte_value(), 0xff);
    assert_eq!(Color::Black.get_byte_value(), 0x00);
}

#[test]
fn set_lut_switches_tables() {
    let (mut epd, _) = Epd3in27::new();
    let quick = epd.set_lut(Some(RefreshLut::Quick));
    assert_eq!(quick.ops, quick_lut_ops());
    // without a new mode the current one is kept
    let again = epd.set_lut(None);
    assert_eq!(again.ops, quick_lut_ops());
    // waking up loads the tables of the current mode
    let wake = epd.wake_up();
    assert_eq!(wake.ops, init_ops(quick_lut_ops()));
    let full = epd.set_lut(Some(RefreshLut::Full));
    assert_eq!(full.ops, full_lut_ops());
}

#[test]
fn sleep_sequence() {
    let (epd, _) = Epd3in27::new();
    let p = epd.sleep();
    assert_eq!(
        p.ops,
        vec![
            BusOp::WaitUntilIdle,
            cmd(Command::VcomAndDataIntervalSetting),
            data(&[0x17]),
            cmd(Command::VcmDcSetting),
            cmd(Command::PanelSetting),
            cmd(Command::PowerSetting),
            data(&[0x00]),
            data(&[0x00]),
            data(&[0x00]),
            data(&[0x00]),
            cmd(Command::PowerOff),
            BusOp::WaitUntilIdle,
            cmd(Command::DeepSleep),
            data(&[0xA5]),
        ]
    );
}

#[test]
fn frame_updates() {
    let (epd, _) = Epd3in27::new();
    let buf = [1u8, 2, 3];
    let old_frame = vec![BusOp::WaitUntilIdle, cmd(Command::DataStartTransmission1), data(&buf)];
    let new_frame = vec![BusOp::WaitUntilIdle, cmd(Command::DataStartTransmission2), data(&buf)];
    assert_eq!(epd.update_frame(&buf).ops, old_frame);
    assert_eq!(epd.update_old_frame(&buf).ops, old_frame);
    assert_eq!(epd.update_new_frame(&buf).ops, new_frame);
    let display = vec![BusOp::WaitUntilIdle, cmd(Command::DisplayRefresh)];
    assert_eq!(epd.display_frame().ops, display);
    assert_eq!(epd.display_new_frame().ops, display);
    let mut ud = old_frame.clone_ops();
    ud.push(cmd(Command::DisplayRefresh));
    assert_eq!(epd.update_and_display_frame(&buf).ops, ud);
    let mut udn = new_frame.clone_ops();
    udn.extend(display.clone_ops());
    assert_eq!(epd.update_and_display_new_frame(&buf).ops, udn);
}

trait CloneOps {
    fn clone_ops(&self) -> Vec<BusOp>;
}

impl CloneOps for Vec<BusOp> {
    fn clone_ops(&self) -> Vec<BusOp> {
        self.iter()
            .map(|op| match op {
                BusOp::Command(c) => BusOp::Command(*c),
                BusOp::Data(d) => BusOp::Data(d.clone()),
                BusOp::DataRepeat(v, n) => BusOp::DataRepeat(*v, *n),
                BusOp::Reset(d) => BusOp::Reset(*d),
                BusOp::DelayMs(ms) => BusOp::DelayMs(*ms),
                BusOp::WaitUntilIdle => BusOp::WaitUntilIdle,
            })
            .collect()
    }
}

#[test]
fn clear_frame_fills_screen() {
    let (mut epd, _) = Epd3in27::new();
    let mut expected = vec![BusOp::WaitUntilIdle];
    expected.extend(resolution_ops());
    expected.extend(vec![
        cmd(Command::DataStartTransmission1),
        BusOp::DataRepeat(0xff, 15000),
        cmd(Command::DataStartTransmission2),
        BusOp::DataRepeat(0xff, 15000),
    ]);
    assert_eq!(epd.clear_frame().ops, expected);
    epd.set_background_color(Color::Black);
    let p = epd.clear_frame();
    assert_eq!(p.ops[7], BusOp::DataRepeat(0x00, 15000));
    assert_eq!(p.ops[9], BusOp::DataRepeat(0x00, 15000));
    // on the wire: resolution, then one byte per eight pixels in each transmission
    let bytes = bus_bytes(&p);
    assert_eq!(bytes.len(), 5 + 2 + 2 * (400 * 300 / 8));
    assert_eq!(&bytes[..6], &[0x61, 0x01, 0x90, 0x01, 0x2C, 0x10]);
    assert!(bytes[6..15006].iter().all(|b| *b == 0x00));
    assert_eq!(bytes[15006], 0x13);
}

#[test]
fn shift_display_window_bytes() {
    let (epd, _) = Epd3in27::new();
    // x = 13: the last three bits are dropped (start 8); end 8 + 100 - 1 = 107, bits set: 111
    let p = epd.shift_display(13, 300, 100, 50);
    assert_eq!(p.ops, window_ops([0x00, 0x08, 0x00, 0x6F, 0x01, 0x2C, 0x01, 0x5D, 0x01]));
    // decoded big-endian
    let b = bus_bytes(&p);
    assert_eq!(u16::from_be_bytes([b[0], b[1]]), 8);
    assert_eq!(u16::from_be_bytes([b[2], b[3]]), 111);
    assert_eq!(u16::from_be_bytes([b[4], b[5]]), 300);
    assert_eq!(u16::from_be_bytes([b[6], b[7]]), 349);
}

#[test]
fn shift_display_high_x_keeps_high_byte() {
    let (epd, _) = Epd3in27::new();
    // x above 255: only the last three bits of x are dropped, start and end
    let p = epd.shift_display(0x1234, 0, 16, 1);
    assert_eq!(p.ops, window_ops([0x12, 0x30, 0x12, 0x3F, 0x00, 0x00, 0x00, 0x00, 0x01]));
    // columns 264..=279, rows 10..=13
    let p = epd.shift_display(264, 10, 16, 4);
    assert_eq!(p.ops, window_ops([0x01, 0x08, 0x01, 0x17, 0x00, 0x0A, 0x00, 0x0D, 0x01]));
    let b = bus_bytes(&p);
    assert_eq!(u16::from_be_bytes([b[0], b[1]]), 264);
    assert_eq!(u16::from_be_bytes([b[2], b[3]]), 279);
}

#[test]
fn shift_display_single_pixel_window() {
    let (epd, _) = Epd3in27::new();
    let p = epd.shift_display(0, 0, 1, 1);
    assert_eq!(p.ops, window_ops([0, 0, 0, 0x07, 0, 0, 0, 0, 0x01]));
}

#[test]
fn partial_frame_sequences() {
    let (epd, _) = Epd3in27::new();
    let buf = [0xAAu8, 0x55];
    let win = window_ops([0x00, 0x10, 0x00, 0x1F, 0x00, 0x05, 0x00, 0x06, 0x01]);

    let mut full = vec![BusOp::WaitUntilIdle, cmd(Command::PartialIn), cmd(Command::PartialWindow)];
    full.extend(win.clone_ops());
    full.extend(vec![cmd(Command::DataStartTransmission2), data(&buf), cmd(Command::PartialOut)]);
    let p = epd.update_partial_frame(&buf, 16, 5, 16, 2);
    assert_eq!(p.ops, full);
    assert_eq!(
        bus_bytes(&p),
        vec![0x91, 0x90, 0x00, 0x10, 0x00, 0x1F, 0x00, 0x05, 0x00, 0x06, 0x01, 0x13, 0xAA, 0x55, 0x92]
    );

    let mut old = vec![BusOp::WaitUntilIdle, cmd(Command::PartialIn), cmd(Command::PartialWindow)];
    old.extend(win.clone_ops());
    old.extend(vec![cmd(Command::DataStartTransmission1), data(&buf)]);
    assert_eq!(epd.update_partial_old_frame(&buf, 16, 5, 16, 2).ops, old);

    let mut new = vec![BusOp::WaitUntilIdle];
    new.extend(win.clone_ops());
    new.extend(vec![cmd(Command::DataStartTransmission2), data(&buf), cmd(Command::PartialOut)]);
    assert_eq!(epd.update_partial_new_frame(&buf, 16, 5, 16, 2).ops, new);
}

#[test]
fn clear_partial_frame_fills_window() {
    let (mut epd, _) = Epd3in27::new();
    epd.set_background_color(Color::Black);
    let mut expected = vec![BusOp::WaitUntilIdle];
    expected.extend(resolution_ops());
    expected.extend(vec![cmd(Command::PartialIn), cmd(Command::PartialWindow)]);
    expected.extend(window_ops([0x00, 0x10, 0x00, 0x1F, 0x00, 0x05, 0x00, 0x0E, 0x01]));
    expected.extend(vec![
        cmd(Command::DataStartTransmission1),
        BusOp::DataRepeat(0x00, 20),
        cmd(Command::DataStartTransmission2),
        BusOp::DataRepeat(0x00, 20),
        cmd(Command::PartialOut),
    ]);
    assert_eq!(epd.clear_partial_frame(16, 5, 16, 10).ops, expected);
}

#[test]
fn busy_line_is_active_low() {
    assert!(IS_BUSY_LOW);
    assert_eq!(busy_level(IS_BUSY_LOW), PinLevel::Low);
    assert_eq!(busy_level(false), PinLevel::High);
    let (epd, _) = Epd3in27::new();
    assert!(epd.is_busy(Some(true)));
    assert!(!epd.is_busy(Some(false)));
    assert!(!epd.is_busy(None));
    assert!(is_busy(Some(true)));
}

#[test]
fn wire_level_framing() {
    assert_eq!(
        wire_ops(&cmd(Command::PowerOn)),
        vec![WireOp::DcLow, WireOp::CsLow, WireOp::Write(0x04), WireOp::CsHigh]
    );
    assert_eq!(
        wire_ops(&data(&[1, 2])),
        vec![
            WireOp::DcHigh,
            WireOp::CsLow,
            WireOp::Write(1),
            WireOp::CsHigh,
            WireOp::CsLow,
            WireOp::Write(2),
            WireOp::CsHigh,
        ]
    );
    assert_eq!(wire_ops(&data(&[])), vec![WireOp::DcHigh]);
    assert_eq!(
        wire_ops(&BusOp::DataRepeat(0xff, 2)),
        vec![
            WireOp::DcHigh,
            WireOp::CsLow,
            WireOp::Write(0xff),
            WireOp::CsHigh,
            WireOp::CsLow,
            WireOp::Write(0xff),
            WireOp::CsHigh,
        ]
    );
    assert_eq!(
        wire_ops(&BusOp::Reset(10)),
        vec![
            WireOp::RstHigh,
            WireOp::DelayMs(10),
            WireOp::RstLow,
            WireOp::DelayMs(10),
            WireOp::RstHigh,
            WireOp::DelayMs(200),
        ]
    );
    assert_eq!(wire_ops(&BusOp::DelayMs(5)), vec![WireOp::DelayMs(5)]);
    assert_eq!(wire_ops(&BusOp::WaitUntilIdle), vec![WireOp::WaitUntilIdle]);
}

#[test]
fn frame_reaches_bus_unchanged() {
    let (epd, _) = Epd3in27::new();
    let buf: Vec<u8> = (0..=255u8).collect();
    let mut expected = vec![0x10u8];
    expected.extend(buf.iter().copied());
    assert_eq!(bus_bytes(&epd.update_frame(&buf)), expected);
}

#[test]
fn plan_append_and_builders() {
    let mut p = Plan::new();
    assert!(p.ops.is_empty());
    p.cmd_with_data(Command::PllControl, &[0x39]);
    let mut q = Plan::new();
    q.data_x_times(7, 3);
    q.delay_ms(2);
    q.reset(4);
    p.append(q);
    assert_eq!(
        p.ops,
        vec![
            cmd(Command::PllControl),
            data(&[0x39]),
            BusOp::DataRepeat(7, 3),
            BusOp::DelayMs(2),
            BusOp::Reset(4),
        ]
    );
}

#[test]
fn demo_work_plans() {
    let (mut wb, init) = Epd3in27wb::new();
    assert_eq!(init.ops, init_ops(full_lut_ops()));
    let buf = [0u8; 4];
    let plans = wb.work(&buf);
    assert_eq!(plans.len(), 4);
    assert_eq!(plans[0], wb.epd.clear_frame());
    assert_eq!(plans[1], wb.epd.update_frame(&buf));
    assert_eq!(plans[2], wb.epd.display_frame());
    assert_eq!(plans[3], wb.epd.sleep());
}

#[test]
fn plan_wire_ops_concatenates_operations() {
    let (epd, _) = Epd3in27::new();
    let p = epd.update_frame(&[5, 6]);
    let mut expected = Vec::new();
    for op in &p.ops {
        expected.extend(wire_ops(op));
    }
    let w = plan_wire_ops(&p);
    assert_eq!(w, expected);
    assert_eq!(
        w,
        vec![
            WireOp::WaitUntilIdle,
            WireOp::DcLow,
            WireOp::CsLow,
            WireOp::Write(0x10),
            WireOp::CsHigh,
            WireOp::DcHigh,
            WireOp::CsLow,
            WireOp::Write(5),
            WireOp::CsHigh,
            WireOp::CsLow,
            WireOp::Write(6),
            WireOp::CsHigh,
        ]
    );
    // stopping at the transfer of the byte 6 has sent a prefix of the plan's bytes
    let sent: Vec<u8> = w[..10]
        .iter()
        .filter_map(|a| if let WireOp::Write(b) = a { Some(*b) } else { None })
        .collect();
    assert_eq!(sent, vec![0x10, 5]);
    assert_eq!(&bus_bytes(&p)[..sent.len()], &sent[..]);
}

#[test]
fn window_checks() {
    assert!(window_fits(264, 10, 16, 4));
    assert!(!window_fits(0, 0, 0, 1));
    assert!(!window_fits(0, 0, 1, 0));
    assert!(!window_fits(u32::MAX, 0, 9, 1));
    assert!(window_fits(u32::MAX, 0, 7, 1));
    assert!(!window_fits(0, u32::MAX, 1, 1));
    assert!(partial_size_fits(400, 300));
    assert!(!partial_size_fits(u32::MAX, 9));
}

/// Drives a runner, failing the transfer at action `fail_at`; returns the
/// actions performed and whether the run ended in success.
fn drive(p: &Plan, fail_at: Option<usize>) -> (Vec<WireOp>, bool) {
    let mut runner = Runner::new(p);
    let mut performed = Vec::new();
    let mut failed = false;
    loop {
        match runner.step(failed) {
            Next::Perform(a) => {
                failed = Some(performed.len()) == fail_at;
                performed.push(a);
            }
            Next::Done => return (performed, true),
            Next::Stop => return (performed, false),
        }
    }
}

#[test]
fn runner_completes_without_failure() {
    let (epd, _) = Epd3in27::new();
    let p = epd.update_and_display_frame(&[7]);
    let (performed, ok) = drive(&p, None);
    assert!(ok);
    assert_eq!(performed, plan_wire_ops(&p));
}

#[test]
fn runner_stops_at_first_failed_transfer() {
    let (epd, _) = Epd3in27::new();
    let p = epd.update_and_display_frame(&[7]);
    let all = plan_wire_ops(&p);
    // the transfer of the data byte fails: the refresh command is never sent
    let k = all.iter().position(|a| *a == WireOp::Write(7)).unwrap();
    let (performed, ok) = drive(&p, Some(k));
    assert!(!ok);
    assert_eq!(performed, all[..=k].to_vec());
    assert!(!performed.contains(&WireOp::Write(0x12)));
    // the sleep plan failing on its first transfer never reaches deep sleep
    let s = epd.sleep();
    let all = plan_wire_ops(&s);
    let k = all.iter().position(|a| matches!(a, WireOp::Write(_))).unwrap();
    let (performed, ok) = drive(&s, Some(k));
    assert!(!ok);
    assert!(!performed.contains(&WireOp::Write(0x07)));
    assert_eq!(performed.len(), k + 1);
}

#[test]
fn stopped_runner_stays_stopped() {
    let p = Plan::new();
    let mut runner = Runner::new(&p);
    assert_eq!(runner.step(true), Next::Stop);
    assert_eq!(runner.step(false), Next::Stop);
    let mut fresh = Runner::new(&p);
    assert_eq!(fresh.step(false), Next::Done);
    assert_eq!(fresh.step(false), Next::Done);
}
