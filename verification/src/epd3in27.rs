//! The 3.27 inch e-paper driver: for each operation, the exact sequence of
//! bus operations it sends, and the small state it keeps (background color
//! and refresh look-up table).
use vstd::prelude::*;
use crate::command::Command;
use crate::constants::{
    lut_bb, lut_bb_quick, lut_bw, lut_bw_quick, lut_vcom0, lut_vcom0_quick, lut_wb,
    lut_wb_quick, lut_ww, lut_ww_quick, spec_lut_bb, spec_lut_bb_quick, spec_lut_bw,
    spec_lut_bw_quick, spec_lut_vcom0, spec_lut_vcom0_quick, spec_lut_wb, spec_lut_wb_quick,
    spec_lut_ww, spec_lut_ww_quick,
};
use crate::interface::{be16, bus_bytes, byte_step, is_busy, lemma_bus_bytes_auto, step_bytes, Plan, Step};

verus! {

/// Width of the display, in pixels.
pub const WIDTH: u32 = 400;

/// Height of the display, in pixels.
pub const HEIGHT: u32 = 300;

/// The busy line of this controller is active low.
pub const IS_BUSY_LOW: bool = true;

/// Black or white, the two colors of a monochrome pixel.
#[derive(Clone, Copy, Debug, PartialEq, Eq, Structural)]
pub enum Color {
    Black,
    White,
}

/// Default background color.
pub const DEFAULT_BACKGROUND_COLOR: Color = Color::White;

/// A full byte of pixels of one color: all ones for white, all zeros for
/// black.
pub open spec fn color_byte(c: Color) -> u8 {
    match c {
        Color::White => 0xff,
        Color::Black => 0x00,
    }
}

impl Color {
    /// Gets a full byte of black or white pixels.
    pub fn get_byte_value(self) -> (b: u8)
        ensures
            b == color_byte(self),
    {
        match self {
            Color::White => 0xff,
            Color::Black => 0x00,
        }
    }
}

/// Which look-up tables the display refreshes with.
#[derive(Clone, Copy, Debug, PartialEq, Eq, Structural)]
pub enum RefreshLut {
    /// The full refresh sequence.
    Full,
    /// The quick refresh sequence.
    Quick,
}

/// The state the driver keeps between operations.
pub struct EpdState {
    pub color: Color,
    pub refresh: RefreshLut,
}

/// Driver for the 3.27 inch e-paper display.  Every operation returns the
/// [`Plan`] of bus operations that it performs.
pub struct Epd3in27 {
    /// Background color
    color: Color,
    /// Refresh LUT
    refresh: RefreshLut,
}

impl View for Epd3in27 {
    type V = EpdState;

    closed spec fn view(&self) -> EpdState {
        EpdState { color: self.color, refresh: self.refresh }
    }
}

// ---------------------------------------------------------------------------
// What each operation sends.
// ---------------------------------------------------------------------------

/// A sequence of one-byte data steps, one per byte.
pub open spec fn byte_steps(b: Seq<u8>) -> Seq<Step> {
    b.map_values(|v: u8| byte_step(v))
}

/// Writing the five look-up tables.
pub open spec fn lut_helper_steps(
    vcom: Seq<u8>,
    ww: Seq<u8>,
    bw: Seq<u8>,
    wb: Seq<u8>,
    bb: Seq<u8>,
) -> Seq<Step> {
    seq![
        Step::WaitIdle,
        Step::Cmd(Command::LutForVcom),
        Step::Data(vcom),
        Step::Cmd(Command::LutWhiteToWhite),
        Step::Data(ww),
        Step::Cmd(Command::LutBlackToWhite),
        Step::Data(bw),
        Step::Cmd(Command::LutWhiteToBlack),
        Step::Data(wb),
        Step::Cmd(Command::LutBlackToBlack),
        Step::Data(bb),
    ]
}

/// Writing the look-up tables of a refresh mode.
pub open spec fn lut_steps(r: RefreshLut) -> Seq<Step> {
    match r {
        RefreshLut::Full => lut_helper_steps(
            spec_lut_vcom0(),
            spec_lut_ww(),
            spec_lut_bw(),
            spec_lut_wb(),
            spec_lut_bb(),
        ),
        RefreshLut::Quick => lut_helper_steps(
            spec_lut_vcom0_quick(),
            spec_lut_ww_quick(),
            spec_lut_bw_quick(),
            spec_lut_wb_quick(),
            spec_lut_bb_quick(),
        ),
    }
}

/// Sending the resolution: width and height, each big-endian in two bytes.
pub open spec fn resolution_steps() -> Seq<Step> {
    seq![
        Step::Cmd(Command::ResolutionSetting),
        byte_step((WIDTH >> 8) as u8),
        byte_step(WIDTH as u8),
        byte_step((HEIGHT >> 8) as u8),
        byte_step(HEIGHT as u8),
    ]
}

/// The power-up and configuration sequence, ending with the look-up tables
/// of refresh mode `r`.
pub open spec fn init_steps(r: RefreshLut) -> Seq<Step> {
    seq![
        Step::Reset(10),
        Step::Cmd(Command::PowerSetting),
        Step::Data(seq![0x07u8, 0x00, 0x0A, 0x00]),
        Step::Cmd(Command::BoosterSoftStart),
        Step::Data(seq![0x07u8, 0x07, 0x07]),
        Step::Cmd(Command::PowerOn),
        Step::Delay(5),
        Step::WaitIdle,
        Step::Cmd(Command::PanelSetting),
        Step::Data(seq![0xCFu8]),
        Step::Cmd(Command::VcomAndDataIntervalSetting),
        Step::Data(seq![0x37u8]),
        Step::Cmd(Command::PllControl),
        Step::Data(seq![0x39u8]),
    ] + resolution_steps() + seq![
        Step::Cmd(Command::VcmDcSetting),
        Step::Data(seq![0x0Cu8]),
    ] + lut_steps(r) + seq![Step::WaitIdle]
}

/// Powering down into deep sleep.
pub open spec fn sleep_steps() -> Seq<Step> {
    seq![
        Step::WaitIdle,
        Step::Cmd(Command::VcomAndDataIntervalSetting),
        Step::Data(seq![0x17u8]),
        Step::Cmd(Command::VcmDcSetting),
        Step::Cmd(Command::PanelSetting),
        Step::Cmd(Command::PowerSetting),
        byte_step(0x00),
        byte_step(0x00),
        byte_step(0x00),
        byte_step(0x00),
        Step::Cmd(Command::PowerOff),
        Step::WaitIdle,
        Step::Cmd(Command::DeepSleep),
        Step::Data(seq![0xA5u8]),
    ]
}

/// Sending a frame to the first data transmission (the old/black frame).
pub open spec fn update_frame_steps(buffer: Seq<u8>) -> Seq<Step> {
    seq![Step::WaitIdle, Step::Cmd(Command::DataStartTransmission1), Step::Data(buffer)]
}

/// Sending a frame to the second data transmission (the new frame).
pub open spec fn update_new_frame_steps(buffer: Seq<u8>) -> Seq<Step> {
    seq![Step::WaitIdle, Step::Cmd(Command::DataStartTransmission2), Step::Data(buffer)]
}

/// Refreshing the panel with the transmitted frame.
pub open spec fn display_frame_steps() -> Seq<Step> {
    seq![Step::WaitIdle, Step::Cmd(Command::DisplayRefresh)]
}

/// The first column of a partial window at `x`: `x` with its last three
/// bits cleared, so that the window starts at a byte of pixels.
pub open spec fn window_start(x: u32) -> u32 {
    x & 0xffff_fff8
}

/// Whether the arithmetic on a partial window stays within `u32`.
pub open spec fn window_ok(x: u32, y: u32, width: u32, height: u32) -> bool {
    &&& 1 <= window_start(x) + width <= u32::MAX
    &&& 1 <= y + height <= u32::MAX
}

/// Whether the size of a partial buffer, `width / 8 * height`, fits in
/// `u32`.
pub open spec fn partial_size_ok(width: u32, height: u32) -> bool {
    (width / 8) * height <= u32::MAX
}

/// Whether the arithmetic on a partial window stays within `u32` (the
/// condition under which the window operations may be called).
pub fn window_fits(x: u32, y: u32, width: u32, height: u32) -> (b: bool)
    ensures
        b == window_ok(x, y, width, height),
{
    let horizontal = match (x & 0xffff_fff8).checked_add(width) {
        Some(end) => end >= 1,
        None => false,
    };
    let vertical = match y.checked_add(height) {
        Some(end) => end >= 1,
        None => false,
    };
    horizontal && vertical
}

/// Whether `width / 8 * height` fits in `u32`.
pub fn partial_size_fits(width: u32, height: u32) -> (b: bool)
    ensures
        b == partial_size_ok(width, height),
{
    (width / 8).checked_mul(height).is_some()
}

/// The nine bytes that describe a partial window: horizontal start and end
/// (big-endian; the start is `window_start(x)`, the end is the start plus
/// `width - 1` with its last three bits set), vertical start and end
/// (big-endian), and 0x01 (gates scan both inside and outside of the
/// window).
pub open spec fn window_bytes(x: u32, y: u32, width: u32, height: u32) -> Seq<u8> {
    let start = window_start(x);
    let x_end = (start + width - 1) as u32;
    let y_end = (y + height - 1) as u32;
    seq![
        (start >> 8) as u8,
        start as u8,
        (x_end >> 8) as u8,
        (x_end | 0x07) as u8,
        (y >> 8) as u8,
        y as u8,
        (y_end >> 8) as u8,
        y_end as u8,
        0x01u8,
    ]
}

/// Sending the partial window, one byte per data step.
pub open spec fn shift_steps(x: u32, y: u32, width: u32, height: u32) -> Seq<Step> {
    byte_steps(window_bytes(x, y, width, height))
}

/// Sending a frame into a partial window and leaving partial mode.
pub open spec fn partial_frame_steps(
    buffer: Seq<u8>,
    x: u32,
    y: u32,
    width: u32,
    height: u32,
) -> Seq<Step> {
    seq![Step::WaitIdle, Step::Cmd(Command::PartialIn), Step::Cmd(Command::PartialWindow)]
        + shift_steps(x, y, width, height) + seq![
        Step::Cmd(Command::DataStartTransmission2),
        Step::Data(buffer),
        Step::Cmd(Command::PartialOut),
    ]
}

/// Filling both data transmissions of the whole screen with one color.
pub open spec fn clear_frame_steps(c: Color) -> Seq<Step> {
    seq![Step::WaitIdle] + resolution_steps() + seq![
        Step::Cmd(Command::DataStartTransmission1),
        Step::Repeat(color_byte(c), (WIDTH / 8 * HEIGHT) as nat),
        Step::Cmd(Command::DataStartTransmission2),
        Step::Repeat(color_byte(c), (WIDTH / 8 * HEIGHT) as nat),
    ]
}

/// Sending the old frame into a partial window (partial mode stays on).
pub open spec fn partial_old_frame_steps(
    buffer: Seq<u8>,
    x: u32,
    y: u32,
    width: u32,
    height: u32,
) -> Seq<Step> {
    seq![Step::WaitIdle, Step::Cmd(Command::PartialIn), Step::Cmd(Command::PartialWindow)]
        + shift_steps(x, y, width, height) + seq![
        Step::Cmd(Command::DataStartTransmission1),
        Step::Data(buffer),
    ]
}

/// Sending the new frame into a partial window and leaving partial mode.
pub open spec fn partial_new_frame_steps(
    buffer: Seq<u8>,
    x: u32,
    y: u32,
    width: u32,
    height: u32,
) -> Seq<Step> {
    seq![Step::WaitIdle] + shift_steps(x, y, width, height) + seq![
        Step::Cmd(Command::DataStartTransmission2),
        Step::Data(buffer),
        Step::Cmd(Command::PartialOut),
    ]
}

/// Filling both data transmissions of a partial window with one color.
pub open spec fn clear_partial_frame_steps(
    c: Color,
    x: u32,
    y: u32,
    width: u32,
    height: u32,
) -> Seq<Step> {
    seq![Step::WaitIdle] + resolution_steps() + seq![
        Step::Cmd(Command::PartialIn),
        Step::Cmd(Command::PartialWindow),
    ] + shift_steps(x, y, width, height) + seq![
        Step::Cmd(Command::DataStartTransmission1),
        Step::Repeat(color_byte(c), (width / 8 * height) as nat),
        Step::Cmd(Command::DataStartTransmission2),
        Step::Repeat(color_byte(c), (width / 8 * height) as nat),
        Step::Cmd(Command::PartialOut),
    ]
}

// ---------------------------------------------------------------------------
// The driver.
// ---------------------------------------------------------------------------

impl Epd3in27 {
    /// A driver with the default background color and the full refresh,
    /// together with the initialisation sequence that brings the display up.
    pub fn new() -> (r: (Epd3in27, Plan))
        ensures
            r.0@ == (EpdState { color: DEFAULT_BACKGROUND_COLOR, refresh: RefreshLut::Full }),
            r.1@ == init_steps(RefreshLut::Full),
    {
        let mut epd = Epd3in27 { color: DEFAULT_BACKGROUND_COLOR, refresh: RefreshLut::Full };
        let plan = epd.init();
        (epd, plan)
    }

    /// Resets the controller, powers it up, configures it and loads the
    /// look-up tables of the current refresh mode.
    pub fn init(&mut self) -> (p: Plan)
        ensures
            final(self)@ == old(self)@,
            p@ == init_steps(old(self)@.refresh),
    {
        let mut p = Plan::new();
        // reset the device
        p.reset(10);
        // set the power settings
        let power: Vec<u8> = vec![0x07, 0x00, 0x0A, 0x00];
        p.cmd_with_data(Command::PowerSetting, power.as_slice());
        // start the booster
        let booster: Vec<u8> = vec![0x07, 0x07, 0x07];
        p.cmd_with_data(Command::BoosterSoftStart, booster.as_slice());
        // power on
        p.cmd(Command::PowerOn);
        p.delay_ms(5);
        p.wait_until_idle();
        // set the panel settings
        p.cmd(Command::PanelSetting);
        p.data_byte(0xCF);
        p.cmd(Command::VcomAndDataIntervalSetting);
        p.data_byte(0x37);
        // 3A 100HZ   29 150Hz 39 200HZ  31 171HZ DEFAULT: 3c 50Hz
        p.cmd(Command::PllControl);
        p.data_byte(0x39);
        let res = self.send_resolution();
        p.append(res);
        p.cmd(Command::VcmDcSetting);
        p.data_byte(0x0C);
        let lut = self.set_lut(None);
        p.append(lut);
        p.wait_until_idle();
        assert(p@ =~= init_steps(old(self)@.refresh));
        p
    }

    /// Wakes the display from deep sleep: the initialisation sequence again.
    pub fn wake_up(&mut self) -> (p: Plan)
        ensures
            final(self)@ == old(self)@,
            p@ == init_steps(old(self)@.refresh),
    {
        self.init()
    }

    /// Powers the display down into deep sleep.
    pub fn sleep(&self) -> (p: Plan)
        ensures
            p@ == sleep_steps(),
    {
        let mut p = Plan::new();
        p.wait_until_idle();
        //border floating
        p.cmd(Command::VcomAndDataIntervalSetting);
        p.data_byte(0x17);
        // VCOM to 0V
        p.cmd(Command::VcmDcSetting);
        p.cmd(Command::PanelSetting);
        //VG&VS to 0V fast
        p.cmd(Command::PowerSetting);
        let ghost start = p@;
        let mut i: u32 = 0;
        while i < 4
            invariant
                i <= 4,
                p@ == start + Seq::new(i as nat, |j: int| byte_step(0x00)),
            decreases 4 - i,
        {
            p.data_byte(0x00);
            i = i + 1;
            assert(p@ =~= start + Seq::new(i as nat, |j: int| byte_step(0x00)));
        }
        p.cmd(Command::PowerOff);
        p.wait_until_idle();
        p.cmd(Command::DeepSleep);
        p.data_byte(0xA5);
        assert(Seq::new(4, |j: int| byte_step(0x00)) =~= seq![byte_step(0x00), byte_step(0x00), byte_step(0x00), byte_step(0x00)]);
        assert(p@ =~= sleep_steps());
        p
    }

    /// Sends a full frame to the first data transmission.
    pub fn update_frame(&self, buffer: &[u8]) -> (p: Plan)
        ensures
            p@ == update_frame_steps(buffer@),
    {
        let mut p = Plan::new();
        p.wait_until_idle();
        p.cmd_with_data(Command::DataStartTransmission1, buffer);
        assert(p@ =~= update_frame_steps(buffer@));
        p
    }

    /// Sends a frame into the window at (`x`, `y`) of size `width` by
    /// `height` and leaves partial mode.  The buffer size is not checked
    /// against the window.
    pub fn update_partial_frame(
        &self,
        buffer: &[u8],
        x: u32,
        y: u32,
        width: u32,
        height: u32,
    ) -> (p: Plan)
        requires
            window_ok(x, y, width, height),
            partial_size_ok(width, height),
        ensures
            p@ == partial_frame_steps(buffer@, x, y, width, height),
    {
        let mut p = Plan::new();
        p.wait_until_idle();
        p.cmd(Command::PartialIn);
        p.cmd(Command::PartialWindow);
        let w = self.shift_display(x, y, width, height);
        p.append(w);
        p.cmd(Command::DataStartTransmission2);
        p.data(buffer);
        p.cmd(Command::PartialOut);
        assert(p@ =~= partial_frame_steps(buffer@, x, y, width, height));
        p
    }

    /// Refreshes the panel with the transmitted frame.
    pub fn display_frame(&self) -> (p: Plan)
        ensures
            p@ == display_frame_steps(),
    {
        let mut p = Plan::new();
        p.wait_until_idle();
        p.cmd(Command::DisplayRefresh);
        assert(p@ =~= display_frame_steps());
        p
    }

    /// Sends a full frame, then refreshes the panel.
    pub fn update_and_display_frame(&self, buffer: &[u8]) -> (p: Plan)
        ensures
            p@ == update_frame_steps(buffer@).push(Step::Cmd(Command::DisplayRefresh)),
    {
        let mut p = self.update_frame(buffer);
        p.cmd(Command::DisplayRefresh);
        p
    }

    /// Fills both data transmissions of the whole screen with the background
    /// color.
    pub fn clear_frame(&self) -> (p: Plan)
        ensures
            p@ == clear_frame_steps(self@.color),
    {
        let mut p = Plan::new();
        p.wait_until_idle();
        let res = self.send_resolution();
        p.append(res);
        let color_value = self.color.get_byte_value();
        p.cmd(Command::DataStartTransmission1);
        p.data_x_times(color_value, WIDTH / 8 * HEIGHT);
        p.cmd(Command::DataStartTransmission2);
        p.data_x_times(color_value, WIDTH / 8 * HEIGHT);
        assert(p@ =~= clear_frame_steps(self@.color));
        p
    }

    /// Sets the background color.
    pub fn set_background_color(&mut self, color: Color)
        ensures
            final(self)@ == (EpdState { color: color, refresh: old(self)@.refresh }),
    {
        self.color = color;
    }

    /// The background color.
    pub fn background_color(&self) -> (c: &Color)
        ensures
            *c == self@.color,
    {
        &self.color
    }

    /// Width of the display.
    pub fn width(&self) -> (w: u32)
        ensures
            w == WIDTH,
    {
        WIDTH
    }

    /// Height of the display.
    pub fn height(&self) -> (h: u32)
        ensures
            h == HEIGHT,
    {
        HEIGHT
    }

    /// Switches to `refresh_rate` when one is given, then loads the look-up
    /// tables of the (possibly new) refresh mode.
    pub fn set_lut(&mut self, refresh_rate: Option<RefreshLut>) -> (p: Plan)
        ensures
            final(self)@.color == old(self)@.color,
            final(self)@.refresh == (match refresh_rate {
                Some(r) => r,
                None => old(self)@.refresh,
            }),
            p@ == lut_steps(final(self)@.refresh),
    {
        if let Some(refresh_lut) = refresh_rate {
            self.refresh = refresh_lut;
        }
        match self.refresh {
            RefreshLut::Full => {
                let vcom = lut_vcom0();
                let ww = lut_ww();
                let bw = lut_bw();
                let wb = lut_wb();
                let bb = lut_bb();
                self.set_lut_helper(vcom.as_slice(), ww.as_slice(), bw.as_slice(), wb.as_slice(), bb.as_slice())
            },
            RefreshLut::Quick => {
                let vcom = lut_vcom0_quick();
                let ww = lut_ww_quick();
                let bw = lut_bw_quick();
                let wb = lut_wb_quick();
                let bb = lut_bb_quick();
                self.set_lut_helper(vcom.as_slice(), ww.as_slice(), bw.as_slice(), wb.as_slice(), bb.as_slice())
            },
        }
    }

    /// Whether the display is busy, given the answer of the busy pin to
    /// "are you at `busy_level(IS_BUSY_LOW)`?" (here: low).
    pub fn is_busy(&self, reading: Option<bool>) -> (busy: bool)
        ensures
            busy == (reading == Some(true)),
    {
        is_busy(reading)
    }

    /// Sends the resolution of the display.
    fn send_resolution(&self) -> (p: Plan)
        ensures
            p@ == resolution_steps(),
    {
        let w = self.width();
        let h = self.height();
        let mut p = Plan::new();
        p.cmd(Command::ResolutionSetting);
        p.data_byte((w >> 8) as u8);
        p.data_byte(w as u8);
        p.data_byte((h >> 8) as u8);
        p.data_byte(h as u8);
        assert(p@ =~= resolution_steps());
        p
    }

    /// Loads the five look-up tables.
    fn set_lut_helper(
        &self,
        lut_vcom: &[u8],
        lut_ww: &[u8],
        lut_bw: &[u8],
        lut_wb: &[u8],
        lut_bb: &[u8],
    ) -> (p: Plan)
        ensures
            p@ == lut_helper_steps(lut_vcom@, lut_ww@, lut_bw@, lut_wb@, lut_bb@),
    {
        let mut p = Plan::new();
        p.wait_until_idle();
        p.cmd_with_data(Command::LutForVcom, lut_vcom);
        p.cmd_with_data(Command::LutWhiteToWhite, lut_ww);
        p.cmd_with_data(Command::LutBlackToWhite, lut_bw);
        p.cmd_with_data(Command::LutWhiteToBlack, lut_wb);
        p.cmd_with_data(Command::LutBlackToBlack, lut_bb);
        assert(p@ =~= lut_helper_steps(lut_vcom@, lut_ww@, lut_bw@, lut_wb@, lut_bb@));
        p
    }

    /// Sets up the display to receive pixel data for the window at (`x`,
    /// `y`) of size `width` by `height`.  The last three bits of `x` are
    /// ignored: the window starts at a multiple of 8.
    pub fn shift_display(&self, x: u32, y: u32, width: u32, height: u32) -> (p: Plan)
        requires
            window_ok(x, y, width, height),
        ensures
            p@ == shift_steps(x, y, width, height),
    {
        let mut p = Plan::new();
        // x should be the multiple of 8, the last 3 bit will always be ignored
        let start = x & 0xffff_fff8;
        p.data_byte((start >> 8) as u8);
        p.data_byte(start as u8);
        let end = start + width - 1;
        p.data_byte((end >> 8) as u8);
        p.data_byte((end | 0x07) as u8);
        p.data_byte((y >> 8) as u8);
        p.data_byte(y as u8);
        p.data_byte(((y + height - 1) >> 8) as u8);
        p.data_byte((y + height - 1) as u8);
        // Gates scan both inside and outside of the partial window. (default)
        p.data_byte(0x01);
        assert(p@ =~= shift_steps(x, y, width, height));
        p
    }

    /// Sends the old frame to the first data transmission.  To be followed
    /// by `update_new_frame`.
    pub fn update_old_frame(&self, buffer: &[u8]) -> (p: Plan)
        ensures
            p@ == update_frame_steps(buffer@),
    {
        let mut p = Plan::new();
        p.wait_until_idle();
        p.cmd(Command::DataStartTransmission1);
        p.data(buffer);
        assert(p@ =~= update_frame_steps(buffer@));
        p
    }

    /// Sends the new frame to the second data transmission.  To be used
    /// after `update_old_frame`.
    pub fn update_new_frame(&self, buffer: &[u8]) -> (p: Plan)
        ensures
            p@ == update_new_frame_steps(buffer@),
    {
        let mut p = Plan::new();
        p.wait_until_idle();
        p.cmd(Command::DataStartTransmission2);
        p.data(buffer);
        assert(p@ =~= update_new_frame_steps(buffer@));
        p
    }

    /// Refreshes the panel with the new frame: the same as `display_frame`.
    pub fn display_new_frame(&self) -> (p: Plan)
        ensures
            p@ == display_frame_steps(),
    {
        self.display_frame()
    }

    /// Sends the new frame, then refreshes the panel.
    pub fn update_and_display_new_frame(&self, buffer: &[u8]) -> (p: Plan)
        ensures
            p@ == update_new_frame_steps(buffer@) + display_frame_steps(),
    {
        let mut p = self.update_new_frame(buffer);
        let d = self.display_frame();
        p.append(d);
        p
    }

    /// Enters partial mode and sends the old frame of a partial window.
    pub fn update_partial_old_frame(
        &self,
        buffer: &[u8],
        x: u32,
        y: u32,
        width: u32,
        height: u32,
    ) -> (p: Plan)
        requires
            window_ok(x, y, width, height),
            partial_size_ok(width, height),
        ensures
            p@ == partial_old_frame_steps(buffer@, x, y, width, height),
    {
        let mut p = Plan::new();
        p.wait_until_idle();
        p.cmd(Command::PartialIn);
        p.cmd(Command::PartialWindow);
        let w = self.shift_display(x, y, width, height);
        p.append(w);
        p.cmd(Command::DataStartTransmission1);
        p.data(buffer);
        assert(p@ =~= partial_old_frame_steps(buffer@, x, y, width, height));
        p
    }

    /// Sends the new frame of a partial window and leaves partial mode.
    /// Call `update_partial_old_frame` first.
    pub fn update_partial_new_frame(
        &self,
        buffer: &[u8],
        x: u32,
        y: u32,
        width: u32,
        height: u32,
    ) -> (p: Plan)
        requires
            window_ok(x, y, width, height),
            partial_size_ok(width, height),
        ensures
            p@ == partial_new_frame_steps(buffer@, x, y, width, height),
    {
        let mut p = Plan::new();
        p.wait_until_idle();
        let w = self.shift_display(x, y, width, height);
        p.append(w);
        p.cmd(Command::DataStartTransmission2);
        p.data(buffer);
        p.cmd(Command::PartialOut);
        assert(p@ =~= partial_new_frame_steps(buffer@, x, y, width, height));
        p
    }

    /// Fills both data transmissions of a partial window with the
    /// background color.
    pub fn clear_partial_frame(&self, x: u32, y: u32, width: u32, height: u32) -> (p: Plan)
        requires
            window_ok(x, y, width, height),
            partial_size_ok(width, height),
        ensures
            p@ == clear_partial_frame_steps(self@.color, x, y, width, height),
    {
        let mut p = Plan::new();
        p.wait_until_idle();
        let res = self.send_resolution();
        p.append(res);
        let color_value = self.color.get_byte_value();
        p.cmd(Command::PartialIn);
        p.cmd(Command::PartialWindow);
        let w = self.shift_display(x, y, width, height);
        p.append(w);
        p.cmd(Command::DataStartTransmission1);
        p.data_x_times(color_value, width / 8 * height);
        p.cmd(Command::DataStartTransmission2);
        p.data_x_times(color_value, width / 8 * height);
        p.cmd(Command::PartialOut);
        assert(p@ =~= clear_partial_frame_steps(self@.color, x, y, width, height));
        p
    }
}

// ---------------------------------------------------------------------------
// Laws.
// ---------------------------------------------------------------------------

proof fn lemma_byte_steps_bytes(b: Seq<u8>)
    ensures
        bus_bytes(byte_steps(b)) == b,
    decreases b.len(),
{
    lemma_bus_bytes_auto();
    if b.len() > 0 {
        lemma_byte_steps_bytes(b.drop_last());
        assert(byte_steps(b) =~= byte_steps(b.drop_last()).push(byte_step(b.last())));
        assert(step_bytes(byte_step(b.last())) =~= seq![b.last()]);
        assert(bus_bytes(byte_steps(b)) =~= b);
    }
}

/// The partial window as the controller reads it back (big-endian pairs):
/// the horizontal start is `x` with its last three bits cleared; the
/// horizontal end is the start plus `width - 1`, rounded up to the last
/// column of its byte of pixels, so the window spans at least `width`
/// columns from the start; the vertical range is exactly `y` to
/// `y + height - 1`.  Holds while every coordinate fits in 16 bits.
pub proof fn law_window_encoding(x: u32, y: u32, width: u32, height: u32)
    requires
        window_ok(x, y, width, height),
        x < 0x10000,
        x - x % 8 + width - 1 < 0x10000,
        y < 0x10000,
        y + height - 1 < 0x10000,
    ensures
        window_start(x) == x - x % 8,
        ({
            let b = window_bytes(x, y, width, height);
            let x_end = x - x % 8 + width - 1;
            &&& be16(b[0], b[1]) == x - x % 8
            &&& be16(b[2], b[3]) == x_end - x_end % 8 + 7
            &&& be16(b[2], b[3]) >= be16(b[0], b[1]) + width - 1
            &&& be16(b[4], b[5]) == y
            &&& be16(b[6], b[7]) == y + height - 1
            &&& b[8] == 0x01
        }),
{
    let start: u32 = x & 0xffff_fff8;
    assert((x & 0xffff_fff8) == x - x % 8) by (bit_vector);
    let e: u32 = (start + width - 1) as u32;
    let ye: u32 = (y + height - 1) as u32;
    assert(start < 0x10000 ==> ((start >> 8) as u8) as u32 * 256 + (start as u8) as u32 == start)
        by (bit_vector);
    assert(e < 0x10000 ==> ((e >> 8) as u8) as u32 * 256 + ((e | 0x07) as u8) as u32 == e - e % 8 + 7)
        by (bit_vector);
    assert(y < 0x10000 ==> ((y >> 8) as u8) as u32 * 256 + (y as u8) as u32 == y) by (bit_vector);
    assert(ye < 0x10000 ==> ((ye >> 8) as u8) as u32 * 256 + (ye as u8) as u32 == ye)
        by (bit_vector);
    let b = window_bytes(x, y, width, height);
    assert(b[0] == (start >> 8) as u8 && b[1] == start as u8);
    assert(b[2] == (e >> 8) as u8 && b[3] == (e | 0x07) as u8);
    assert(b[4] == (y >> 8) as u8 && b[5] == y as u8);
    assert(b[6] == (ye >> 8) as u8 && b[7] == ye as u8);
    assert(be16(b[0], b[1]) == x - x % 8);
    assert(be16(b[2], b[3]) == e - e % 8 + 7);
    assert(be16(b[4], b[5]) == y);
    assert(be16(b[6], b[7]) == y + height - 1);
}

/// Sending a frame puts exactly the first-transmission command and the
/// frame's bytes, unchanged, on the bus.
pub proof fn law_update_frame_bytes(buffer: Seq<u8>)
    ensures
        bus_bytes(update_frame_steps(buffer)) == seq![0x10u8] + buffer,
{
    lemma_bus_bytes_auto();
    assert(update_frame_steps(buffer) =~= Seq::<Step>::empty().push(Step::WaitIdle).push(
        Step::Cmd(Command::DataStartTransmission1),
    ).push(Step::Data(buffer)));
    assert(bus_bytes(update_frame_steps(buffer)) =~= seq![0x10u8] + buffer);
}

/// Clearing writes the whole screen in the background color: after the
/// resolution (400 by 300, big-endian), each of the two data transmissions
/// receives one byte of the color per eight pixels of the screen.
pub proof fn law_clear_frame_bytes(c: Color)
    ensures
        bus_bytes(clear_frame_steps(c)) == seq![0x61u8, 0x01, 0x90, 0x01, 0x2C, 0x10]
            + Seq::new((WIDTH / 8 * HEIGHT) as nat, |i: int| color_byte(c)) + seq![0x13u8]
            + Seq::new((WIDTH / 8 * HEIGHT) as nat, |i: int| color_byte(c)),
        (WIDTH / 8 * HEIGHT) * 8 == WIDTH * HEIGHT,
{
    lemma_bus_bytes_auto();
    let n = (WIDTH / 8 * HEIGHT) as nat;
    assert((400u32 >> 8) as u8 == 0x01u8 && 400u32 as u8 == 0x90u8) by (bit_vector);
    assert((300u32 >> 8) as u8 == 0x01u8 && 300u32 as u8 == 0x2Cu8) by (bit_vector);
    assert(resolution_steps() =~= Seq::<Step>::empty().push(Step::Cmd(Command::ResolutionSetting))
        .push(byte_step(0x01)).push(byte_step(0x90)).push(byte_step(0x01)).push(byte_step(0x2C)));
    assert(bus_bytes(resolution_steps()) =~= seq![0x61u8, 0x01, 0x90, 0x01, 0x2C]);
    let tail = seq![
        Step::Cmd(Command::DataStartTransmission1),
        Step::Repeat(color_byte(c), n),
        Step::Cmd(Command::DataStartTransmission2),
        Step::Repeat(color_byte(c), n),
    ];
    assert(tail =~= Seq::<Step>::empty().push(Step::Cmd(Command::DataStartTransmission1))
        .push(Step::Repeat(color_byte(c), n)).push(Step::Cmd(Command::DataStartTransmission2))
        .push(Step::Repeat(color_byte(c), n)));
    assert(bus_bytes(tail) =~= seq![0x10u8] + Seq::new(n, |i: int| color_byte(c)) + seq![0x13u8]
        + Seq::new(n, |i: int| color_byte(c)));
    assert(clear_frame_steps(c) == seq![Step::WaitIdle] + resolution_steps() + tail);
    assert(bus_bytes(clear_frame_steps(c)) =~= seq![0x61u8, 0x01, 0x90, 0x01, 0x2C, 0x10]
        + Seq::new((WIDTH / 8 * HEIGHT) as nat, |i: int| color_byte(c)) + seq![0x13u8]
        + Seq::new((WIDTH / 8 * HEIGHT) as nat, |i: int| color_byte(c)));
}

/// A partial update puts on the bus: partial-in, partial-window, the nine
/// window bytes, the second-transmission command, the frame unchanged, and
/// partial-out.
pub proof fn law_partial_frame_bytes(buffer: Seq<u8>, x: u32, y: u32, width: u32, height: u32)
    ensures
        bus_bytes(partial_frame_steps(buffer, x, y, width, height)) == seq![0x91u8, 0x90]
            + window_bytes(x, y, width, height) + seq![0x13u8] + buffer + seq![0x92u8],
{
    lemma_bus_bytes_auto();
    lemma_byte_steps_bytes(window_bytes(x, y, width, height));
    let head = seq![Step::WaitIdle, Step::Cmd(Command::PartialIn), Step::Cmd(Command::PartialWindow)];
    assert(head =~= Seq::<Step>::empty().push(Step::WaitIdle).push(Step::Cmd(Command::PartialIn))
        .push(Step::Cmd(Command::PartialWindow)));
    assert(bus_bytes(head) =~= seq![0x91u8, 0x90]);
    let tail = seq![
        Step::Cmd(Command::DataStartTransmission2),
        Step::Data(buffer),
        Step::Cmd(Command::PartialOut),
    ];
    assert(tail =~= Seq::<Step>::empty().push(Step::Cmd(Command::DataStartTransmission2))
        .push(Step::Data(buffer)).push(Step::Cmd(Command::PartialOut)));
    assert(bus_bytes(tail) =~= seq![0x13u8] + buffer + seq![0x92u8]);
    assert(bus_bytes(partial_frame_steps(buffer, x, y, width, height)) =~= seq![0x91u8, 0x90]
        + window_bytes(x, y, width, height) + seq![0x13u8] + buffer + seq![0x92u8]);
}

proof fn lemma_resolution_bytes()
    ensures
        bus_bytes(resolution_steps()) == seq![0x61u8, 0x01, 0x90, 0x01, 0x2C],
{
    lemma_bus_bytes_auto();
    assert((400u32 >> 8) as u8 == 0x01u8 && 400u32 as u8 == 0x90u8) by (bit_vector);
    assert((300u32 >> 8) as u8 == 0x01u8 && 300u32 as u8 == 0x2Cu8) by (bit_vector);
    assert(resolution_steps() =~= Seq::<Step>::empty().push(Step::Cmd(Command::ResolutionSetting))
        .push(byte_step(0x01)).push(byte_step(0x90)).push(byte_step(0x01)).push(byte_step(0x2C)));
    assert(bus_bytes(resolution_steps()) =~= seq![0x61u8, 0x01, 0x90, 0x01, 0x2C]);
}

/// Sending the new frame puts exactly the second-transmission command
/// (0x13) and every byte of the frame, unchanged and in order, on the bus.
pub proof fn law_update_new_frame_bytes(buffer: Seq<u8>)
    ensures
        bus_bytes(update_new_frame_steps(buffer)) == seq![0x13u8] + buffer,
        bus_bytes(update_new_frame_steps(buffer)).len() == buffer.len() + 1,
{
    lemma_bus_bytes_auto();
    assert(update_new_frame_steps(buffer) =~= Seq::<Step>::empty().push(Step::WaitIdle).push(
        Step::Cmd(Command::DataStartTransmission2),
    ).push(Step::Data(buffer)));
    assert(bus_bytes(update_new_frame_steps(buffer)) =~= seq![0x13u8] + buffer);
}

/// The old frame of a partial update: partial-in (0x91), partial-window
/// (0x90), the nine window bytes, the first-transmission command (0x10),
/// then every byte of the frame.
pub proof fn law_partial_old_frame_bytes(buffer: Seq<u8>, x: u32, y: u32, width: u32, height: u32)
    ensures
        bus_bytes(partial_old_frame_steps(buffer, x, y, width, height)) == seq![0x91u8, 0x90]
            + window_bytes(x, y, width, height) + seq![0x10u8] + buffer,
{
    lemma_bus_bytes_auto();
    lemma_byte_steps_bytes(window_bytes(x, y, width, height));
    let head = seq![Step::WaitIdle, Step::Cmd(Command::PartialIn), Step::Cmd(Command::PartialWindow)];
    assert(head =~= Seq::<Step>::empty().push(Step::WaitIdle).push(Step::Cmd(Command::PartialIn))
        .push(Step::Cmd(Command::PartialWindow)));
    assert(bus_bytes(head) =~= seq![0x91u8, 0x90]);
    let tail = seq![Step::Cmd(Command::DataStartTransmission1), Step::Data(buffer)];
    assert(tail =~= Seq::<Step>::empty().push(Step::Cmd(Command::DataStartTransmission1)).push(
        Step::Data(buffer),
    ));
    assert(bus_bytes(tail) =~= seq![0x10u8] + buffer);
    assert(bus_bytes(partial_old_frame_steps(buffer, x, y, width, height)) =~= seq![0x91u8, 0x90]
        + window_bytes(x, y, width, height) + seq![0x10u8] + buffer);
}

/// The new frame of a partial update: the nine window bytes, the
/// second-transmission command (0x13), every byte of the frame, then
/// partial-out (0x92).
pub proof fn law_partial_new_frame_bytes(buffer: Seq<u8>, x: u32, y: u32, width: u32, height: u32)
    ensures
        bus_bytes(partial_new_frame_steps(buffer, x, y, width, height)) == window_bytes(
            x,
            y,
            width,
            height,
        ) + seq![0x13u8] + buffer + seq![0x92u8],
{
    lemma_bus_bytes_auto();
    lemma_byte_steps_bytes(window_bytes(x, y, width, height));
    let head = seq![Step::WaitIdle];
    let tail = seq![
        Step::Cmd(Command::DataStartTransmission2),
        Step::Data(buffer),
        Step::Cmd(Command::PartialOut),
    ];
    assert(tail =~= Seq::<Step>::empty().push(Step::Cmd(Command::DataStartTransmission2))
        .push(Step::Data(buffer)).push(Step::Cmd(Command::PartialOut)));
    assert(bus_bytes(tail) =~= seq![0x13u8] + buffer + seq![0x92u8]);
    assert(bus_bytes(head) =~= Seq::<u8>::empty());
    assert(bus_bytes(partial_new_frame_steps(buffer, x, y, width, height)) =~= window_bytes(
        x,
        y,
        width,
        height,
    ) + seq![0x13u8] + buffer + seq![0x92u8]);
}

/// `n` bytes of one color: all ones for white, all zeros for black.
pub open spec fn fill(c: Color, n: nat) -> Seq<u8> {
    Seq::new(n, |i: int| if c == Color::White { 0xffu8 } else { 0x00u8 })
}

/// Clearing a partial window writes it in the background color: after the
/// resolution and the window, each of the two data transmissions receives
/// `width / 8 * height` bytes of the color (0xff for white, 0x00 for
/// black), and partial mode is left.
pub proof fn law_clear_partial_frame_bytes(c: Color, x: u32, y: u32, width: u32, height: u32)
    ensures
        bus_bytes(clear_partial_frame_steps(c, x, y, width, height)) == seq![
            0x61u8,
            0x01,
            0x90,
            0x01,
            0x2C,
            0x91,
            0x90,
        ] + window_bytes(x, y, width, height) + seq![0x10u8] + fill(
            c,
            (width / 8 * height) as nat,
        ) + seq![0x13u8] + fill(c, (width / 8 * height) as nat) + seq![0x92u8],
{
    lemma_bus_bytes_auto();
    lemma_resolution_bytes();
    lemma_byte_steps_bytes(window_bytes(x, y, width, height));
    let n = (width / 8 * height) as nat;
    let mid = seq![Step::Cmd(Command::PartialIn), Step::Cmd(Command::PartialWindow)];
    assert(mid =~= Seq::<Step>::empty().push(Step::Cmd(Command::PartialIn)).push(
        Step::Cmd(Command::PartialWindow),
    ));
    let tail = seq![
        Step::Cmd(Command::DataStartTransmission1),
        Step::Repeat(color_byte(c), n),
        Step::Cmd(Command::DataStartTransmission2),
        Step::Repeat(color_byte(c), n),
        Step::Cmd(Command::PartialOut),
    ];
    assert(tail =~= Seq::<Step>::empty().push(Step::Cmd(Command::DataStartTransmission1))
        .push(Step::Repeat(color_byte(c), n)).push(Step::Cmd(Command::DataStartTransmission2))
        .push(Step::Repeat(color_byte(c), n)).push(Step::Cmd(Command::PartialOut)));
    assert(Seq::new(n, |i: int| color_byte(c)) =~= fill(c, n));
    assert(bus_bytes(tail) =~= seq![0x10u8] + fill(c, n) + seq![0x13u8] + fill(c, n) + seq![
        0x92u8,
    ]);
    assert(clear_partial_frame_steps(c, x, y, width, height) == seq![Step::WaitIdle]
        + resolution_steps() + mid + shift_steps(x, y, width, height) + tail);
    assert(bus_bytes(clear_partial_frame_steps(c, x, y, width, height)) =~= seq![
        0x61u8,
        0x01,
        0x90,
        0x01,
        0x2C,
        0x91,
        0x90,
    ] + window_bytes(x, y, width, height) + seq![0x10u8] + fill(c, n) + seq![0x13u8] + fill(c, n)
        + seq![0x92u8]);
}

/// The whole-screen clear in the same terms: both transmissions receive
/// 15000 bytes (one bit per pixel of 400 by 300) of the background color.
pub proof fn law_clear_frame_fill(c: Color)
    ensures
        bus_bytes(clear_frame_steps(c)) == seq![0x61u8, 0x01, 0x90, 0x01, 0x2C, 0x10] + fill(
            c,
            15000,
        ) + seq![0x13u8] + fill(c, 15000),
{
    law_clear_frame_bytes(c);
    assert(Seq::new((WIDTH / 8 * HEIGHT) as nat, |i: int| color_byte(c)) =~= fill(c, 15000));
}

/// Loading the look-up tables of a refresh mode sends, in order: 0x20 and
/// the VCOM table, 0x21 and the white-to-white table, 0x22 and the
/// black-to-white table, 0x23 and the white-to-black table, 0x24 and the
/// black-to-black table.
pub proof fn law_lut_bytes(r: RefreshLut)
    ensures
        bus_bytes(lut_steps(r)) == (match r {
            RefreshLut::Full => seq![0x20u8] + spec_lut_vcom0() + seq![0x21u8] + spec_lut_ww()
                + seq![0x22u8] + spec_lut_bw() + seq![0x23u8] + spec_lut_wb() + seq![0x24u8]
                + spec_lut_bb(),
            RefreshLut::Quick => seq![0x20u8] + spec_lut_vcom0_quick() + seq![0x21u8]
                + spec_lut_ww_quick() + seq![0x22u8] + spec_lut_bw_quick() + seq![0x23u8]
                + spec_lut_wb_quick() + seq![0x24u8] + spec_lut_bb_quick(),
        }),
{
    lemma_bus_bytes_auto();
    let (v, ww, bw, wb, bb) = match r {
        RefreshLut::Full => (spec_lut_vcom0(), spec_lut_ww(), spec_lut_bw(), spec_lut_wb(), spec_lut_bb()),
        RefreshLut::Quick => (
            spec_lut_vcom0_quick(),
            spec_lut_ww_quick(),
            spec_lut_bw_quick(),
            spec_lut_wb_quick(),
            spec_lut_bb_quick(),
        ),
    };
    assert(lut_steps(r) == lut_helper_steps(v, ww, bw, wb, bb));
    assert(lut_helper_steps(v, ww, bw, wb, bb) =~= Seq::<Step>::empty().push(Step::WaitIdle).push(
        Step::Cmd(Command::LutForVcom),
    ).push(Step::Data(v)).push(Step::Cmd(Command::LutWhiteToWhite)).push(Step::Data(ww)).push(
        Step::Cmd(Command::LutBlackToWhite),
    ).push(Step::Data(bw)).push(Step::Cmd(Command::LutWhiteToBlack)).push(Step::Data(wb)).push(
        Step::Cmd(Command::LutBlackToBlack),
    ).push(Step::Data(bb)));
    assert(bus_bytes(lut_steps(r)) =~= seq![0x20u8] + v + seq![0x21u8] + ww + seq![0x22u8] + bw
        + seq![0x23u8] + wb + seq![0x24u8] + bb);
}

/// The window is sent as its nine bytes and nothing else.
pub proof fn law_shift_bytes(x: u32, y: u32, width: u32, height: u32)
    ensures
        bus_bytes(shift_steps(x, y, width, height)) == window_bytes(x, y, width, height),
        window_bytes(x, y, width, height).len() == 9,
{
    lemma_byte_steps_bytes(window_bytes(x, y, width, height));
}

/// Refreshing sends the refresh command (0x12) alone; the combined
/// operations send the frame to its transmission and then 0x12, with no
/// other byte in between.
pub proof fn law_display_bytes(buffer: Seq<u8>)
    ensures
        bus_bytes(display_frame_steps()) == seq![0x12u8],
        bus_bytes(update_frame_steps(buffer).push(Step::Cmd(Command::DisplayRefresh))) == seq![
            0x10u8,
        ] + buffer + seq![0x12u8],
        bus_bytes(update_new_frame_steps(buffer) + display_frame_steps()) == seq![0x13u8] + buffer
            + seq![0x12u8],
{
    lemma_bus_bytes_auto();
    law_update_frame_bytes(buffer);
    law_update_new_frame_bytes(buffer);
    assert(display_frame_steps() =~= Seq::<Step>::empty().push(Step::WaitIdle).push(
        Step::Cmd(Command::DisplayRefresh),
    ));
    assert(bus_bytes(display_frame_steps()) =~= seq![0x12u8]);
    assert(bus_bytes(update_frame_steps(buffer).push(Step::Cmd(Command::DisplayRefresh))) =~= seq![
        0x10u8,
    ] + buffer + seq![0x12u8]);
    assert(bus_bytes(update_new_frame_steps(buffer) + display_frame_steps()) =~= seq![0x13u8]
        + buffer + seq![0x12u8]);
}

/// Going to sleep sends: VCOM/data interval 0x17 (border floating), VCOM DC
/// and panel setting with no data, power setting with four zero bytes,
/// power off, and deep sleep with the check byte 0xA5.
pub proof fn law_sleep_bytes()
    ensures
        bus_bytes(sleep_steps()) == seq![
            0x50u8,
            0x17,
            0x82,
            0x00,
            0x01,
            0x00,
            0x00,
            0x00,
            0x00,
            0x02,
            0x07,
            0xA5,
        ],
{
    lemma_bus_bytes_auto();
    assert(sleep_steps() =~= Seq::<Step>::empty().push(Step::WaitIdle).push(
        Step::Cmd(Command::VcomAndDataIntervalSetting),
    ).push(Step::Data(seq![0x17u8])).push(Step::Cmd(Command::VcmDcSetting)).push(
        Step::Cmd(Command::PanelSetting),
    ).push(Step::Cmd(Command::PowerSetting)).push(byte_step(0x00)).push(byte_step(0x00)).push(
        byte_step(0x00),
    ).push(byte_step(0x00)).push(Step::Cmd(Command::PowerOff)).push(Step::WaitIdle).push(
        Step::Cmd(Command::DeepSleep),
    ).push(Step::Data(seq![0xA5u8])));
    assert(bus_bytes(sleep_steps()) =~= seq![
        0x50u8,
        0x17,
        0x82,
        0x00,
        0x01,
        0x00,
        0x00,
        0x00,
        0x00,
        0x02,
        0x07,
        0xA5,
    ]);
}

/// Initialisation starts with a reset pulse (10 ms low), waits 5 ms after
/// power-on and then for the controller, and sends: power setting 07 00 0A
/// 00, booster 07 07 07, power on, panel setting CF, VCOM/data interval 37,
/// PLL 39, the resolution 400 by 300, VCOM DC 0C, then the look-up tables
/// of the refresh mode.
pub proof fn law_init_bytes(r: RefreshLut)
    ensures
        init_steps(r)[0] == Step::Reset(10),
        init_steps(r)[6] == Step::Delay(5),
        init_steps(r)[7] == Step::WaitIdle,
        init_steps(r).last() == Step::WaitIdle,
        bus_bytes(init_steps(r)) == seq![
            0x01u8,
            0x07,
            0x00,
            0x0A,
            0x00,
            0x06,
            0x07,
            0x07,
            0x07,
            0x04,
            0x00,
            0xCF,
            0x50,
            0x37,
            0x30,
            0x39,
            0x61,
            0x01,
            0x90,
            0x01,
            0x2C,
            0x82,
            0x0C,
        ] + bus_bytes(lut_steps(r)),
{
    lemma_bus_bytes_auto();
    lemma_resolution_bytes();
    let head = seq![
        Step::Reset(10),
        Step::Cmd(Command::PowerSetting),
        Step::Data(seq![0x07u8, 0x00, 0x0A, 0x00]),
        Step::Cmd(Command::BoosterSoftStart),
        Step::Data(seq![0x07u8, 0x07, 0x07]),
        Step::Cmd(Command::PowerOn),
        Step::Delay(5),
        Step::WaitIdle,
        Step::Cmd(Command::PanelSetting),
        Step::Data(seq![0xCFu8]),
        Step::Cmd(Command::VcomAndDataIntervalSetting),
        Step::Data(seq![0x37u8]),
        Step::Cmd(Command::PllControl),
        Step::Data(seq![0x39u8]),
    ];
    assert(head =~= Seq::<Step>::empty().push(Step::Reset(10)).push(
        Step::Cmd(Command::PowerSetting),
    ).push(Step::Data(seq![0x07u8, 0x00, 0x0A, 0x00])).push(Step::Cmd(Command::BoosterSoftStart))
        .push(Step::Data(seq![0x07u8, 0x07, 0x07])).push(Step::Cmd(Command::PowerOn)).push(
        Step::Delay(5),
    ).push(Step::WaitIdle).push(Step::Cmd(Command::PanelSetting)).push(Step::Data(seq![0xCFu8]))
        .push(Step::Cmd(Command::VcomAndDataIntervalSetting)).push(Step::Data(seq![0x37u8])).push(
        Step::Cmd(Command::PllControl),
    ).push(Step::Data(seq![0x39u8])));
    assert(bus_bytes(head) =~= seq![
        0x01u8,
        0x07,
        0x00,
        0x0A,
        0x00,
        0x06,
        0x07,
        0x07,
        0x07,
        0x04,
        0x00,
        0xCF,
        0x50,
        0x37,
        0x30,
        0x39,
    ]);
    let vcm = seq![Step::Cmd(Command::VcmDcSetting), Step::Data(seq![0x0Cu8])];
    assert(vcm =~= Seq::<Step>::empty().push(Step::Cmd(Command::VcmDcSetting)).push(
        Step::Data(seq![0x0Cu8]),
    ));
    assert(bus_bytes(vcm) =~= seq![0x82u8, 0x0C]);
    assert(bus_bytes(seq![Step::WaitIdle]) =~= Seq::<u8>::empty());
    assert(init_steps(r) == head + resolution_steps() + vcm + lut_steps(r) + seq![Step::WaitIdle]);
    assert(bus_bytes(init_steps(r)) =~= seq![
        0x01u8,
        0x07,
        0x00,
        0x0A,
        0x00,
        0x06,
        0x07,
        0x07,
        0x07,
        0x04,
        0x00,
        0xCF,
        0x50,
        0x37,
        0x30,
        0x39,
        0x61,
        0x01,
        0x90,
        0x01,
        0x2C,
        0x82,
        0x0C,
    ] + bus_bytes(lut_steps(r)));
}

/// Every operation that talks to a running controller first waits until
/// it is idle.
pub proof fn law_waits_for_idle_first(
    c: Color,
    r: RefreshLut,
    buffer: Seq<u8>,
    x: u32,
    y: u32,
    width: u32,
    height: u32,
)
    ensures
        sleep_steps()[0] == Step::WaitIdle,
        update_frame_steps(buffer)[0] == Step::WaitIdle,
        update_new_frame_steps(buffer)[0] == Step::WaitIdle,
        display_frame_steps()[0] == Step::WaitIdle,
        clear_frame_steps(c)[0] == Step::WaitIdle,
        lut_steps(r)[0] == Step::WaitIdle,
        partial_frame_steps(buffer, x, y, width, height)[0] == Step::WaitIdle,
        partial_old_frame_steps(buffer, x, y, width, height)[0] == Step::WaitIdle,
        partial_new_frame_steps(buffer, x, y, width, height)[0] == Step::WaitIdle,
        clear_partial_frame_steps(c, x, y, width, height)[0] == Step::WaitIdle,
{
}

} // verus!
