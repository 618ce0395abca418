//! Right-half matrix through the MCP23018 I/O expander.
//!
//! Port A bits 0-6 are row strobes (active low); port B bits 0-5 are
//! column senses (pulled up, active low). The ports are wired across the
//! logical matrix axes, so positions are transposed on the fly:
//! logical row = 11 - sense bit (B0 is row 11, B5 row 6) and logical
//! col = 6 - strobe bit (A0 is col 6, A6 col 0).
use vstd::prelude::*;

use crate::bus::{register_write, writes_view, BusRead, BusWrite, PlanRun};
use crate::keymap::{hand_spec, Hand};

verus! {

/// I2C address of the expander.
pub const MCP_ADDR: u8 = 0x20;
/// Direction register of port A (0: output).
pub const REG_IODIRA: u8 = 0x00;
/// Direction register of port B (1: input).
pub const REG_IODIRB: u8 = 0x01;
/// Pull-up register of port A.
pub const REG_GPPUA: u8 = 0x0C;
/// Pull-up register of port B.
pub const REG_GPPUB: u8 = 0x0D;
/// Port A data register.
pub const REG_GPIOA: u8 = 0x12;
/// Port B data register.
pub const REG_GPIOB: u8 = 0x13;
/// Strobe lines (port A bits 0-6).
pub const STROBES: usize = 7;
/// Sense lines (port B bits 0-5).
pub const SENSES: usize = 6;
/// Port B output byte with both status LEDs on B6 / B7 off (active low).
pub const LEDS_OFF: u8 = 0xC0;

/// The configuration the expander gets after reset or a bus error: port A
/// all outputs without pull-ups, port B bits 0-5 inputs with pull-ups, and
/// the status LEDs on B6 / B7 parked off.
pub open spec fn expander_init_spec() -> Seq<(u8, Seq<u8>)> {
    seq![
        (MCP_ADDR, seq![REG_IODIRA, 0x00u8]),
        (MCP_ADDR, seq![REG_IODIRB, 0x3Fu8]),
        (MCP_ADDR, seq![REG_GPPUA, 0x00u8]),
        (MCP_ADDR, seq![REG_GPPUB, 0x3Fu8]),
        (MCP_ADDR, seq![REG_GPIOB, LEDS_OFF]),
    ]
}

/// The configuration writes, in order; whoever runs them stops at the
/// first that fails.
pub fn expander_init_writes() -> (writes: Vec<BusWrite>)
    ensures
        writes_view(writes@) == expander_init_spec(),
{
    let mut writes: Vec<BusWrite> = Vec::new();
    writes.push(register_write(MCP_ADDR, REG_IODIRA, 0x00));
    writes.push(register_write(MCP_ADDR, REG_IODIRB, 0x3F));
    writes.push(register_write(MCP_ADDR, REG_GPPUA, 0x00));
    writes.push(register_write(MCP_ADDR, REG_GPPUB, 0x3F));
    writes.push(register_write(MCP_ADDR, REG_GPIOB, LEDS_OFF));
    assert(writes_view(writes@) =~= expander_init_spec());
    writes
}

/// Port A value that strobes line `strobe`: only that bit low among bits
/// 0-6, bit 7 low.
pub open spec fn strobe_byte_spec(strobe: u8) -> u8 {
    0x7Fu8 & !((1u8 << strobe) as u8)
}

/// The port A write that strobes line `strobe`.
pub fn strobe_write(strobe: u8) -> (w: BusWrite)
    requires
        strobe < STROBES,
    ensures
        w@ == (MCP_ADDR, seq![REG_GPIOA, strobe_byte_spec(strobe)]),
{
    let a_val: u8 = 0x7F & !(1u8 << strobe);
    register_write(MCP_ADDR, REG_GPIOA, a_val)
}

/// Exactly the strobed line is driven low: bit `t` of the strobe byte is
/// clear just for `t == strobe` and for the unused bit 7.
pub proof fn lemma_strobe_selects_one_line(strobe: u8, t: u8)
    requires
        strobe < STROBES,
        t < 8,
    ensures
        (strobe_byte_spec(strobe) & (1u8 << t)) == 0 <==> (t == strobe || t == 7),
{
    assert((0x7Fu8 & !((1u8 << strobe) as u8)) & (1u8 << t) == 0 <==> (t == strobe || t == 7))
        by (bit_vector)
        requires
            strobe < 7,
            t < 8,
    ;
}

/// The read of the sense lines: write the port B register address, then
/// read one byte.
pub open spec fn port_b_read_spec() -> BusRead {
    BusRead { addr: MCP_ADDR, reg: REG_GPIOB, len: 1 }
}

/// The bus read that samples the sense lines on port B.
pub fn port_b_read() -> (r: BusRead)
    ensures
        r == port_b_read_spec(),
{
    BusRead { addr: MCP_ADDR, reg: REG_GPIOB, len: 1 }
}

/// Logical (row, col) of the key on strobe line `strobe` and sense line
/// `sense`.
pub open spec fn matrix_position(strobe: int, sense: int) -> (int, int) {
    (11 - sense, 6 - strobe)
}

/// One sensed key: its logical position and whether its line reads
/// active (low).
#[derive(Clone, Copy, Debug, PartialEq, Eq, Structural)]
pub struct SenseSample {
    pub row: u8,
    pub col: u8,
    pub active: bool,
}

/// Decodes sense line `sense` of a port B reading taken while line
/// `strobe` was strobed.
pub fn sense_sample(strobe: u8, sense: u8, gpiob: u8) -> (s: SenseSample)
    requires
        strobe < STROBES,
        sense < SENSES,
    ensures
        s.row == matrix_position(strobe as int, sense as int).0,
        s.col == matrix_position(strobe as int, sense as int).1,
        s.active == ((gpiob & (1u8 << sense)) == 0),
{
    let active = (gpiob & (1u8 << sense)) == 0;
    SenseSample { row: 11 - sense, col: 6 - strobe, active }
}

/// The expander covers exactly the right half: its 7 x 6 lines map one to
/// one onto rows 6-11 and columns 0-6.
pub proof fn lemma_expander_covers_right_half(s1: int, n1: int, s2: int, n2: int, row: int, col: int)
    ensures
        0 <= s1 < STROBES && 0 <= n1 < SENSES ==> 6 <= matrix_position(s1, n1).0 < 12 && 0
            <= matrix_position(s1, n1).1 < 7 && hand_spec(matrix_position(s1, n1).0) != Hand::Left,
        matrix_position(s1, n1) == matrix_position(s2, n2) ==> s1 == s2 && n1 == n2,
        6 <= row < 12 && 0 <= col < 7 ==> matrix_position(6 - col, 11 - row) == (row, col) && 0 <= 6
            - col < STROBES && 0 <= 11 - row < SENSES,
{
}

/// A key press or release to report.
#[derive(Clone, Copy, Debug, PartialEq, Eq, Structural)]
pub struct KeyEvent {
    pub row: u8,
    pub col: u8,
    pub pressed: bool,
}

/// Pause between the strobe write and the port B read, in microseconds,
/// during which the bus is released for the RGB painter.
pub const SETTLE_US: u64 = 10;
/// Pause before configuring the expander again after a failed attempt.
pub const RETRY_PAUSE_US: u64 = 100_000;
/// Pause between two scan passes.
pub const SCAN_PAUSE_US: u64 = 500;

/// Where a scan pass stands.
#[derive(Clone, Copy, Debug, PartialEq, Eq, Structural)]
pub enum ScanStep {
    /// No pass under way.
    Idle,
    /// Waiting for the status-LED write of `target`.
    SyncingLeds { target: u8 },
    /// Waiting for the write that strobes line `strobe`.
    Strobing { strobe: u8 },
    /// Waiting for the port B read under strobe line `strobe`.
    Reading { strobe: u8 },
    /// Waiting for the debouncer's answer on (`strobe`, `sense`).
    Sensing { strobe: u8, sense: u8, gpiob: u8 },
    /// Waiting for the event of (`strobe`, `sense`) to be published.
    Publishing { strobe: u8, sense: u8, gpiob: u8 },
}

/// What the bus owner reports back to a scan pass.
#[derive(Clone, Copy, Debug, PartialEq, Eq, Structural)]
pub enum ScanEvent {
    /// Start a pass; `led_target` is the wanted status-LED byte.
    Start { led_target: u8 },
    /// The requested write went through (`ok`) or failed.
    WriteDone { ok: bool },
    /// The port B read went through with value `gpiob`, or failed.
    ReadDone { ok: bool, gpiob: u8 },
    /// The debouncer's answer: whether the key's change settled.
    Debounced { changed: bool },
    /// The requested key event was published.
    Published,
}

/// What a scan pass asks the bus owner to do next.
#[derive(Debug, PartialEq, Eq)]
pub enum ScanAction {
    /// Send this write, then report `WriteDone`.
    Write(BusWrite),
    /// Release the bus for `SETTLE_US`, take it again, run this read of
    /// port B, then report `ReadDone`.
    SettleThenRead(BusRead),
    /// Ask the debouncer about this sample, the key being `pressed` so
    /// far, then report `Debounced`.
    Debounce { sample: SenseSample, pressed: bool },
    /// Publish this key event, then report `Published`.
    Publish(KeyEvent),
    /// The pass is over.
    Done,
}

/// A `ScanAction` as plain values.
pub enum ScanActionView {
    Write(u8, Seq<u8>),
    SettleThenRead(BusRead),
    Debounce(SenseSample, bool),
    Publish(KeyEvent),
    Done,
}

impl View for ScanAction {
    type V = ScanActionView;

    open spec fn view(&self) -> ScanActionView {
        match self {
            ScanAction::Write(w) => ScanActionView::Write(w.addr, w.bytes@),
            ScanAction::SettleThenRead(r) => ScanActionView::SettleThenRead(*r),
            ScanAction::Debounce { sample, pressed } => ScanActionView::Debounce(*sample, *pressed),
            ScanAction::Publish(ev) => ScanActionView::Publish(*ev),
            ScanAction::Done => ScanActionView::Done,
        }
    }
}

/// The scanner state as plain values.
pub struct ScanView {
    /// Whether the expander is configured.
    pub initialized: bool,
    /// The port B LED byte last written.
    pub last_led_byte: u8,
    /// Debounced state of each key, by strobe * 6 + sense.
    pub pressed: Seq<bool>,
    /// Where the current pass stands.
    pub step: ScanStep,
}

/// State of the right-half scanner: whether the expander is configured,
/// the status-LED byte last written to port B, the debounced state of
/// each key (indexed by strobe * 6 + sense), and the progress of the pass.
pub struct Mcp23018Matrix {
    initialized: bool,
    last_led_byte: u8,
    pressed: Vec<bool>,
    step: ScanStep,
}

impl View for Mcp23018Matrix {
    type V = ScanView;

    closed spec fn view(&self) -> ScanView {
        ScanView {
            initialized: self.initialized,
            last_led_byte: self.last_led_byte,
            pressed: self.pressed@,
            step: self.step,
        }
    }
}

/// The sample of sense line `sense` in a port B reading under strobe line
/// `strobe`.
pub open spec fn sample_spec(strobe: u8, sense: u8, gpiob: u8) -> SenseSample {
    SenseSample {
        row: (11 - sense) as u8,
        col: (6 - strobe) as u8,
        active: (gpiob & (1u8 << sense)) == 0,
    }
}

/// Scan positions stay on the lines.
pub open spec fn step_in_range(step: ScanStep) -> bool {
    match step {
        ScanStep::Strobing { strobe } => strobe < STROBES,
        ScanStep::Reading { strobe } => strobe < STROBES,
        ScanStep::Sensing { strobe, sense, gpiob } => strobe < STROBES && sense < SENSES,
        ScanStep::Publishing { strobe, sense, gpiob } => strobe < STROBES && sense < SENSES,
        _ => true,
    }
}

/// Whether the pass is past the status-LED sync, on the matrix lines.
pub open spec fn scanning(step: ScanStep) -> bool {
    step is Strobing || step is Reading || step is Sensing || step is Publishing
}

/// One entry per key, the pass on the lines, and the matrix lines only
/// driven while the expander is configured.
pub open spec fn scan_wf(s: ScanView) -> bool {
    &&& s.pressed.len() == STROBES * SENSES
    &&& step_in_range(s.step)
    &&& scanning(s.step) ==> s.initialized
}

/// `s` with the pass at `step`.
pub open spec fn at_step(s: ScanView, step: ScanStep) -> ScanView {
    ScanView { step, ..s }
}

/// `s` with the expander lost and no pass under way.
pub open spec fn lost(s: ScanView) -> ScanView {
    ScanView { initialized: false, step: ScanStep::Idle, ..s }
}

/// After the status LEDs are in sync: an unconfigured expander ends the
/// pass; otherwise line 0 is strobed first.
pub open spec fn after_sync(s: ScanView) -> (ScanView, ScanActionView) {
    if !s.initialized {
        (at_step(s, ScanStep::Idle), ScanActionView::Done)
    } else {
        (
            at_step(s, ScanStep::Strobing { strobe: 0 }),
            ScanActionView::Write(MCP_ADDR, seq![REG_GPIOA, strobe_byte_spec(0)]),
        )
    }
}

/// After sense line `sense` under strobe `strobe` is handled: the next
/// sense line of the same reading, else the next strobe line, else the
/// end of the pass.
pub open spec fn after_sense(s: ScanView, strobe: u8, sense: u8, gpiob: u8) -> (ScanView, ScanActionView) {
    if sense + 1 < SENSES {
        let n = (sense + 1) as u8;
        (
            at_step(s, ScanStep::Sensing { strobe, sense: n, gpiob }),
            ScanActionView::Debounce(sample_spec(strobe, n, gpiob), s.pressed[strobe * SENSES + n]),
        )
    } else if strobe + 1 < STROBES {
        let st = (strobe + 1) as u8;
        (
            at_step(s, ScanStep::Strobing { strobe: st }),
            ScanActionView::Write(MCP_ADDR, seq![REG_GPIOA, strobe_byte_spec(st)]),
        )
    } else {
        (at_step(s, ScanStep::Idle), ScanActionView::Done)
    }
}

/// One step of a scan pass. A pass first brings the status LEDs to the
/// wanted byte (a failed write marks the expander lost), ends at once when
/// the expander is not configured, then strobes lines 0 to 6 in order,
/// each followed by a settle pause and a port B read and by the debouncer's
/// answer on sense lines 0 to 5; a settled change flips the key and is
/// published. A failed strobe write or read marks the expander lost and
/// ends the pass. An event that does not fit the pass ends it and changes
/// nothing else.
pub open spec fn scan_next(s: ScanView, ev: ScanEvent) -> (ScanView, ScanActionView) {
    match ev {
        ScanEvent::Start { led_target } => if led_target != s.last_led_byte {
            (
                at_step(s, ScanStep::SyncingLeds { target: led_target }),
                ScanActionView::Write(MCP_ADDR, seq![REG_GPIOB, led_target]),
            )
        } else {
            after_sync(s)
        },
        ScanEvent::WriteDone { ok } => match s.step {
            ScanStep::SyncingLeds { target } => if ok {
                after_sync(ScanView { last_led_byte: target, ..s })
            } else {
                after_sync(ScanView { initialized: false, ..s })
            },
            ScanStep::Strobing { strobe } => if ok {
                (at_step(s, ScanStep::Reading { strobe }), ScanActionView::SettleThenRead(port_b_read_spec()))
            } else {
                (lost(s), ScanActionView::Done)
            },
            _ => (at_step(s, ScanStep::Idle), ScanActionView::Done),
        },
        ScanEvent::ReadDone { ok, gpiob } => match s.step {
            ScanStep::Reading { strobe } => if ok {
                (
                    at_step(s, ScanStep::Sensing { strobe, sense: 0, gpiob }),
                    ScanActionView::Debounce(sample_spec(strobe, 0, gpiob), s.pressed[strobe * SENSES]),
                )
            } else {
                (lost(s), ScanActionView::Done)
            },
            _ => (at_step(s, ScanStep::Idle), ScanActionView::Done),
        },
        ScanEvent::Debounced { changed } => match s.step {
            ScanStep::Sensing { strobe, sense, gpiob } => if changed {
                let idx = strobe * SENSES + sense;
                let now = !s.pressed[idx];
                (
                    ScanView {
                        pressed: s.pressed.update(idx, now),
                        step: ScanStep::Publishing { strobe, sense, gpiob },
                        ..s
                    },
                    ScanActionView::Publish(
                        KeyEvent { row: (11 - sense) as u8, col: (6 - strobe) as u8, pressed: now },
                    ),
                )
            } else {
                after_sense(s, strobe, sense, gpiob)
            },
            _ => (at_step(s, ScanStep::Idle), ScanActionView::Done),
        },
        ScanEvent::Published => match s.step {
            ScanStep::Publishing { strobe, sense, gpiob } => after_sense(s, strobe, sense, gpiob),
            _ => (at_step(s, ScanStep::Idle), ScanActionView::Done),
        },
    }
}

/// What the scanner's run loop reports.
#[derive(Clone, Copy, Debug, PartialEq, Eq, Structural)]
pub enum RunEvent {
    /// Top of the loop.
    Begin,
    /// The configuration writes all went through (`ok`), or one failed.
    InitDone { ok: bool },
    /// A scan pass ended.
    ScanDone,
}

/// What the scanner's run loop does next.
#[derive(Debug, PartialEq, Eq)]
pub enum RunAction {
    /// Send these writes in order, stopping at the first that fails, then
    /// report `InitDone`.
    Initialize(Vec<BusWrite>),
    /// Run a scan pass, then report `ScanDone`.
    Scan,
    /// Sleep this many microseconds, then report `Begin`.
    PauseMicros(u64),
}

impl Mcp23018Matrix {
    /// A well-formed scanner has one entry per key and its pass on the
    /// lines.
    pub closed spec fn wf(&self) -> bool {
        scan_wf(self@)
    }

    /// What `wf` says, for callers.
    pub proof fn lemma_wf(&self)
        requires
            self.wf(),
        ensures
            scan_wf(self@),
            self@.pressed.len() == STROBES * SENSES,
    {
    }

    /// Unconfigured, LEDs parked off, every key released, no pass.
    pub fn new() -> (m: Self)
        ensures
            m.wf(),
            !m@.initialized,
            m@.last_led_byte == LEDS_OFF,
            m@.pressed == Seq::new((STROBES * SENSES) as nat, |i: int| false),
            m@.step == ScanStep::Idle,
    {
        let mut pressed: Vec<bool> = Vec::new();
        let mut i: usize = 0;
        while i < STROBES * SENSES
            invariant
                i <= STROBES * SENSES,
                pressed@ == Seq::new(i as nat, |j: int| false),
            decreases STROBES * SENSES - i,
        {
            pressed.push(false);
            i = i + 1;
        }
        Mcp23018Matrix { initialized: false, last_led_byte: LEDS_OFF, pressed, step: ScanStep::Idle }
    }

    /// Whether the expander is configured.
    pub fn is_initialized(&self) -> (b: bool)
        ensures
            b == self@.initialized,
    {
        self.initialized
    }

    /// Debounced state of the key on lines (`strobe`, `sense`).
    pub fn key_pressed(&self, strobe: u8, sense: u8) -> (b: bool)
        requires
            self.wf(),
            strobe < STROBES,
            sense < SENSES,
        ensures
            b == self@.pressed[strobe * SENSES + sense],
    {
        self.pressed[strobe as usize * SENSES + sense as usize]
    }

    /// Result of running `expander_init_writes`: when all went through the
    /// expander is configured and its LED byte is the parked value; when
    /// one failed nothing changes and the configuration is retried later.
    pub fn on_init(&mut self, ok: bool)
        requires
            old(self).wf(),
        ensures
            final(self).wf(),
            final(self)@ == (if ok {
                ScanView { initialized: true, last_led_byte: LEDS_OFF, ..old(self)@ }
            } else {
                old(self)@
            }),
    {
        if ok {
            self.last_led_byte = LEDS_OFF;
            self.initialized = true;
        }
    }

    fn strobe_action(strobe: u8) -> (act: ScanAction)
        requires
            strobe < STROBES,
        ensures
            act@ == ScanActionView::Write(MCP_ADDR, seq![REG_GPIOA, strobe_byte_spec(strobe)]),
    {
        ScanAction::Write(strobe_write(strobe))
    }

    fn sync_done(&mut self) -> (act: ScanAction)
        requires
            old(self).wf(),
        ensures
            final(self).wf(),
            (final(self)@, act@) == after_sync(old(self)@),
    {
        if !self.initialized {
            self.step = ScanStep::Idle;
            ScanAction::Done
        } else {
            self.step = ScanStep::Strobing { strobe: 0 };
            Self::strobe_action(0)
        }
    }

    fn sense_done(&mut self, strobe: u8, sense: u8, gpiob: u8) -> (act: ScanAction)
        requires
            old(self).wf(),
            old(self)@.initialized,
            strobe < STROBES,
            sense < SENSES,
        ensures
            final(self).wf(),
            (final(self)@, act@) == after_sense(old(self)@, strobe, sense, gpiob),
    {
        if sense + 1 < SENSES as u8 {
            let n = sense + 1;
            self.step = ScanStep::Sensing { strobe, sense: n, gpiob };
            let sample = sense_sample(strobe, n, gpiob);
            let pressed = self.pressed[strobe as usize * SENSES + n as usize];
            ScanAction::Debounce { sample, pressed }
        } else if strobe + 1 < STROBES as u8 {
            self.step = ScanStep::Strobing { strobe: strobe + 1 };
            Self::strobe_action(strobe + 1)
        } else {
            self.step = ScanStep::Idle;
            ScanAction::Done
        }
    }

    /// Advances the scan pass by one event; see `scan_next`.
    pub fn scan_step(&mut self, ev: ScanEvent) -> (act: ScanAction)
        requires
            old(self).wf(),
        ensures
            final(self).wf(),
            (final(self)@, act@) == scan_next(old(self)@, ev),
    {
        match ev {
            ScanEvent::Start { led_target } => {
                if led_target != self.last_led_byte {
                    self.step = ScanStep::SyncingLeds { target: led_target };
                    ScanAction::Write(register_write(MCP_ADDR, REG_GPIOB, led_target))
                } else {
                    self.sync_done()
                }
            },
            ScanEvent::WriteDone { ok } => match self.step {
                ScanStep::SyncingLeds { target } => {
                    if ok {
                        self.last_led_byte = target;
                    } else {
                        self.initialized = false;
                    }
                    self.sync_done()
                },
                ScanStep::Strobing { strobe } => {
                    if ok {
                        self.step = ScanStep::Reading { strobe };
                        ScanAction::SettleThenRead(port_b_read())
                    } else {
                        self.initialized = false;
                        self.step = ScanStep::Idle;
                        ScanAction::Done
                    }
                },
                _ => {
                    self.step = ScanStep::Idle;
                    ScanAction::Done
                },
            },
            ScanEvent::ReadDone { ok, gpiob } => match self.step {
                ScanStep::Reading { strobe } => {
                    if ok {
                        self.step = ScanStep::Sensing { strobe, sense: 0, gpiob };
                        let sample = sense_sample(strobe, 0, gpiob);
                        let pressed = self.pressed[strobe as usize * SENSES];
                        ScanAction::Debounce { sample, pressed }
                    } else {
                        self.initialized = false;
                        self.step = ScanStep::Idle;
                        ScanAction::Done
                    }
                },
                _ => {
                    self.step = ScanStep::Idle;
                    ScanAction::Done
                },
            },
            ScanEvent::Debounced { changed } => match self.step {
                ScanStep::Sensing { strobe, sense, gpiob } => {
                    if changed {
                        let idx = strobe as usize * SENSES + sense as usize;
                        let now = !self.pressed[idx];
                        self.pressed.set(idx, now);
                        self.step = ScanStep::Publishing { strobe, sense, gpiob };
                        ScanAction::Publish(KeyEvent { row: 11 - sense, col: 6 - strobe, pressed: now })
                    } else {
                        self.sense_done(strobe, sense, gpiob)
                    }
                },
                _ => {
                    self.step = ScanStep::Idle;
                    ScanAction::Done
                },
            },
            ScanEvent::Published => match self.step {
                ScanStep::Publishing { strobe, sense, gpiob } => self.sense_done(strobe, sense, gpiob),
                _ => {
                    self.step = ScanStep::Idle;
                    ScanAction::Done
                },
            },
        }
    }

    /// Ends a configuration: `run` ran the writes of `expander_init_writes`
    /// in order and stopped at the first that failed, so no write after a
    /// failed one was sent. Then the run loop goes on as after
    /// `RunEvent::InitDone`, with success exactly when no write failed.
    pub fn finish_init(&mut self, run: &PlanRun) -> (act: RunAction)
        requires
            old(self).wf(),
            run.finished(),
            run.len_view() == expander_init_spec().len(),
        ensures
            final(self).wf(),
            final(self)@ == (if !run.failed_view() {
                ScanView { initialized: true, last_led_byte: LEDS_OFF, ..old(self)@ }
            } else {
                old(self)@
            }),
            act == (if !run.failed_view() { RunAction::Scan } else { RunAction::PauseMicros(RETRY_PAUSE_US) }),
    {
        let ok = run.result().is_ok();
        self.run_step(RunEvent::InitDone { ok })
    }

    /// Advances the run loop by one event: at the top of the loop an
    /// unconfigured expander is configured and a configured one scanned; a
    /// failed configuration is retried after `RETRY_PAUSE_US`, a
    /// successful one is followed by a scan at once; after each scan the
    /// loop pauses `SCAN_PAUSE_US`.
    pub fn run_step(&mut self, ev: RunEvent) -> (act: RunAction)
        requires
            old(self).wf(),
        ensures
            final(self).wf(),
            match ev {
                RunEvent::Begin => {
                    &&& final(self)@ == old(self)@
                    &&& if old(self)@.initialized {
                        act == RunAction::Scan
                    } else {
                        act matches RunAction::Initialize(w) && writes_view(w@) == expander_init_spec()
                    }
                },
                RunEvent::InitDone { ok } => {
                    &&& final(self)@ == (if ok {
                        ScanView { initialized: true, last_led_byte: LEDS_OFF, ..old(self)@ }
                    } else {
                        old(self)@
                    })
                    &&& act == (if ok { RunAction::Scan } else { RunAction::PauseMicros(RETRY_PAUSE_US) })
                },
                RunEvent::ScanDone => {
                    &&& final(self)@ == old(self)@
                    &&& act == RunAction::PauseMicros(SCAN_PAUSE_US)
                },
            },
    {
        match ev {
            RunEvent::Begin => {
                if self.initialized {
                    RunAction::Scan
                } else {
                    RunAction::Initialize(expander_init_writes())
                }
            },
            RunEvent::InitDone { ok } => {
                self.on_init(ok);
                if ok {
                    RunAction::Scan
                } else {
                    RunAction::PauseMicros(RETRY_PAUSE_US)
                }
            },
            RunEvent::ScanDone => RunAction::PauseMicros(SCAN_PAUSE_US),
        }
    }
}

/// The matrix is only driven through a configured expander: from any
/// well-formed state, no event makes a pass strobe a line, read port B or
/// consult the debouncer while the expander is unconfigured, and every
/// failure of a strobe write or read leaves it unconfigured with the pass
/// over.
pub proof fn lemma_scan_needs_configuration(s: ScanView, ev: ScanEvent)
    requires
        scan_wf(s),
    ensures
        scan_wf(scan_next(s, ev).0),
        scan_next(s, ev).1 matches ScanActionView::Write(addr, bytes) && bytes[0] == REG_GPIOA
            ==> scan_next(s, ev).0.initialized,
        scan_next(s, ev).1 is SettleThenRead ==> scan_next(s, ev).0.initialized,
        scan_next(s, ev).1 is Debounce ==> scan_next(s, ev).0.initialized,
        (s.step is Strobing && ev == ScanEvent::WriteDone { ok: false }) || (s.step is Reading
            && ev is ReadDone && !ev->ReadDone_ok) ==> !scan_next(s, ev).0.initialized
            && scan_next(s, ev).0.step == ScanStep::Idle && scan_next(s, ev).1 is Done,
{
    assert(REG_GPIOB != REG_GPIOA);
}

/// A pass walks the whole matrix: once the reading of strobe line `strobe`
/// is in, the debouncer is asked about sense line `sense` (logical row
/// 11 - sense, column 6 - strobe) with that line's level, and once it has
/// answered (and a settled change was published) the pass asks about the
/// next sense line, 0 to 5 in order; after sense line 5 it strobes the
/// next line, 0 to 6 in order, and after line 6 the pass ends. So every
/// pass over a configured expander asks about all 42 keys of rows 6-11.
/// A settled change flips exactly that key's state; otherwise the key
/// states stay as they were.
pub proof fn lemma_scan_walks_every_key(s: ScanView, strobe: u8, sense: u8, gpiob: u8, changed: bool)
    requires
        scan_wf(s),
        s.step == (ScanStep::Sensing { strobe, sense, gpiob }),
    ensures
        ({
            let published = scan_next(s, ScanEvent::Debounced { changed: true });
            let after = if changed {
                scan_next(published.0, ScanEvent::Published)
            } else {
                scan_next(s, ScanEvent::Debounced { changed: false })
            };
            &&& changed ==> published.1 == ScanActionView::Publish(
                KeyEvent {
                    row: (11 - sense) as u8,
                    col: (6 - strobe) as u8,
                    pressed: !s.pressed[strobe * 6 + sense],
                },
            )
            &&& changed ==> published.0.pressed == s.pressed.update(strobe * 6 + sense, !s.pressed[strobe * 6 + sense])
            &&& !changed ==> after.0.pressed == s.pressed
            &&& after.0.initialized && after.0.last_led_byte == s.last_led_byte
            &&& sense < 5 ==> (after.1 matches ScanActionView::Debounce(sample, _) && sample.row == 10
                - sense && sample.col == 6 - strobe && sample.active == ((gpiob & (1u8 << ((sense
                + 1) as u8))) == 0))
            &&& sense < 5 ==> after.0.step == (ScanStep::Sensing { strobe, sense: (sense + 1) as u8, gpiob })
            &&& sense == 5 && strobe < 6 ==> after.1 == ScanActionView::Write(
                0x20,
                seq![0x12u8, 0x7Fu8 & !((1u8 << ((strobe + 1) as u8)) as u8)],
            )
            &&& sense == 5 && strobe < 6 ==> after.0.step == (ScanStep::Strobing { strobe: (strobe + 1) as u8 })
            &&& sense == 5 && strobe == 6 ==> after.1 == ScanActionView::Done && after.0.step
                == ScanStep::Idle
        }),
{
}

/// A pass over a configured expander whose status LEDs are in sync
/// starts by strobing line 0 (port A byte 0x7E); a strobe that went
/// through is followed by the port B read; a reading that came in is
/// followed by the debouncer's question about sense line 0 of that line
/// (logical row 11). Only a settled change touches the key states.
pub proof fn lemma_scan_starts_and_reads(s: ScanView, ev: ScanEvent)
    requires
        scan_wf(s),
    ensures
        s.initialized && ev == (ScanEvent::Start { led_target: s.last_led_byte }) ==> scan_next(s, ev).1
            == ScanActionView::Write(0x20, seq![0x12u8, 0x7Eu8]),
        s.step is Strobing && ev == (ScanEvent::WriteDone { ok: true }) ==> scan_next(s, ev).1
            == ScanActionView::SettleThenRead(BusRead { addr: 0x20, reg: 0x13, len: 1 }),
        s.step is Reading && ev is ReadDone && ev->ReadDone_ok ==> (scan_next(s, ev).1 matches ScanActionView::Debounce(
            sample,
            _,
        ) && sample.row == 11 && sample.col == 6 - s.step->Reading_strobe && sample.active == ((
        ev->ReadDone_gpiob & 1) == 0)),
        s.initialized && ev == (ScanEvent::Start { led_target: s.last_led_byte }) ==> scan_next(s, ev).0.step
            == (ScanStep::Strobing { strobe: 0 }),
        s.step is Strobing && ev == (ScanEvent::WriteDone { ok: true }) ==> scan_next(s, ev).0.step
            == (ScanStep::Reading { strobe: s.step->Strobing_strobe }),
        s.step is Reading && ev is ReadDone && ev->ReadDone_ok ==> scan_next(s, ev).0.step == (ScanStep::Sensing {
            strobe: s.step->Reading_strobe,
            sense: 0,
            gpiob: ev->ReadDone_gpiob,
        }),
        !(ev is Debounced) ==> scan_next(s, ev).0.pressed == s.pressed,
{
    assert(0x7Fu8 & !((1u8 << 0u8) as u8) == 0x7Eu8) by (bit_vector);
    if s.step is Reading && ev is ReadDone && ev->ReadDone_ok {
        let g = ev->ReadDone_gpiob;
        assert((g & (1u8 << 0u8)) == (g & 1)) by (bit_vector);
    }
}

/// A pass first brings the status LEDs to the wanted byte, and only when
/// it differs from the byte last written: the first request of the pass
/// is the port B write of that byte; once it went through the byte is
/// remembered, and when it failed the expander is treated as lost. An
/// unchanged byte is not written again, and an unconfigured expander gets
/// no other request.
pub proof fn lemma_scan_syncs_status_leds(s: ScanView, target: u8, ok: bool)
    requires
        scan_wf(s),
    ensures
        ({
            let start = scan_next(s, ScanEvent::Start { led_target: target });
            let after = scan_next(start.0, ScanEvent::WriteDone { ok });
            &&& target != s.last_led_byte ==> start.1 == ScanActionView::Write(0x20, seq![0x13u8, target])
            &&& target != s.last_led_byte && ok ==> after.0.last_led_byte == target && after.0.initialized
                == s.initialized
            &&& target != s.last_led_byte && !ok ==> !after.0.initialized && after.1
                == ScanActionView::Done
            &&& target == s.last_led_byte ==> !(start.1 matches ScanActionView::Write(_, bytes)
                && bytes[0] == 0x13)
            &&& !s.initialized && target == s.last_led_byte ==> start.1 == ScanActionView::Done
            &&& start.0.pressed == s.pressed
        }),
{
    assert(0x12u8 != 0x13u8);
}


/// The reply of a bus owner whose writes and reads all go through: the
/// reading under strobe line `strobe` is `reads[strobe]`, the debouncer
/// answers `settled(row, col)` for the key asked about, and every event is
/// published.
pub open spec fn owner_reply(
    s: ScanView,
    a: ScanActionView,
    reads: Seq<u8>,
    settled: spec_fn(int, int) -> bool,
) -> ScanEvent {
    match a {
        ScanActionView::SettleThenRead(_) => ScanEvent::ReadDone {
            ok: true,
            gpiob: match s.step {
                ScanStep::Reading { strobe } => reads[strobe as int],
                _ => 0,
            },
        },
        ScanActionView::Debounce(sample, _) => ScanEvent::Debounced {
            changed: settled(sample.row as int, sample.col as int),
        },
        ScanActionView::Publish(_) => ScanEvent::Published,
        _ => ScanEvent::WriteDone { ok: true },
    }
}

/// The keys (row, column) that the debouncer is asked about from state
/// `s` with pending action `a` on, while such a bus owner answers, until
/// the pass is done; `None` when it is not done within `fuel` steps.
pub open spec fn pass_questions(
    s: ScanView,
    a: ScanActionView,
    reads: Seq<u8>,
    settled: spec_fn(int, int) -> bool,
    fuel: nat,
) -> Option<Seq<(u8, u8)>>
    decreases fuel,
{
    if a is Done {
        Some(Seq::empty())
    } else if fuel == 0 {
        None
    } else {
        let next = scan_next(s, owner_reply(s, a, reads, settled));
        let rest = pass_questions(next.0, next.1, reads, settled, (fuel - 1) as nat);
        match a {
            ScanActionView::Debounce(sample, _) => match rest {
                Some(q) => Some(seq![(sample.row, sample.col)] + q),
                None => None,
            },
            _ => rest,
        }
    }
}

/// The right half's 42 keys in scan order: strobe line by strobe line
/// (columns 6 down to 0), sense line by sense line (rows 11 down to 6).
pub open spec fn scan_order() -> Seq<(u8, u8)> {
    Seq::new(42, |k: int| ((11 - k % 6) as u8, (6 - k / 6) as u8))
}

proof fn lemma_pass_from_key(
    s: ScanView,
    reads: Seq<u8>,
    settled: spec_fn(int, int) -> bool,
    strobe: u8,
    sense: u8,
    pressed: bool,
    fuel: nat,
)
    requires
        reads.len() == STROBES,
        strobe < STROBES,
        sense < SENSES,
        s.step == (ScanStep::Sensing { strobe, sense, gpiob: reads[strobe as int] }),
        fuel >= 4 * (42 - (strobe * 6 + sense)),
    ensures
        pass_questions(
            s,
            ScanActionView::Debounce(sample_spec(strobe, sense, reads[strobe as int]), pressed),
            reads,
            settled,
            fuel,
        ) == Some(scan_order().subrange(strobe * 6 + sense, 42)),
    decreases 42 - (strobe * 6 + sense),
{
    let g = reads[strobe as int];
    let a = ScanActionView::Debounce(sample_spec(strobe, sense, g), pressed);
    let idx = strobe * 6 + sense;
    let changed = settled((11 - sense) as int, (6 - strobe) as int);
    let n1 = scan_next(s, owner_reply(s, a, reads, settled));
    // After the answer (and the publication of a settled change) the pass
    // continues from `mid` with action `ma`, having used `used` steps.
    let (mid, ma, used): (ScanView, ScanActionView, nat) = if changed {
        let n2 = scan_next(n1.0, owner_reply(n1.0, n1.1, reads, settled));
        (n2.0, n2.1, 2)
    } else {
        (n1.0, n1.1, 1)
    };
    let tail = scan_order().subrange(idx + 1, 42);
    assert(scan_order()[idx] == ((11 - sense) as u8, (6 - strobe) as u8)) by {
        assert(idx % 6 == sense as int && idx / 6 == strobe as int);
    }
    assert(scan_order().subrange(idx, 42) =~= seq![scan_order()[idx]] + tail);
    if sense < 5 {
        let n = (sense + 1) as u8;
        assert(mid.step == (ScanStep::Sensing { strobe, sense: n, gpiob: g }));
        assert(ma matches ScanActionView::Debounce(smp, _) && smp == sample_spec(strobe, n, g));
        lemma_pass_from_key(mid, reads, settled, strobe, n, ma->Debounce_1, (fuel - used) as nat);
        assert(pass_questions(mid, ma, reads, settled, (fuel - used) as nat) == Some(tail));
        if changed {
            assert(pass_questions(n1.0, n1.1, reads, settled, (fuel - 1) as nat) == Some(tail));
        }
    } else if strobe < 6 {
        let st = (strobe + 1) as u8;
        assert(mid.step == (ScanStep::Strobing { strobe: st }));
        assert(ma is Write);
        let r1 = scan_next(mid, owner_reply(mid, ma, reads, settled));
        assert(r1.0.step == (ScanStep::Reading { strobe: st }));
        assert(r1.1 is SettleThenRead);
        let r2 = scan_next(r1.0, owner_reply(r1.0, r1.1, reads, settled));
        assert(r2.0.step == (ScanStep::Sensing { strobe: st, sense: 0, gpiob: reads[st as int] }));
        assert(r2.1 matches ScanActionView::Debounce(smp, _) && smp == sample_spec(st, 0, reads[st as int]));
        lemma_pass_from_key(r2.0, reads, settled, st, 0, r2.1->Debounce_1, (fuel - used - 2) as nat);
        assert(pass_questions(r1.0, r1.1, reads, settled, (fuel - used - 1) as nat) == Some(tail));
        assert(pass_questions(mid, ma, reads, settled, (fuel - used) as nat) == Some(tail));
        if changed {
            assert(pass_questions(n1.0, n1.1, reads, settled, (fuel - 1) as nat) == Some(tail));
        }
    } else {
        assert(ma is Done);
        assert(tail =~= Seq::<(u8, u8)>::empty());
        assert(pass_questions(mid, ma, reads, settled, (fuel - used) as nat) == Some(tail));
        if changed {
            assert(pass_questions(n1.0, n1.1, reads, settled, (fuel - 1) as nat) == Some(tail));
        }
    }
}

/// A whole pass over a configured expander asks the debouncer about every
/// key of the right half, each once and in scan order (sense lines 0-5 of
/// strobe line 0, then of line 1, ..., line 6), and then ends, whatever
/// the status-LED byte, the readings and the debouncer's answers, as long
/// as the bus writes and reads go through.
pub proof fn lemma_scan_pass_asks_every_key(
    s: ScanView,
    led_target: u8,
    reads: Seq<u8>,
    settled: spec_fn(int, int) -> bool,
)
    requires
        scan_wf(s),
        s.initialized,
        reads.len() == STROBES,
    ensures
        ({
            let start = scan_next(s, ScanEvent::Start { led_target });
            pass_questions(start.0, start.1, reads, settled, 200) == Some(scan_order())
        }),
{
    let start = scan_next(s, ScanEvent::Start { led_target });
    // After the status LEDs are in sync the pass strobes line 0.
    let (st0, a0, used): (ScanView, ScanActionView, nat) = if led_target != s.last_led_byte {
        let n = scan_next(start.0, owner_reply(start.0, start.1, reads, settled));
        (n.0, n.1, 1)
    } else {
        (start.0, start.1, 0)
    };
    assert(st0.step == (ScanStep::Strobing { strobe: 0 }));
    assert(a0 is Write);
    let r1 = scan_next(st0, owner_reply(st0, a0, reads, settled));
    assert(r1.0.step == (ScanStep::Reading { strobe: 0 }));
    let r2 = scan_next(r1.0, owner_reply(r1.0, r1.1, reads, settled));
    assert(r2.0.step == (ScanStep::Sensing { strobe: 0, sense: 0, gpiob: reads[0] }));
    assert(r2.1 matches ScanActionView::Debounce(smp, _) && smp == sample_spec(0, 0, reads[0]));
    lemma_pass_from_key(r2.0, reads, settled, 0, 0, r2.1->Debounce_1, (200 - used - 2) as nat);
    assert(scan_order().subrange(0, 42) =~= scan_order());
    assert(pass_questions(r1.0, r1.1, reads, settled, (200 - used - 1) as nat) == Some(scan_order()));
    assert(pass_questions(st0, a0, reads, settled, (200 - used) as nat) == Some(scan_order()));
}

} // verus!
