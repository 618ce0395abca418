use std::collections::HashSet;

use voyager::bus::{BusRead, PlanRun};
use voyager::mcp23018::{
    expander_init_writes, port_b_read, sense_sample, strobe_write, KeyEvent, Mcp23018Matrix, RunAction,
    RunEvent, ScanAction, ScanEvent, SenseSample, LEDS_OFF, MCP_ADDR, RETRY_PAUSE_US,
    SCAN_PAUSE_US, SENSES, STROBES,
};

#[test]
fn init_writes_configure_ports() {
    let writes = expander_init_writes();
    let got: Vec<(u8, Vec<u8>)> = writes.iter().map(|w| (w.addr, w.bytes.clone())).collect();
    assert_eq!(
        got,
        vec![
            (0x20, vec![0x00, 0x00]),
            (0x20, vec![0x01, 0x3F]),
            (0x20, vec![0x0C, 0x00]),
            (0x20, vec![0x0D, 0x3F]),
            (0x20, vec![0x13, 0xC0]),
        ]
    );
}

#[test]
fn strobe_drives_one_line_low() {
    assert_eq!(strobe_write(0).bytes, vec![0x12, 0x7E]);
    assert_eq!(strobe_write(6).bytes, vec![0x12, 0x3F]);
    for s in 0..STROBES as u8 {
        let w = strobe_write(s);
        assert_eq!(w.addr, MCP_ADDR);
        for t in 0..8u8 {
            assert_eq!(w.bytes[1] & (1 << t) == 0, t == s || t == 7);
        }
    }
}

#[test]
fn senses_transpose_onto_right_half() {
    assert_eq!(sense_sample(0, 0, 0x3E), SenseSample { row: 11, col: 6, active: true });
    assert_eq!(sense_sample(0, 0, 0x3F), SenseSample { row: 11, col: 6, active: false });
    assert_eq!(sense_sample(6, 5, 0x1F), SenseSample { row: 6, col: 0, active: true });
    let mut seen = HashSet::new();
    for s in 0..STROBES as u8 {
        for n in 0..SENSES as u8 {
            let sample = sense_sample(s, n, 0xFF);
            assert!(!sample.active);
            assert!((6..12).contains(&sample.row) && sample.col < 7);
            assert!(seen.insert((sample.row, sample.col)));
        }
    }
    assert_eq!(seen.len(), 42);
}

fn configured() -> Mcp23018Matrix {
    let mut m = Mcp23018Matrix::new();
    assert!(matches!(m.run_step(RunEvent::Begin), RunAction::Initialize(_)));
    assert_eq!(m.run_step(RunEvent::InitDone { ok: true }), RunAction::Scan);
    assert!(m.is_initialized());
    m
}

#[test]
fn run_loop_configures_retries_and_pauses() {
    let mut m = Mcp23018Matrix::new();
    assert!(!m.is_initialized());
    match m.run_step(RunEvent::Begin) {
        RunAction::Initialize(writes) => assert_eq!(writes, expander_init_writes()),
        other => panic!("expected the configuration, got {:?}", other),
    }
    assert_eq!(m.run_step(RunEvent::InitDone { ok: false }), RunAction::PauseMicros(RETRY_PAUSE_US));
    assert_eq!(RETRY_PAUSE_US, 100_000);
    assert!(!m.is_initialized());
    assert_eq!(m.run_step(RunEvent::InitDone { ok: true }), RunAction::Scan);
    assert_eq!(m.run_step(RunEvent::Begin), RunAction::Scan);
    assert_eq!(m.run_step(RunEvent::ScanDone), RunAction::PauseMicros(SCAN_PAUSE_US));
    assert_eq!(SCAN_PAUSE_US, 500);
}

/// Runs one pass, answering every read with `gpiob` and every debouncer
/// question with "settled" for the keys in `settle`; returns the strobe
/// bytes written and the events published.
fn pass(m: &mut Mcp23018Matrix, led_target: u8, gpiob: u8, settle: &[(u8, u8)]) -> (Vec<Vec<u8>>, Vec<KeyEvent>) {
    let mut writes = Vec::new();
    let mut events = Vec::new();
    let mut act = m.scan_step(ScanEvent::Start { led_target });
    loop {
        let ev = match act {
            ScanAction::Write(w) => {
                assert_eq!(w.addr, MCP_ADDR);
                writes.push(w.bytes.clone());
                ScanEvent::WriteDone { ok: true }
            }
            ScanAction::SettleThenRead(read) => {
                assert_eq!(read, port_b_read());
                ScanEvent::ReadDone { ok: true, gpiob }
            }
            ScanAction::Debounce { sample, .. } => {
                let changed = settle.contains(&(sample.row, sample.col));
                ScanEvent::Debounced { changed }
            }
            ScanAction::Publish(ev) => {
                events.push(ev);
                ScanEvent::Published
            }
            ScanAction::Done => return (writes, events),
        };
        act = m.scan_step(ev);
    }
}

#[test]
fn pass_strobes_every_line_in_order_and_publishes_settled_changes() {
    let mut m = configured();
    let (writes, events) = pass(&mut m, LEDS_OFF, 0x3E, &[(11, 6), (8, 4)]);
    let expected: Vec<Vec<u8>> = (0..7u8).map(|s| vec![0x12, 0x7F & !(1 << s)]).collect();
    assert_eq!(writes, expected);
    assert_eq!(
        events,
        vec![
            KeyEvent { row: 11, col: 6, pressed: true },
            KeyEvent { row: 8, col: 4, pressed: true },
        ]
    );
    assert!(m.key_pressed(0, 0));
    assert!(m.key_pressed(2, 3));
    assert!(!m.key_pressed(3, 2));
    // A second settled change releases the key again.
    let (_, events) = pass(&mut m, LEDS_OFF, 0x3F, &[(8, 4)]);
    assert_eq!(events, vec![KeyEvent { row: 8, col: 4, pressed: false }]);
    assert!(!m.key_pressed(2, 3));
}

#[test]
fn pass_syncs_status_leds_first_and_only_on_change() {
    let mut m = configured();
    let (writes, _) = pass(&mut m, 0x40, 0x3F, &[]);
    assert_eq!(writes[0], vec![0x13, 0x40]);
    assert_eq!(writes.len(), 8);
    let (writes, _) = pass(&mut m, 0x40, 0x3F, &[]);
    assert_eq!(writes.len(), 7);
    assert_eq!(writes[0], vec![0x12, 0x7E]);
}

#[test]
fn unconfigured_expander_is_not_scanned() {
    let mut m = Mcp23018Matrix::new();
    let (writes, events) = pass(&mut m, LEDS_OFF, 0x00, &[(11, 6)]);
    assert!(writes.is_empty() && events.is_empty());
    // Only the LED sync is attempted.
    let (writes, _) = pass(&mut m, 0x80, 0x00, &[]);
    assert_eq!(writes, vec![vec![0x13, 0x80]]);
}

#[test]
fn bus_failures_end_the_pass_and_force_reconfiguration() {
    // Failed LED write.
    let mut m = configured();
    assert!(matches!(m.scan_step(ScanEvent::Start { led_target: 0x00 }), ScanAction::Write(_)));
    assert_eq!(m.scan_step(ScanEvent::WriteDone { ok: false }), ScanAction::Done);
    assert!(!m.is_initialized());
    // Failed strobe write.
    let mut m = configured();
    assert!(matches!(m.scan_step(ScanEvent::Start { led_target: LEDS_OFF }), ScanAction::Write(_)));
    assert_eq!(m.scan_step(ScanEvent::WriteDone { ok: false }), ScanAction::Done);
    assert!(!m.is_initialized());
    assert!(matches!(m.run_step(RunEvent::Begin), RunAction::Initialize(_)));
    // Failed read.
    let mut m = configured();
    m.scan_step(ScanEvent::Start { led_target: LEDS_OFF });
    assert_eq!(m.scan_step(ScanEvent::WriteDone { ok: true }), ScanAction::SettleThenRead(port_b_read()));
    assert_eq!(m.scan_step(ScanEvent::ReadDone { ok: false, gpiob: 0 }), ScanAction::Done);
    assert!(!m.is_initialized());
    // An event that does not fit the pass ends it.
    let mut m = configured();
    assert_eq!(m.scan_step(ScanEvent::Published), ScanAction::Done);
    assert!(m.is_initialized());
}

#[test]
fn debounce_questions_carry_sample_and_state() {
    let mut m = configured();
    m.scan_step(ScanEvent::Start { led_target: LEDS_OFF });
    m.scan_step(ScanEvent::WriteDone { ok: true });
    let act = m.scan_step(ScanEvent::ReadDone { ok: true, gpiob: 0x3E });
    assert_eq!(
        act,
        ScanAction::Debounce { sample: SenseSample { row: 11, col: 6, active: true }, pressed: false }
    );
    let act = m.scan_step(ScanEvent::Debounced { changed: false });
    assert_eq!(
        act,
        ScanAction::Debounce { sample: SenseSample { row: 10, col: 6, active: false }, pressed: false }
    );
}

#[test]
fn port_b_read_samples_the_sense_register() {
    assert_eq!(port_b_read(), BusRead { addr: 0x20, reg: 0x13, len: 1 });
}

/// Runs the configuration writes with the `fail`-th one failing (if any)
/// and returns the indices attempted and the run.
fn configure(fail: Option<usize>) -> (Vec<usize>, PlanRun) {
    let writes = expander_init_writes();
    let mut run = PlanRun::new(writes.len());
    let mut attempted = Vec::new();
    while let Some(i) = run.next() {
        attempted.push(i);
        run.report(Some(i) != fail);
    }
    (attempted, run)
}

#[test]
fn configuration_stops_at_the_first_failed_write() {
    for j in 0..5 {
        let mut m = Mcp23018Matrix::new();
        let (attempted, run) = configure(Some(j));
        assert_eq!(attempted, (0..=j).collect::<Vec<_>>());
        assert_eq!(run.result(), Err(()));
        assert_eq!(m.finish_init(&run), RunAction::PauseMicros(RETRY_PAUSE_US));
        assert!(!m.is_initialized());
    }
    let mut m = Mcp23018Matrix::new();
    let (attempted, run) = configure(None);
    assert_eq!(attempted, vec![0, 1, 2, 3, 4]);
    assert_eq!(run.result(), Ok(()));
    assert_eq!(m.finish_init(&run), RunAction::Scan);
    assert!(m.is_initialized());
}
