use beer::terminal::{
    disable_raw_mode, enable_raw_mode, make_raw, snapshot_attributes, RawMode, TerminalAttributes,
    TerminalDriver, TerminalError, CS8, ECHO, ICANON, ICRNL, ISIG, IXON, OPOST, VMIN, VTIME,
};

fn cooked(seed: u8) -> TerminalAttributes {
    let mut cc = [0u8; 19];
    for (i, c) in cc.iter_mut().enumerate() {
        *c = seed.wrapping_add(i as u8);
    }
    cc[VMIN] = 1;
    cc[VTIME] = 0;
    TerminalAttributes {
        input_flags: ICRNL | IXON | 0o20000,
        output_flags: OPOST | 0o4,
        control_flags: 0o277,
        local_flags: ECHO | ICANON | ISIG | 0o4000,
        line_discipline: seed,
        control_chars: cc,
    }
}

fn same(a: &TerminalAttributes, b: &TerminalAttributes) -> bool {
    a.input_flags == b.input_flags
        && a.output_flags == b.output_flags
        && a.control_flags == b.control_flags
        && a.local_flags == b.local_flags
        && a.line_discipline == b.line_discipline
        && a.control_chars == b.control_chars
}

#[test]
fn make_raw_clears_line_processing() {
    let a = cooked(3);
    let r = make_raw(&a);
    assert_eq!(r.input_flags, 0o20000);
    assert_eq!(r.output_flags, 0o4);
    assert_eq!(r.local_flags, 0o4000);
    assert_eq!(r.control_flags, (0o277 & !0o460) | CS8);
    assert_eq!(r.control_chars[VMIN], 0);
    assert_eq!(r.control_chars[VTIME], 1);
    assert_eq!(r.control_chars[0], a.control_chars[0]);
    assert_eq!(r.line_discipline, 3);
}

#[test]
fn enable_returns_raw_variant_and_keeps_first_snapshot() {
    let mut d = TerminalDriver::new();
    assert!(d.original().is_none());
    let first = cooked(1);
    let raw = enable_raw_mode(&mut d, Some(first)).unwrap();
    assert_eq!(raw.local_flags & (ECHO | ICANON), 0);
    let second = cooked(9);
    enable_raw_mode(&mut d, Some(second)).unwrap();
    assert!(same(&d.original().unwrap(), &first));
}

#[test]
fn disable_restores_original_after_many_enables() {
    let mut d = TerminalDriver::new();
    let a = cooked(5);
    snapshot_attributes(&mut d, Some(a)).unwrap();
    for k in 0..4u8 {
        let current = make_raw(&cooked(k));
        let _ = enable_raw_mode(&mut d, Some(current));
    }
    let _ = enable_raw_mode(&mut d, None);
    assert!(same(&disable_raw_mode(&d).unwrap(), &a));
    assert!(same(&disable_raw_mode(&d).unwrap(), &a));
}

#[test]
fn failed_query_is_query_error() {
    let mut d = TerminalDriver::new();
    assert_eq!(enable_raw_mode(&mut d, None).unwrap_err(), TerminalError::Query);
    assert_eq!(snapshot_attributes(&mut d, None).unwrap_err(), TerminalError::Query);
    assert!(disable_raw_mode(&d).is_none());
}

#[test]
fn snapshot_returns_queried_value() {
    let mut d = TerminalDriver::new();
    let a = cooked(2);
    let b = cooked(7);
    assert!(same(&snapshot_attributes(&mut d, Some(a)).unwrap(), &a));
    assert!(same(&snapshot_attributes(&mut d, Some(b)).unwrap(), &b));
    assert!(same(&d.original().unwrap(), &a));
}

#[test]
fn raw_mode_guard_restores_once() {
    let mut g = RawMode::new();
    assert!(!g.is_entered());
    assert!(g.disable().is_none());
    let a = cooked(4);
    g.enable(Some(a)).unwrap();
    assert!(g.is_entered());
    assert!(same(&g.disable().unwrap(), &a));
    assert!(!g.is_entered());
    assert!(g.disable().is_none());
}
