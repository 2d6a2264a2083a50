//! Terminal line-discipline attributes and the raw-mode lifecycle.
//!
//! The device calls themselves (querying and applying attributes) are made by
//! the host program; this module decides what is applied and keeps the one
//! original snapshot that is restored on the way out.

use vstd::prelude::*;

verus! {

/// Number of control characters in a terminal attribute record.
pub const NCCS: usize = 19;

/// Index of the read timeout (in deciseconds) among the control characters.
pub const VTIME: usize = 5;

/// Index of the minimum byte count of a read among the control characters.
pub const VMIN: usize = 6;

pub const IGNBRK: u32 = 0o1;
pub const BRKINT: u32 = 0o2;
pub const PARMRK: u32 = 0o10;
pub const ISTRIP: u32 = 0o40;
pub const INLCR: u32 = 0o100;
pub const IGNCR: u32 = 0o200;
pub const ICRNL: u32 = 0o400;
pub const IXON: u32 = 0o2000;

pub const OPOST: u32 = 0o1;

pub const ISIG: u32 = 0o1;
pub const ICANON: u32 = 0o2;
pub const ECHO: u32 = 0o10;
pub const ECHONL: u32 = 0o100;
pub const IEXTEN: u32 = 0o100000;

pub const CSIZE: u32 = 0o60;
pub const CS8: u32 = 0o60;
pub const PARENB: u32 = 0o400;

/// Input flags that raw mode switches off.
pub const RAW_INPUT_OFF: u32 = IGNBRK | BRKINT | PARMRK | ISTRIP | INLCR | IGNCR | ICRNL | IXON;

/// Output flags that raw mode switches off.
pub const RAW_OUTPUT_OFF: u32 = OPOST;

/// Local flags that raw mode switches off: no echo, no canonical line
/// editing, no signals from control characters.
pub const RAW_LOCAL_OFF: u32 = ECHO | ECHONL | ICANON | ISIG | IEXTEN;

/// Control flags that raw mode switches off before selecting 8-bit characters.
pub const RAW_CONTROL_OFF: u32 = CSIZE | PARENB;

/// A snapshot of the terminal's line-discipline configuration.
#[derive(Clone, Copy, Debug)]
pub struct TerminalAttributes {
    pub input_flags: u32,
    pub output_flags: u32,
    pub control_flags: u32,
    pub local_flags: u32,
    pub line_discipline: u8,
    pub control_chars: [u8; 19],
}

/// Failures of the terminal device.
#[derive(Clone, Copy, Debug, PartialEq, Eq, Structural)]
pub enum TerminalError {
    /// Reading the attributes or the window size failed.
    Query,
    /// Applying attributes failed.
    Configure,
}

/// `r` is `a` switched to raw mode: canonical processing, echo, signals and
/// output post-processing are off, characters are 8 bits wide, and a read
/// returns after at most one decisecond even when no byte arrived.
pub open spec fn is_raw_variant(r: TerminalAttributes, a: TerminalAttributes) -> bool {
    &&& r.input_flags == a.input_flags & !RAW_INPUT_OFF
    &&& r.output_flags == a.output_flags & !RAW_OUTPUT_OFF
    &&& r.local_flags == a.local_flags & !RAW_LOCAL_OFF
    &&& r.control_flags == (a.control_flags & !RAW_CONTROL_OFF) | CS8
    &&& r.line_discipline == a.line_discipline
    &&& r.control_chars@ == a.control_chars@.update(VMIN as int, 0u8).update(VTIME as int, 1u8)
}

/// Derives the raw-mode variant of `a`.
pub fn make_raw(a: &TerminalAttributes) -> (r: TerminalAttributes)
    ensures
        is_raw_variant(r, *a),
{
    let mut cc = a.control_chars;
    cc[VMIN] = 0;
    cc[VTIME] = 1;
    TerminalAttributes {
        input_flags: a.input_flags & !RAW_INPUT_OFF,
        output_flags: a.output_flags & !RAW_OUTPUT_OFF,
        control_flags: (a.control_flags & !RAW_CONTROL_OFF) | CS8,
        local_flags: a.local_flags & !RAW_LOCAL_OFF,
        line_discipline: a.line_discipline,
        control_chars: cc,
    }
}

/// The snapshot held after a successful query returned `queried`: the first
/// one ever captured wins.
pub open spec fn kept_snapshot(
    held: Option<TerminalAttributes>,
    queried: TerminalAttributes,
) -> TerminalAttributes {
    match held {
        Some(o) => o,
        None => queried,
    }
}

/// The snapshot held after one attempt to capture, where `queried` is the
/// outcome of the attribute query (`None` when it failed).
pub open spec fn snapshot_after(
    held: Option<TerminalAttributes>,
    queried: Option<TerminalAttributes>,
) -> Option<TerminalAttributes> {
    match queried {
        Some(q) => Some(kept_snapshot(held, q)),
        None => held,
    }
}

/// The snapshot held after a run of raw-mode entries, each with the outcome
/// of its attribute query.
pub open spec fn snapshot_after_all(
    held: Option<TerminalAttributes>,
    queries: Seq<Option<TerminalAttributes>>,
) -> Option<TerminalAttributes>
    decreases queries.len(),
{
    if queries.len() == 0 {
        held
    } else {
        snapshot_after_all(snapshot_after(held, queries[0]), queries.drop_first())
    }
}

/// The owner of the one original terminal snapshot of a session.
pub struct TerminalDriver {
    original: Option<TerminalAttributes>,
}

impl TerminalDriver {
    /// The original snapshot, once one was captured.
    pub closed spec fn snapshot(&self) -> Option<TerminalAttributes> {
        self.original
    }

    /// A driver that has captured nothing yet.
    pub fn new() -> (d: TerminalDriver)
        ensures
            d.snapshot() is None,
    {
        TerminalDriver { original: None }
    }

    /// The original snapshot, once one was captured.
    pub fn original(&self) -> (r: Option<TerminalAttributes>)
        ensures
            r == self.snapshot(),
    {
        self.original
    }
}

/// Takes the outcome of an attribute query and returns it, recording it as
/// the original snapshot when none was captured before. A failed query is a
/// `Query` error and changes nothing.
pub fn snapshot_attributes(
    driver: &mut TerminalDriver,
    queried: Option<TerminalAttributes>,
) -> (r: Result<TerminalAttributes, TerminalError>)
    ensures
        final(driver).snapshot() == snapshot_after(old(driver).snapshot(), queried),
        match queried {
            Some(q) => r == Ok::<TerminalAttributes, TerminalError>(q),
            None => r == Err::<TerminalAttributes, TerminalError>(TerminalError::Query),
        },
{
    match queried {
        Some(q) => {
            if driver.original.is_none() {
                driver.original = Some(q);
            }
            Ok(q)
        },
        None => Err(TerminalError::Query),
    }
}

/// Entering raw mode: given the outcome of reading the current attributes,
/// captures the original snapshot (first time only) and returns the raw
/// variant of the current attributes, which is what must be applied.
pub fn enable_raw_mode(
    driver: &mut TerminalDriver,
    queried: Option<TerminalAttributes>,
) -> (r: Result<TerminalAttributes, TerminalError>)
    ensures
        final(driver).snapshot() == snapshot_after(old(driver).snapshot(), queried),
        match queried {
            Some(q) => r is Ok && is_raw_variant(r->Ok_0, q),
            None => r == Err::<TerminalAttributes, TerminalError>(TerminalError::Query),
        },
{
    let current = snapshot_attributes(driver, queried)?;
    Ok(make_raw(&current))
}

/// Leaving raw mode: the attributes to apply are exactly the original
/// snapshot, whatever happened since; `None` when none was ever captured.
pub fn disable_raw_mode(driver: &TerminalDriver) -> (r: Option<TerminalAttributes>)
    ensures
        r == driver.snapshot(),
{
    driver.original
}

/// Scoped raw-mode guard: entering records the original snapshot, and
/// leaving hands it back for restoration exactly once per entry.
pub struct RawMode {
    driver: TerminalDriver,
    entered: bool,
}

impl RawMode {
    /// The original snapshot held by the guard.
    pub closed spec fn snapshot(&self) -> Option<TerminalAttributes> {
        self.driver.snapshot()
    }

    /// Whether raw mode was entered and not left since.
    pub closed spec fn entered(&self) -> bool {
        self.entered
    }

    /// An entered guard always holds a snapshot to restore.
    pub closed spec fn wf(&self) -> bool {
        self.entered ==> self.driver.snapshot() is Some
    }

    /// A guard that has entered nothing.
    pub fn new() -> (r: RawMode)
        ensures
            r.wf(),
            r.snapshot() is None,
            !r.entered(),
    {
        RawMode { driver: TerminalDriver::new(), entered: false }
    }

    /// Whether raw mode was entered and not left since.
    pub fn is_entered(&self) -> (r: bool)
        ensures
            r == self.entered(),
    {
        self.entered
    }

    /// Enters raw mode with the outcome of the attribute query; on success the
    /// guard is entered and the raw attributes to apply are returned.
    pub fn enable(&mut self, queried: Option<TerminalAttributes>) -> (r: Result<
        TerminalAttributes,
        TerminalError,
    >)
        requires
            old(self).wf(),
        ensures
            final(self).wf(),
            final(self).snapshot() == snapshot_after(old(self).snapshot(), queried),
            match queried {
                Some(q) => r is Ok && is_raw_variant(r->Ok_0, q) && final(self).entered(),
                None => r == Err::<TerminalAttributes, TerminalError>(TerminalError::Query)
                    && final(self).entered() == old(self).entered(),
            },
    {
        let r = enable_raw_mode(&mut self.driver, queried);
        if r.is_ok() {
            self.entered = true;
        }
        r
    }

    /// Leaves raw mode: returns the original snapshot to apply if the guard
    /// is entered, and `None` otherwise, so each entry is undone once.
    pub fn disable(&mut self) -> (r: Option<TerminalAttributes>)
        requires
            old(self).wf(),
        ensures
            final(self).wf(),
            final(self).snapshot() == old(self).snapshot(),
            !final(self).entered(),
            r == (if old(self).entered() { old(self).snapshot() } else { None }),
            old(self).entered() ==> r is Some,
    {
        if self.entered {
            self.entered = false;
            disable_raw_mode(&self.driver)
        } else {
            None
        }
    }
}

/// Once a snapshot `a` is held, no run of raw-mode entries replaces it, so
/// leaving raw mode afterwards restores exactly `a`.
pub proof fn lemma_raw_mode_round_trip(a: TerminalAttributes, queries: Seq<Option<TerminalAttributes>>)
    ensures
        snapshot_after_all(Some(a), queries) == Some(a),
    decreases queries.len(),
{
    if queries.len() > 0 {
        lemma_raw_mode_round_trip(a, queries.drop_first());
    }
}

/// The snapshot restored after a run of entries that starts from nothing is
/// the outcome of the first query that succeeded.
pub proof fn lemma_first_capture_kept(q: TerminalAttributes, queries: Seq<Option<TerminalAttributes>>)
    requires
        queries.len() > 0,
        queries[0] == Some(q),
    ensures
        snapshot_after_all(None, queries) == Some(q),
{
    lemma_raw_mode_round_trip(q, queries.drop_first());
}

} // verus!
