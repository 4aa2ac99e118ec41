//! Finding the touchpad in the list of input devices.
//!
//! The list is read line by line. A line that names a touchpad of one of the
//! two makers opens its entry; within the entry the line of the system path
//! gives the number of the bus, and the line of the handlers the number of
//! the event stream, which closes the search.

use vstd::prelude::*;
use vstd::string::*;
use crate::text::{
    after, before, contains, cut, find, has, lemma_first_occurrence, length_before, occurs_at,
    slice, strip, to_chars, without,
};

verus! {

/// What replacing the first match of a regular expression gives: the text
/// `haystack` with the leftmost match of `pattern` replaced by `rep`, in
/// which `$1` stands for the first group of the match, or `None` where
/// `pattern` is not a regular expression that the engine accepts.
pub uninterp spec fn regex_replaced(pattern: Seq<char>, haystack: Seq<char>, rep: Seq<char>) -> Option<Seq<char>>;

/// Compiles `pattern` with `regex::Regex::new` and replaces the leftmost
/// match in `haystack` with `regex::Regex::replace`.
///
/// The contract only names the result: it is taken to depend on the three
/// texts alone, and to be `None` exactly where the pattern is refused.
#[verifier::external_body]
fn replace_first(pattern: &str, haystack: &str, rep: &str) -> (r: Option<String>)
    ensures
        match r {
            Some(s) => regex_replaced(pattern@, haystack@, rep@) == Some(s@),
            None => regex_replaced(pattern@, haystack@, rep@) is None,
        },
{
    match regex::Regex::new(pattern) {
        Ok(re) => Some(re.replace(haystack, rep).into_owned()),
        Err(_) => None,
    }
}

/// The pattern that finds the number of the bus in a system path.
pub open spec fn bus_pattern() -> Seq<char> {
    ".*i2c-(\\d+)/.*$"@
}

/// The replacement that keeps the first group of the match.
pub open spec fn bus_group() -> Seq<char> {
    "$1"@
}

/// Whether the line names a touchpad of one of the two makers.
pub open spec fn names_touchpad(line: Seq<char>) -> bool {
    contains(line, "Touchpad"@) && (contains(line, "Name=\"ASUE"@) || contains(
        line,
        "Name=\"ELAN"@,
    ))
}

/// Whether the line gives the system path of a device.
pub open spec fn is_sysfs_line(line: Seq<char>) -> bool {
    contains(line, "S: "@)
}

/// Whether the line gives the handlers of a device.
pub open spec fn is_handlers_line(line: Seq<char>) -> bool {
    contains(line, "H: "@)
}

/// The number of the event stream in a line of handlers: what stands behind
/// the first `event`, up to the next `event` or the next blank. There is
/// none where the line holds no `event`.
pub open spec fn event_number(line: Seq<char>) -> Option<Seq<char>> {
    match after(line, "event"@) {
        Some(rest) => Some(before(before(rest, "event"@), " "@)),
        None => None,
    }
}

/// Why a scan stopped.
#[derive(Clone, Copy, Debug, PartialEq, Eq, Structural)]
pub enum ScanError {
    /// The pattern for the number of the bus was refused.
    Pattern,
    /// The line of handlers of the touchpad names no event stream.
    NoEvent,
}

/// How far the search has come.
#[derive(Clone, Debug)]
pub enum Touchpad {
    /// No touchpad has been named yet.
    No,
    /// The lines read now belong to the touchpad.
    Yes,
    /// The touchpad's event stream has this number.
    Found(String),
}

/// How far the search has come, as a value of specifications.
pub enum Progress {
    No,
    Yes,
    Found(Seq<char>),
}

impl View for Touchpad {
    type V = Progress;

    open spec fn view(&self) -> Progress {
        match self {
            Touchpad::No => Progress::No,
            Touchpad::Yes => Progress::Yes,
            Touchpad::Found(number) => Progress::Found(number@),
        }
    }
}

/// A scan under way, as a value of specifications.
pub struct ScanState {
    pub touchpad: Progress,
    pub device_id: Option<Seq<char>>,
}

/// The touchpad as the device list gives it.
#[derive(Clone, Debug)]
pub struct Device {
    /// Number of the event stream.
    pub event: String,
    /// Number of the bus.
    pub bus: String,
}

impl ScanState {
    /// The scan before its first line.
    pub open spec fn start() -> ScanState {
        ScanState { touchpad: Progress::No, device_id: None }
    }

    /// Whether the line belongs to the entry of the touchpad: the entry is
    /// open, or this line opens it.
    pub open spec fn in_entry(self, line: Seq<char>) -> bool {
        self.touchpad is Yes || (self.touchpad is No && names_touchpad(line))
    }

    /// Whether the number of the bus is read from the line.
    pub open spec fn reads_bus(self, line: Seq<char>) -> bool {
        self.in_entry(line) && is_sysfs_line(line)
    }

    /// The scan after one more line, given what the replacement of the bus
    /// pattern in that line gave.
    ///
    /// Lines before the entry of the touchpad and behind its handlers change
    /// nothing. Within the entry, a line with a system path sets the number
    /// of the bus to the replacement, line feeds taken out, and a line of
    /// handlers sets the number of the event stream. A refused pattern and a
    /// line of handlers without an event stream stop the scan, with the
    /// entry open and what was read before the fault kept.
    pub open spec fn step(self, line: Seq<char>, replaced: Option<Seq<char>>) -> (
        ScanState,
        Result<(), ScanError>,
    ) {
        if !self.in_entry(line) {
            (self, Ok(()))
        } else if is_sysfs_line(line) && replaced is None {
            (ScanState { touchpad: Progress::Yes, device_id: self.device_id }, Err(ScanError::Pattern))
        } else {
            let device_id = if is_sysfs_line(line) {
                Some(without(replaced->0, '\n'))
            } else {
                self.device_id
            };
            if is_handlers_line(line) {
                match event_number(line) {
                    Some(number) => (
                        ScanState { touchpad: Progress::Found(number), device_id },
                        Ok(()),
                    ),
                    None => (
                        ScanState { touchpad: Progress::Yes, device_id },
                        Err(ScanError::NoEvent),
                    ),
                }
            } else {
                (ScanState { touchpad: Progress::Yes, device_id }, Ok(()))
            }
        }
    }

    /// The scan after one more line.
    pub open spec fn feed(self, line: Seq<char>) -> (ScanState, Result<(), ScanError>) {
        self.step(line, regex_replaced(bus_pattern(), line, bus_group()))
    }

    /// The scan after the lines from `from` on, up to the first that stops
    /// it.
    pub open spec fn feed_all(self, lines: Seq<Seq<char>>, from: int) -> (
        ScanState,
        Result<(), ScanError>,
    )
        decreases lines.len() - from,
    {
        if from < 0 || from >= lines.len() {
            (self, Ok(()))
        } else {
            let (next, result) = self.feed(lines[from]);
            if result is Err {
                (next, result)
            } else {
                next.feed_all(lines, from + 1)
            }
        }
    }

    /// What the scan has found: both numbers, where it has both.
    pub open spec fn found(self) -> Option<(Seq<char>, Seq<char>)> {
        match (self.touchpad, self.device_id) {
            (Progress::Found(event), Some(bus)) => Some((event, bus)),
            _ => None,
        }
    }
}

/// A scan of the device list under way.
#[derive(Clone, Debug)]
pub struct Scanner {
    pub touchpad: Touchpad,
    pub device_id: Option<String>,
}

impl View for Scanner {
    type V = ScanState;

    open spec fn view(&self) -> ScanState {
        ScanState {
            touchpad: self.touchpad@,
            device_id: match self.device_id {
                Some(id) => Some(id@),
                None => None,
            },
        }
    }
}

/// The view of a list of lines.
pub open spec fn lines_view(lines: Seq<String>) -> Seq<Seq<char>> {
    Seq::new(lines.len(), |i: int| lines[i]@)
}

/// The number of the event stream in a line of handlers.
pub fn read_event_number(line: &str) -> (number: Option<String>)
    ensures
        match number {
            Some(n) => event_number(line@) == Some(n@),
            None => event_number(line@) is None,
        },
{
    let chars = to_chars(line);
    let event = to_chars("event");
    let blank = to_chars(" ");
    proof {
        lemma_first_occurrence(chars@, event@, 0);
    }
    match find(&chars, &event, 0) {
        Some(at) => {
            let total = chars.len();
            assert(occurs_at(chars@, event@, at as int));
            let start: usize = at + event.len();
            let rest = cut(&chars, start, total);
            let field_len = length_before(&rest, &event);
            let field = cut(&rest, 0, field_len);
            let len = length_before(&field, &blank);
            let number = slice(line, start, start + len);
            assert(number@ =~= field@.subrange(0, len as int));
            Some(number)
        },
        None => None,
    }
}

impl Scanner {
    /// A scan before its first line.
    pub fn new() -> (s: Scanner)
        ensures
            s@ == ScanState::start(),
    {
        Scanner { touchpad: Touchpad::No, device_id: None }
    }

    /// Whether the line belongs to the entry of the touchpad.
    pub fn in_entry(&self, line: &str) -> (b: bool)
        ensures
            b == self@.in_entry(line@),
    {
        match self.touchpad {
            Touchpad::Yes => true,
            Touchpad::Found(_) => false,
            Touchpad::No => {
                let chars = to_chars(line);
                has(&chars, &to_chars("Touchpad")) && (has(&chars, &to_chars("Name=\"ASUE")) || has(
                    &chars,
                    &to_chars("Name=\"ELAN"),
                ))
            },
        }
    }

    /// Takes one more line, given what the replacement of the bus pattern in
    /// that line gave; `replaced` is read only where the line gives the
    /// system path of the touchpad.
    pub fn feed_with(&mut self, line: &str, replaced: Option<String>) -> (r: Result<(), ScanError>)
        ensures
            (final(self)@, r) == old(self)@.step(
                line@,
                match replaced {
                    Some(s) => Some(s@),
                    None => None,
                },
            ),
    {
        if !self.in_entry(line) {
            return Ok(());
        }
        self.touchpad = Touchpad::Yes;
        let chars = to_chars(line);
        if has(&chars, &to_chars("S: ")) {
            match replaced {
                Some(text) => {
                    self.device_id = Some(strip(text.as_str(), '\n'));
                },
                None => {
                    return Err(ScanError::Pattern);
                },
            }
        }
        if has(&chars, &to_chars("H: ")) {
            match read_event_number(line) {
                Some(number) => {
                    self.touchpad = Touchpad::Found(number);
                    Ok(())
                },
                None => Err(ScanError::NoEvent),
            }
        } else {
            Ok(())
        }
    }

    /// Takes one more line of the device list.
    pub fn feed(&mut self, line: &str) -> (r: Result<(), ScanError>)
        ensures
            (final(self)@, r) == old(self)@.feed(line@),
    {
        let reads_bus = self.in_entry(line) && has(&to_chars(line), &to_chars("S: "));
        let replaced = if reads_bus {
            replace_first(".*i2c-(\\d+)/.*$", line, "$1")
        } else {
            None
        };
        self.feed_with(line, replaced)
    }

    /// What the scan has found: the touchpad, where both its numbers have
    /// been read.
    pub fn finish(&self) -> (device: Option<Device>)
        ensures
            match device {
                Some(d) => self@.found() == Some((d.event@, d.bus@)),
                None => self@.found() is None,
            },
    {
        match &self.touchpad {
            Touchpad::Found(event) => match &self.device_id {
                Some(bus) => Some(Device { event: event.clone(), bus: bus.clone() }),
                None => None,
            },
            _ => None,
        }
    }
}

/// Scans a device list for the touchpad.
///
/// The lines are taken in order until one stops the scan. Without a fault the
/// answer is the touchpad, where the list holds its entry with both numbers.
pub fn scan_lines(lines: &Vec<String>) -> (r: Result<Option<Device>, ScanError>)
    ensures
        ({
            let (state, result) = ScanState::start().feed_all(lines_view(lines@), 0);
            match r {
                Ok(Some(d)) => result is Ok && state.found() == Some((d.event@, d.bus@)),
                Ok(None) => result is Ok && state.found() is None,
                Err(e) => result == Err::<(), ScanError>(e),
            }
        }),
{
    let mut scanner = Scanner::new();
    let mut i: usize = 0;
    while i < lines.len()
        invariant
            i <= lines.len(),
            ScanState::start().feed_all(lines_view(lines@), 0) == scanner@.feed_all(
                lines_view(lines@),
                i as int,
            ),
        decreases lines.len() - i,
    {
        assert(lines_view(lines@)[i as int] == lines@[i as int]@);
        match scanner.feed(lines[i].as_str()) {
            Ok(()) => {},
            Err(e) => {
                return Err(e);
            },
        }
        i = i + 1;
    }
    Ok(scanner.finish())
}

} // verus!
