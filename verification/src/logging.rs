//! The per-event log block: an ordered sequence of severity-tagged entries,
//! an elapsed time frozen at most once (first caller wins), and a flush that
//! renders the whole block as one contiguous unit of output lines.

use vstd::prelude::*;

use crate::decimal::dec_rep;
use crate::decimal::u64_to_dec;
use crate::discord::Profile;

verus! {

/// How severe one log entry is.
#[derive(Clone, Copy, PartialEq, Eq, Structural, Debug)]
pub enum Severity {
    Trace,
    Debug,
    Info,
    Warn,
    Error,
}

/// One timestamped, severity-tagged line of a log block.
pub struct LogMessage {
    pub level: Severity,
    pub text: String,
    pub is_success: bool,
}

impl View for LogMessage {
    type V = (Severity, Seq<char>, bool);

    open spec fn view(&self) -> (Severity, Seq<char>, bool) {
        (self.level, self.text@, self.is_success)
    }
}

/// The marker printed for each severity.
pub open spec fn spec_marker(level: Severity) -> Seq<char> {
    match level {
        Severity::Info => "+"@,
        Severity::Trace => "-"@,
        Severity::Error => "✗"@,
        Severity::Debug => "*"@,
        Severity::Warn => "!"@,
    }
}

/// The marker printed for each severity.
pub fn map_level(level: Severity) -> (r: &'static str)
    ensures
        r@ == spec_marker(level),
{
    match level {
        Severity::Info => "+",
        Severity::Trace => "-",
        Severity::Error => "✗",
        Severity::Debug => "*",
        Severity::Warn => "!",
    }
}

/// How one entry is rendered: its severity marker in parentheses, then its
/// text.
pub open spec fn spec_rendered_line(m: (Severity, Seq<char>, bool)) -> Seq<char> {
    " ("@ + spec_marker(m.0) + ") "@ + m.1
}

impl LogMessage {
    /// Renders this entry as one output line.
    pub fn send(&self) -> (r: String)
        ensures
            r@ == spec_rendered_line(self@),
    {
        let mut s = String::from_str(" (");
        s.append(map_level(self.level));
        s.append(") ");
        s.append(self.text.as_str());
        proof {
            assert(s@ =~= spec_rendered_line(self@));
        }
        s
    }
}

/// Milliseconds elapsed between two clock readings, zero when the clock
/// appears to have gone backwards.
pub open spec fn spec_elapsed(start: u64, now: u64) -> u64 {
    if now >= start {
        (now - start) as u64
    } else {
        0
    }
}

/// What freezing the elapsed time does: the first call's value wins, a
/// later call changes nothing.
pub open spec fn freeze_model(elapsed: Option<u64>, start: u64, now: u64) -> Option<u64> {
    match elapsed {
        Some(e) => Some(e),
        None => Some(spec_elapsed(start, now)),
    }
}

/// Freezing the elapsed time twice yields the elapsed value from the first
/// call, whatever the second clock reading is.
pub proof fn lemma_freeze_first_call_wins(elapsed: Option<u64>, start: u64, t1: u64, t2: u64)
    ensures
        freeze_model(freeze_model(elapsed, start, t1), start, t2) == freeze_model(
            elapsed,
            start,
            t1,
        ),
{
}

/// The header line of a flushed block.
pub open spec fn spec_header_line(
    clock: Seq<char>,
    name: Seq<char>,
    loc: Seq<char>,
    sender: Seq<char>,
) -> Seq<char> {
    clock + " › ("@ + name + ") ["@ + loc + " > "@ + sender + "]"@
}

/// The closing line of a flushed block.
pub open spec fn spec_footer_line(elapsed: u64) -> Seq<char> {
    "Finished in: "@ + dec_rep(elapsed as nat) + "ms"@
}

/// The entry appended when the location lookup failed.
pub open spec fn spec_location_failure() -> (Severity, Seq<char>, bool) {
    (Severity::Error, "Failed requesting location for event."@, false)
}

/// The location substituted when the lookup failed.
pub open spec fn spec_default_location() -> Seq<char> {
    "Unknown"@
}

/// The views of a sequence of rendered lines.
pub open spec fn views_of(lines: Seq<String>) -> Seq<Seq<char>> {
    lines.map_values(|l: String| l@)
}

/// The log block for one chat event. Entries may be appended and the elapsed
/// time frozen while the block is open; flushing renders it once and closes
/// it.
pub struct LogBlock<'a> {
    pub messages: Vec<LogMessage>,
    pub start_ms: u64,
    pub profile: &'a Profile,
    pub elapsed: Option<u64>,
    pub flushed: bool,
}

impl<'a> LogBlock<'a> {
    /// The entries of this block as plain values.
    pub open spec fn entries(&self) -> Seq<(Severity, Seq<char>, bool)> {
        self.messages@.map_values(|m: LogMessage| m@)
    }

    /// Opens a block for one event, owned by the given session profile,
    /// with the clock reading at which processing began.
    pub fn new(profile: &'a Profile, start_ms: u64) -> (b: LogBlock<'a>)
        ensures
            b.messages@ == Seq::<LogMessage>::empty(),
            b.start_ms == start_ms,
            b.profile == profile,
            b.elapsed is None,
            !b.flushed,
    {
        LogBlock { messages: Vec::new(), start_ms, profile, elapsed: None, flushed: false }
    }

    /// Appends one entry. Valid only while the block has not been flushed.
    pub fn add_message(&mut self, level: Severity, text: String, is_success: bool)
        requires
            !old(self).flushed,
        ensures
            final (self).messages@ == old(self).messages@.push(
                (LogMessage { level, text, is_success }),
            ),
            final (self).entries() =~= old(self).entries().push((level, text@, is_success)),
            final (self).start_ms == old(self).start_ms,
            final (self).profile == old(self).profile,
            final (self).elapsed == old(self).elapsed,
            final (self).flushed == old(self).flushed,
    {
        let message = LogMessage { text, level, is_success };
        self.messages.push(message);
    }

    /// Freezes the elapsed time; the first call's value wins and any later
    /// call is a no-op.
    pub fn freeze_time(&mut self, now_ms: u64)
        ensures
            final (self).elapsed == freeze_model(old(self).elapsed, old(self).start_ms, now_ms),
            final (self).messages@ == old(self).messages@,
            final (self).start_ms == old(self).start_ms,
            final (self).profile == old(self).profile,
            final (self).flushed == old(self).flushed,
    {
        if self.elapsed.is_none() {
            let e = if now_ms >= self.start_ms {
                now_ms - self.start_ms
            } else {
                0
            };
            self.elapsed = Some(e);
        }
    }

    /// Flushes the block: freezes the elapsed time if it is still open,
    /// substitutes the default location (appending an error entry) when the
    /// lookup failed, and renders the header, every entry in insertion
    /// order, and the elapsed time, as one contiguous sequence of lines.
    /// Valid only once.
    pub fn send(
        &mut self,
        location: Option<String>,
        sender: String,
        clock_label: String,
        now_ms: u64,
    ) -> (lines: Vec<String>)
        requires
            !old(self).flushed,
        ensures
            final (self).flushed,
            final (self).elapsed == freeze_model(old(self).elapsed, old(self).start_ms, now_ms),
            final (self).start_ms == old(self).start_ms,
            final (self).profile == old(self).profile,
            final (self).entries() =~= old(self).entries() + (match location {
                Some(_) => Seq::<(Severity, Seq<char>, bool)>::empty(),
                None => seq![spec_location_failure()],
            }),
            lines@.len() == final (self).entries().len() + 3,
            lines@[0]@ == Seq::<char>::empty(),
            lines@[1]@ == spec_header_line(
                clock_label@,
                old(self).profile.username@,
                (match location {
                    Some(l) => l@,
                    None => spec_default_location(),
                }),
                sender@,
            ),
            forall|k: int|
                0 <= k < final (self).entries().len() ==> lines@[k + 2]@ == spec_rendered_line(
                    final (self).entries()[k],
                ),
            lines@[lines@.len() - 1]@ == spec_footer_line(final (self).elapsed->Some_0),
    {
        self.freeze_time(now_ms);
        let ghost clockv = clock_label@;
        let ghost senderv = sender@;
        let loc = match location {
            Some(l) => l,
            None => {
                self.add_message(
                    Severity::Error,
                    String::from_str("Failed requesting location for event."),
                    false,
                );
                String::from_str("Unknown")
            },
        };
        let ghost locv = loc@;

        let mut lines: Vec<String> = Vec::new();
        lines.push(String::new());

        let mut header = clock_label;
        header.append(" › (");
        header.append(self.profile.username.as_str());
        header.append(") [");
        header.append(loc.as_str());
        header.append(" > ");
        header.append(sender.as_str());
        header.append("]");
        proof {
            assert(header@ =~= spec_header_line(clockv, self.profile.username@, locv, senderv));
        }
        lines.push(header);

        let ghost snap = *self;
        let mut i: usize = 0;
        while i < self.messages.len()
            invariant
                *self == snap,
                0 <= i <= self.messages@.len(),
                lines@.len() == i + 2,
                lines@[0]@ == Seq::<char>::empty(),
                lines@[1]@ == spec_header_line(clockv, snap.profile.username@, locv, senderv),
                forall|k: int|
                    0 <= k < i ==> lines@[k + 2]@ == spec_rendered_line(self.entries()[k]),
            decreases self.messages@.len() - i,
        {
            let line = self.messages[i].send();
            proof {
                assert(line@ == spec_rendered_line(self.entries()[i as int]));
            }
            lines.push(line);
            i = i + 1;
        }

        let e = match self.elapsed {
            Some(e) => e,
            None => 0,
        };
        let mut footer = String::from_str("Finished in: ");
        let digits = u64_to_dec(e);
        footer.append(digits.as_str());
        footer.append("ms");
        proof {
            assert(footer@ =~= spec_footer_line(e));
        }
        let ghost pre = lines@;
        lines.push(footer);
        self.flushed = true;
        proof {
            assert(forall|k: int| 0 <= k < pre.len() ==> lines@[k] == pre[k]);
            assert(self.entries() =~= snap.entries());
            assert forall|k: int|
                0 <= k < self.entries().len() implies lines@[k + 2]@ == spec_rendered_line(
                self.entries()[k],
            ) by {
                assert(lines@[k + 2] == pre[k + 2]);
                assert(pre[k + 2]@ == spec_rendered_line(snap.entries()[k]));
            }
        }
        lines
    }
}

} // verus!
