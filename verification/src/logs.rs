//! The dashboard's log: a bounded list of stamped, leveled messages that forgets
//! its oldest entry when a new one would exceed the capacity.

use vstd::prelude::*;
use crate::clock::{is_time_of_day, local_time_text};

verus! {

/// Severity of a log entry.
#[derive(Debug, Clone, Copy, PartialEq, Eq, Structural)]
pub enum LogLevel {
    Info,
    Warning,
    Error,
    Success,
}

/// One line of the log. It is never changed once it is in the buffer.
#[derive(Debug)]
pub struct LogEntry {
    /// Wall-clock time of day, to the second.
    pub timestamp: String,
    pub level: LogLevel,
    pub message: String,
}

/// What a log entry holds, as plain values.
pub struct LogEntryView {
    pub timestamp: Seq<char>,
    pub level: LogLevel,
    pub message: Seq<char>,
}

/// A log entry without its timestamp.
pub struct LogLine {
    pub level: LogLevel,
    pub message: Seq<char>,
}

impl View for LogEntry {
    type V = LogEntryView;

    open spec fn view(&self) -> LogEntryView {
        LogEntryView { timestamp: self.timestamp@, level: self.level, message: self.message@ }
    }
}

impl Clone for LogEntry {
    fn clone(&self) -> (r: Self)
        ensures
            r@ == self@,
    {
        LogEntry {
            timestamp: self.timestamp.clone(),
            level: self.level,
            message: self.message.clone(),
        }
    }
}

impl LogEntryView {
    /// The entry without its timestamp.
    pub open spec fn line(self) -> LogLine {
        LogLine { level: self.level, message: self.message }
    }
}

/// The most entries that the log holds.
pub const LOG_CAPACITY: usize = 100;

/// The newest `LOG_CAPACITY` items of `s`: `s` itself while it is within the
/// capacity, else its tail of that length.
pub open spec fn keep_newest<T>(s: Seq<T>) -> Seq<T> {
    if s.len() > LOG_CAPACITY {
        s.skip(s.len() - LOG_CAPACITY)
    } else {
        s
    }
}

/// The lines of a list of entries.
pub open spec fn lines_of(entries: Seq<LogEntryView>) -> Seq<LogLine> {
    entries.map_values(|e: LogEntryView| e.line())
}

/// `after` is `before` with one entry per line of `added` appended in order, cut
/// to the newest `LOG_CAPACITY`: entries that stay are unchanged, and each new
/// entry carries its line under a time of day.
pub open spec fn log_extends(
    before: Seq<LogEntryView>,
    after: Seq<LogEntryView>,
    added: Seq<LogLine>,
) -> bool {
    let total = before.len() + added.len();
    let dropped = if total > LOG_CAPACITY {
        total - LOG_CAPACITY
    } else {
        0
    };
    &&& after.len() == total - dropped
    &&& forall|i: int|
        0 <= i < after.len() ==> if i + dropped < before.len() {
            #[trigger] after[i] == before[i + dropped]
        } else {
            &&& after[i].line() == added[i + dropped - before.len()]
            &&& is_time_of_day(after[i].timestamp)
        }
}

/// One line per message, all of one level.
pub open spec fn leveled(level: LogLevel, messages: Seq<&str>) -> Seq<LogLine> {
    Seq::new(messages.len(), |i: int| LogLine { level, message: messages[i]@ })
}

/// Entries pushed one by one, each push keeping the newest `LOG_CAPACITY`.
pub open spec fn push_each(start: Seq<LogEntryView>, entries: Seq<LogEntryView>) -> Seq<
    LogEntryView,
>
    decreases entries.len(),
{
    if entries.len() == 0 {
        start
    } else {
        keep_newest(push_each(start, entries.drop_last()).push(entries.last()))
    }
}

/// Pushing entries one by one onto a log within its capacity leaves exactly the
/// newest `LOG_CAPACITY` of all entries, old and new, in the order in which they came.
pub proof fn lemma_push_each_keeps_newest(start: Seq<LogEntryView>, entries: Seq<LogEntryView>)
    requires
        start.len() <= LOG_CAPACITY,
    ensures
        push_each(start, entries) == keep_newest(start + entries),
        push_each(start, entries).len() == if start.len() + entries.len() > LOG_CAPACITY {
            LOG_CAPACITY as nat
        } else {
            start.len() + entries.len()
        },
    decreases entries.len(),
{
    if entries.len() == 0 {
        assert(start + entries == start);
    } else {
        let front = entries.drop_last();
        lemma_push_each_keeps_newest(start, front);
        assert((start + front).push(entries.last()) == start + entries);
        assert(keep_newest(keep_newest(start + front).push(entries.last())) == keep_newest(
            start + entries,
        ));
    }
}

/// A log that extends another by no line is that log.
pub proof fn lemma_log_extends_nothing(log: Seq<LogEntryView>)
    requires
        log.len() <= LOG_CAPACITY,
    ensures
        log_extends(log, log, Seq::empty()),
{
}

/// Extending twice is extending once by both runs of lines.
pub proof fn lemma_log_extends_twice(
    a: Seq<LogEntryView>,
    b: Seq<LogEntryView>,
    c: Seq<LogEntryView>,
    first: Seq<LogLine>,
    second: Seq<LogLine>,
)
    requires
        a.len() <= LOG_CAPACITY,
        log_extends(a, b, first),
        log_extends(b, c, second),
    ensures
        log_extends(a, c, first + second),
{
    let total = a.len() + first.len() + second.len();
    let dropped = if total > LOG_CAPACITY {
        total - LOG_CAPACITY
    } else {
        0
    };
    let mid_total = a.len() + first.len();
    let mid_dropped = if mid_total > LOG_CAPACITY {
        mid_total - LOG_CAPACITY
    } else {
        0
    };
    let last_total = b.len() + second.len();
    let last_dropped = if last_total > LOG_CAPACITY {
        last_total - LOG_CAPACITY
    } else {
        0
    };
    assert(dropped == mid_dropped + last_dropped);
    assert forall|i: int| 0 <= i < c.len() implies if i + dropped < a.len() {
        #[trigger] c[i] == a[i + dropped]
    } else {
        &&& c[i].line() == (first + second)[i + dropped - a.len()]
        &&& is_time_of_day(c[i].timestamp)
    } by {
        if i + last_dropped < b.len() {
            assert(c[i] == b[i + last_dropped]);
            let k = i + last_dropped;
            if k + mid_dropped < a.len() {
                assert(b[k] == a[k + mid_dropped]);
            } else {
                assert(b[k].line() == first[k + mid_dropped - a.len()]);
                assert(is_time_of_day(b[k].timestamp));
            }
        } else {
            assert(c[i].line() == second[i + last_dropped - b.len()]);
            assert(is_time_of_day(c[i].timestamp));
        }
    }
}

/// A log that extends another holds the newest lines of the old log followed by
/// the added ones; while the capacity is not reached it grows by their number.
pub proof fn lemma_log_extends_lines(
    before: Seq<LogEntryView>,
    after: Seq<LogEntryView>,
    added: Seq<LogLine>,
)
    requires
        log_extends(before, after, added),
    ensures
        lines_of(after) == keep_newest(lines_of(before) + added),
        before.len() + added.len() <= LOG_CAPACITY ==> after.len() == before.len() + added.len(),
{
    assert(lines_of(after) =~= keep_newest(lines_of(before) + added));
}

/// The log of the dashboard, oldest entry first.
pub struct LogBuffer {
    entries: Vec<LogEntry>,
}

impl View for LogBuffer {
    type V = Seq<LogEntryView>;

    closed spec fn view(&self) -> Seq<LogEntryView> {
        self.entries@.map_values(|e: LogEntry| e@)
    }
}

impl LogBuffer {
    #[verifier::type_invariant]
    spec fn within_capacity(self) -> bool {
        self.entries@.len() <= LOG_CAPACITY
    }

    /// The entries without their timestamps.
    pub open spec fn lines(self) -> Seq<LogLine> {
        lines_of(self@)
    }

    /// An empty log.
    pub fn new() -> (log: LogBuffer)
        ensures
            log@ == Seq::<LogEntryView>::empty(),
    {
        let log = LogBuffer { entries: Vec::new() };
        assert(log@ =~= Seq::<LogEntryView>::empty());
        log
    }

    /// Does nothing; brings into a proof that a log is within its capacity at
    /// all times.
    pub(crate) fn recall_capacity(&self)
        ensures
            self@.len() <= LOG_CAPACITY,
    {
        proof {
            use_type_invariant(self);
        }
    }

    /// Number of entries; never more than `LOG_CAPACITY`.
    pub fn len(&self) -> (n: usize)
        ensures
            n == self@.len(),
            n <= LOG_CAPACITY,
    {
        proof {
            use_type_invariant(self);
        }
        self.entries.len()
    }

    pub fn is_empty(&self) -> (r: bool)
        ensures
            r == (self@.len() == 0),
    {
        self.entries.len() == 0
    }

    /// The entry at position `i`, counted from the oldest.
    pub fn get(&self, i: usize) -> (r: Option<&LogEntry>)
        ensures
            r.is_some() == (i < self@.len()),
            r matches Some(e) ==> e@ == self@[i as int],
    {
        if i < self.entries.len() {
            Some(&self.entries[i])
        } else {
            None
        }
    }

    /// All entries, oldest first.
    pub fn entries(&self) -> (r: &Vec<LogEntry>)
        ensures
            r@.map_values(|e: LogEntry| e@) == self@,
            r@.len() <= LOG_CAPACITY,
    {
        proof {
            use_type_invariant(self);
        }
        &self.entries
    }

    /// Appends `entry`; if the log then exceeds its capacity, the oldest entry
    /// is dropped.
    pub fn push(&mut self, entry: LogEntry)
        ensures
            final(self)@ == keep_newest(old(self)@.push(entry@)),
            is_time_of_day(entry@.timestamp) ==> log_extends(
                old(self)@,
                final(self)@,
                seq![entry@.line()],
            ),
    {
        proof {
            use_type_invariant(&*self);
        }
        let mut entries: Vec<LogEntry> = Vec::new();
        std::mem::swap(&mut entries, &mut self.entries);
        entries.push(entry);
        if entries.len() > LOG_CAPACITY {
            entries.remove(0);
        }
        self.entries = entries;
        assert(final(self)@ =~= keep_newest(old(self)@.push(entry@)));
    }

    /// Appends one line per message, all of one level, each under the time of
    /// day at which it is appended.
    pub fn record_all(&mut self, level: LogLevel, messages: &[&str])
        ensures
            log_extends(old(self)@, final(self)@, leveled(level, messages@)),
    {
        let ghost all = leveled(level, messages@);
        let mut i: usize = 0;
        proof {
            use_type_invariant(&*self);
            lemma_log_extends_nothing(self@);
            assert(all.take(0) =~= Seq::<LogLine>::empty());
        }
        while i < messages.len()
            invariant
                i <= messages.len(),
                all == leveled(level, messages@),
                old(self)@.len() <= LOG_CAPACITY,
                log_extends(old(self)@, self@, all.take(i as int)),
            decreases messages.len() - i,
        {
            let ghost before = self@;
            self.record(level, messages[i]);
            proof {
                lemma_log_extends_twice(
                    old(self)@,
                    before,
                    self@,
                    all.take(i as int),
                    seq![LogLine { level, message: messages@[i as int]@ }],
                );
                assert(all.take(i as int) + seq![LogLine { level, message: messages@[i as int]@ }]
                    =~= all.take(i + 1));
            }
            i = i + 1;
        }
        assert(all.take(messages.len() as int) == all);
    }

    /// Appends a line under the current time of day. Which time that is, the
    /// clock decides; all else is fixed: the entry is the newest, it carries the
    /// line, its stamp is a time of day, and the entries that stay are unchanged.
    pub fn record(&mut self, level: LogLevel, message: &str)
        ensures
            log_extends(old(self)@, final(self)@, seq![LogLine { level, message: message@ }]),
            final(self)@.len() > 0,
            final(self)@.last().line() == (LogLine { level, message: message@ }),
            is_time_of_day(final(self)@.last().timestamp),
            final(self)@ == keep_newest(old(self)@.push(final(self)@.last())),
    {
        let entry = LogEntry {
            timestamp: local_time_text(),
            level,
            message: message.to_owned(),
        };
        self.push(entry);
    }
}

} // verus!
