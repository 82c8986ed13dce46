//! The conversation log: an append-only sequence of timestamped, role-tagged
//! messages, and the bounded recall of its most recent part.

use crate::settings::Settings;
use vstd::prelude::*;

verus! {

/// The first second of the year 0000, counted from 1970-01-01T00:00:00Z.
pub const MIN_SECS: i64 = -62_167_219_200;

/// The last second of the year 9999, counted from 1970-01-01T00:00:00Z.
pub const MAX_SECS: i64 = 253_402_300_799;

/// An instant that RFC 3339 can write down: a second of the years 0000 to 9999
/// and the nanoseconds since that second began. A count of nanoseconds of one
/// thousand million or more stands for a leap second, and only follows the last
/// second of a minute.
pub open spec fn is_instant(secs: int, nanos: int) -> bool {
    &&& MIN_SECS <= secs <= MAX_SECS
    &&& 0 <= nanos < 2_000_000_000
    &&& nanos >= 1_000_000_000 ==> secs % 60 == 59
}

/// The RFC 3339 text of the instant `nanos` nanoseconds after second `secs`, in UTC.
pub uninterp spec fn rfc3339_text(secs: int, nanos: int) -> Seq<char>;

/// The instant at which a message was recorded.
#[derive(Clone, Copy, Debug)]
pub struct Timestamp {
    secs: i64,
    nanos: u32,
}

impl Timestamp {
    #[verifier::type_invariant]
    spec fn holds_an_instant(self) -> bool {
        is_instant(self.secs as int, self.nanos as int)
    }

    /// Whole seconds since 1970-01-01T00:00:00Z.
    pub closed spec fn secs(self) -> int {
        self.secs as int
    }

    /// Nanoseconds since the second began.
    pub closed spec fn nanos(self) -> int {
        self.nanos as int
    }

    /// The instant `nanos` nanoseconds after second `secs`, if it is one.
    pub fn new(secs: i64, nanos: u32) -> (t: Option<Timestamp>)
        ensures
            t is Some <==> is_instant(secs as int, nanos as int),
            t matches Some(at) ==> at.secs() == secs && at.nanos() == nanos,
    {
        if secs < MIN_SECS || secs > MAX_SECS || nanos >= 2_000_000_000 {
            return None;
        }
        if nanos >= 1_000_000_000 {
            let since: u64 = (secs - MIN_SECS) as u64;
            if since % 60 != 59 {
                return None;
            }
        }
        Some(Timestamp { secs, nanos })
    }

    /// Whole seconds since 1970-01-01T00:00:00Z.
    pub fn seconds(&self) -> (s: i64)
        ensures
            s == self.secs(),
    {
        self.secs
    }

    /// Nanoseconds since the second began.
    pub fn subsec_nanos(&self) -> (n: u32)
        ensures
            n == self.nanos(),
    {
        self.nanos
    }

    /// The instant as RFC 3339 text.
    pub fn to_rfc3339(&self) -> (out: String)
        ensures
            out@ == rfc3339_text(self.secs(), self.nanos()),
    {
        proof {
            use_type_invariant(self);
        }
        match format_rfc3339(self.secs, self.nanos) {
            Some(text) => text,
            None => String::new(),
        }
    }
}

/// `DateTime::<Utc>::from_timestamp` and `DateTime::to_rfc3339` of chrono: the
/// text that chrono writes for a timestamp. Trusted: that every instant of the
/// years 0000 to 9999 is within what chrono can hold, and that the text depends
/// on the two numbers alone.
#[verifier::external_body]
fn format_rfc3339(secs: i64, nanos: u32) -> (out: Option<String>)
    ensures
        is_instant(secs as int, nanos as int) ==> out is Some,
        out matches Some(text) ==> text@ == rfc3339_text(secs as int, nanos as int),
{
    chrono::DateTime::<chrono::Utc>::from_timestamp(secs, nanos).map(|at| at.to_rfc3339())
}

/// The name of the log file where the settings name no other.
pub const DEFAULT_LOG_NAME: &'static str = "memory.ndjson";

/// One message of the conversation, as it stands in the log.
pub struct MessageRecord {
    pub when: Timestamp,
    pub role: String,
    pub text: String,
}

/// What a record holds: its instant, and the text of its role and of its message.
pub struct Entry {
    pub when: Timestamp,
    pub role: Seq<char>,
    pub text: Seq<char>,
}

impl View for MessageRecord {
    type V = Entry;

    open spec fn view(&self) -> Entry {
        Entry { when: self.when, role: self.role@, text: self.text@ }
    }
}

/// What each record of `records` holds, in order.
pub open spec fn entries(records: Seq<MessageRecord>) -> Seq<Entry> {
    records.map_values(|r: MessageRecord| r@)
}

/// The line that recall shows for one record: the instant in square brackets,
/// the role, a colon, and the message.
pub open spec fn rendered(e: Entry) -> Seq<char> {
    line_text(rfc3339_text(e.when.secs(), e.when.nanos()), e.role, e.text)
}

/// The lines of `es`, oldest first, with a line feed between each two.
pub open spec fn rendered_all(es: Seq<Entry>) -> Seq<char>
    decreases es.len(),
{
    if es.len() == 0 {
        Seq::empty()
    } else if es.len() == 1 {
        rendered(es[0])
    } else {
        rendered_all(es.drop_last()) + "\n"@ + rendered(es.last())
    }
}

/// The most recent `limit_pairs` pairs of `log`, or all of it where it holds fewer.
pub open spec fn recent(log: Seq<Entry>, limit_pairs: nat) -> Seq<Entry> {
    if log.len() <= 2 * limit_pairs {
        log
    } else {
        log.subrange(log.len() - 2 * limit_pairs, log.len() as int)
    }
}

/// What recall returns of `log` with a window of `limit_pairs` pairs.
pub open spec fn recalled(log: Seq<Entry>, limit_pairs: nat) -> Seq<char> {
    rendered_all(recent(log, limit_pairs))
}

/// The record that a message of the user leaves in the log.
pub open spec fn user_entry(text: Seq<char>, when: Timestamp) -> Entry {
    Entry { when, role: "user"@, text }
}

/// The record that a reply of the assistant leaves in the log.
pub open spec fn assistant_entry(text: Seq<char>, when: Timestamp) -> Entry {
    Entry { when, role: "assistant"@, text }
}

/// The log after one more interaction: the user's record, then the assistant's.
pub open spec fn with_interaction(
    log: Seq<Entry>,
    user: Seq<char>,
    assistant: Seq<char>,
    at_user: Timestamp,
    at_assistant: Timestamp,
) -> Seq<Entry> {
    log.push(user_entry(user, at_user)).push(assistant_entry(assistant, at_assistant))
}

/// The line of a record whose instant reads `when`: `when` in square
/// brackets, the role, a colon, and the message.
pub open spec fn line_text(when: Seq<char>, role: Seq<char>, text: Seq<char>) -> Seq<char> {
    "["@ + when + "] "@ + role + ": "@ + text
}

/// Writes the line of a record from the text of its instant, its role and its message.
pub fn render_line(when: &str, role: &str, text: &str) -> (out: String)
    ensures
        out@ == line_text(when@, role@, text@),
{
    let mut out = String::from_str("[");
    out.append(when);
    out.append("] ");
    out.append(role);
    out.append(": ");
    out.append(text);
    out
}

impl MessageRecord {
    /// The line that recall shows for this record.
    pub fn render(&self) -> (out: String)
        ensures
            out@ == rendered(self@),
    {
        let when = self.when.to_rfc3339();
        render_line(when.as_str(), self.role.as_str(), self.text.as_str())
    }
}

impl MessageRecord {
    /// A record that holds what this one holds.
    pub fn duplicate(&self) -> (copy: MessageRecord)
        ensures
            copy@ == self@,
    {
        MessageRecord { when: self.when, role: self.role.clone(), text: self.text.clone() }
    }
}

/// What each line of a decoded log holds: `None` where the line did not decode.
pub open spec fn decoded(lines: Seq<Option<MessageRecord>>) -> Seq<Option<Entry>> {
    lines.map_values(
        |line: Option<MessageRecord>|
            match line {
                Some(r) => Some(r@),
                None => None,
            },
    )
}

/// The records of a decoded log: the lines that decoded, in the order of the
/// file. A line that did not decode leaves nothing.
pub open spec fn well_formed(lines: Seq<Option<Entry>>) -> Seq<Entry>
    decreases lines.len(),
{
    if lines.len() == 0 {
        Seq::empty()
    } else {
        match lines.last() {
            Some(e) => well_formed(lines.drop_last()).push(e),
            None => well_formed(lines.drop_last()),
        }
    }
}

/// The ranges of the lines of `b`, given that a line begins at `start` and
/// that no byte from `start` up to `at` is a line feed. A line ends before its
/// line feed, and before the carriage return that stands in front of that line
/// feed, if one does. What follows the last line feed is a line unless it is
/// empty.
pub open spec fn lines_scan(b: Seq<u8>, start: int, at: int) -> Seq<(int, int)>
    decreases b.len() - at,
{
    if at >= b.len() {
        if start < b.len() {
            seq![(start, b.len() as int)]
        } else {
            Seq::empty()
        }
    } else if b[at] == 10u8 {
        let end = if start < at && b[at - 1] == 13u8 {
            at - 1
        } else {
            at
        };
        seq![(start, end)] + lines_scan(b, at + 1, at + 1)
    } else {
        lines_scan(b, start, at + 1)
    }
}

/// The lines of `b`, each as the range of its bytes: first byte, and one past the last.
pub open spec fn line_ranges(b: Seq<u8>) -> Seq<(int, int)> {
    lines_scan(b, 0, 0)
}

/// The ranges of `v` as pairs of integers.
pub open spec fn ranges(v: Seq<(usize, usize)>) -> Seq<(int, int)> {
    v.map_values(|r: (usize, usize)| (r.0 as int, r.1 as int))
}

/// Frames a log: the range of each line of `content`, in order.
pub fn split_lines(content: &[u8]) -> (out: Vec<(usize, usize)>)
    ensures
        ranges(out@) == line_ranges(content@),
{
    let mut out: Vec<(usize, usize)> = Vec::new();
    let mut start: usize = 0;
    let mut at: usize = 0;
    assert(ranges(out@) =~= Seq::empty());
    while at < content.len()
        invariant
            start <= at <= content.len(),
            line_ranges(content@) == ranges(out@) + lines_scan(content@, start as int, at as int),
        decreases content.len() - at,
    {
        if content[at] == 10u8 {
            let end: usize = if start < at && content[at - 1] == 13u8 {
                at - 1
            } else {
                at
            };
            proof {
                let before = ranges(out@);
                assert(ranges(out@.push((start, end))) =~= before.push((start as int, end as int)));
                assert(before + (seq![(start as int, end as int)] + lines_scan(
                    content@,
                    at + 1,
                    at + 1,
                )) =~= before.push((start as int, end as int)) + lines_scan(
                    content@,
                    at + 1,
                    at + 1,
                ));
            }
            out.push((start, end));
            start = at + 1;
        }
        at += 1;
    }
    if start < content.len() {
        proof {
            let before = ranges(out@);
            assert(ranges(out@.push((start, content.len()))) =~= before.push(
                (start as int, content@.len() as int),
            ));
            assert(before + seq![(start as int, content@.len() as int)] =~= before.push(
                (start as int, content@.len() as int),
            ));
        }
        out.push((start, content.len()));
    } else {
        assert(ranges(out@) + Seq::<(int, int)>::empty() =~= ranges(out@));
    }
    out
}

/// Whether the content of a log ends in the middle of a line: it is not
/// empty and its last byte is no line feed.
pub open spec fn is_cut(content: Seq<u8>) -> bool {
    content.len() > 0 && content.last() != 10u8
}

/// Whether a line feed has to be written before the next record, so that the
/// record begins a line of its own and does not join a line that was cut short.
pub fn ends_mid_line(content: &[u8]) -> (r: bool)
    ensures
        r == is_cut(content@),
{
    content.len() > 0 && content[content.len() - 1] != 10u8
}

/// The conversation log as the agent sees it: where it is kept, and the
/// records that it holds, oldest first.
pub struct MemoryStore {
    path: String,
    records: Vec<MessageRecord>,
}

impl MemoryStore {
    /// The records of the log, oldest first.
    pub closed spec fn log(&self) -> Seq<Entry> {
        entries(self.records@)
    }

    /// Where the log is kept.
    pub closed spec fn location(&self) -> Seq<char> {
        self.path@
    }

    /// An empty log, kept where the settings say, or at `default_path` where
    /// they name no place.
    pub fn new(settings: &Settings, default_path: &str) -> (store: MemoryStore)
        ensures
            store.log() == Seq::<Entry>::empty(),
            store.location() == match settings.memory_path {
                Some(p) => p@,
                None => default_path@,
            },
    {
        let path = match &settings.memory_path {
            Some(p) => p.clone(),
            None => String::from_str(default_path),
        };
        let store = MemoryStore { path, records: Vec::new() };
        assert(entries(store.records@) =~= Seq::empty());
        store
    }

    /// Where the log is kept.
    pub fn path(&self) -> (p: &str)
        ensures
            p@ == self.location(),
    {
        self.path.as_str()
    }

    /// How many records the log holds.
    pub fn len(&self) -> (n: usize)
        ensures
            n == self.log().len(),
    {
        self.records.len()
    }

    /// The record at `index`, counted from the oldest.
    pub fn record(&self, index: usize) -> (r: Option<&MessageRecord>)
        ensures
            r is Some <==> index < self.log().len(),
            r matches Some(rec) ==> rec@ == self.log()[index as int],
    {
        if index < self.records.len() {
            Some(&self.records[index])
        } else {
            None
        }
    }

    /// Takes the content of the log from its decoded lines. A line that did not
    /// decode is skipped: the records are those of the lines that did.
    pub fn restore(&mut self, lines: &Vec<Option<MessageRecord>>)
        ensures
            final(self).log() == well_formed(decoded(lines@)),
            final(self).location() == old(self).location(),
    {
        let mut records: Vec<MessageRecord> = Vec::new();
        let mut i: usize = 0;
        assert(decoded(lines@).take(0) =~= Seq::empty());
        assert(entries(records@) =~= Seq::empty());
        while i < lines.len()
            invariant
                i <= lines.len(),
                entries(records@) == well_formed(decoded(lines@).take(i as int)),
            decreases lines.len() - i,
        {
            proof {
                let upto = decoded(lines@).take(i + 1);
                assert(upto.drop_last() =~= decoded(lines@).take(i as int));
                assert(upto.last() == decoded(lines@)[i as int]);
            }
            match &lines[i] {
                Some(r) => {
                    let copy = r.duplicate();
                    assert(entries(records@.push(copy)) =~= entries(records@).push(copy@));
                    records.push(copy);
                },
                None => {},
            }
            i += 1;
        }
        assert(decoded(lines@).take(lines@.len() as int) =~= decoded(lines@));
        self.records = records;
    }

    /// Records one interaction: the user's message, then the assistant's
    /// reply, each with its instant. Whatever the log held before stays as it
    /// was, in front of the two.
    pub fn append_interaction(
        &mut self,
        user: &str,
        assistant: &str,
        at_user: Timestamp,
        at_assistant: Timestamp,
    )
        ensures
            final(self).log() == with_interaction(
                old(self).log(),
                user@,
                assistant@,
                at_user,
                at_assistant,
            ),
            final(self).location() == old(self).location(),
    {
        let u = MessageRecord {
            when: at_user,
            role: String::from_str("user"),
            text: String::from_str(user),
        };
        let a = MessageRecord {
            when: at_assistant,
            role: String::from_str("assistant"),
            text: String::from_str(assistant),
        };
        proof {
            assert(entries(self.records@.push(u).push(a)) =~= entries(self.records@).push(
                u@,
            ).push(a@));
        }
        self.records.push(u);
        self.records.push(a);
    }

    /// The most recent `limit_pairs` pairs of records, oldest first, one line
    /// each, the lines joined by line feeds; the whole log where it holds
    /// fewer, and the empty string where it holds none.
    pub fn recall_recent(&self, limit_pairs: usize) -> (out: String)
        ensures
            out@ == recalled(self.log(), limit_pairs as nat),
    {
        let total: usize = self.records.len();
        let start: usize = if limit_pairs > total / 2 {
            0
        } else if total <= 2 * limit_pairs {
            0
        } else {
            total - 2 * limit_pairs
        };
        let ghost window = recent(self.log(), limit_pairs as nat);
        assert(window =~= self.log().subrange(start as int, total as int));
        let mut out = String::new();
        let mut at: usize = start;
        assert(self.log().subrange(start as int, start as int) =~= Seq::empty());
        while at < total
            invariant
                start <= at <= total,
                total == self.records.len(),
                out@ == rendered_all(self.log().subrange(start as int, at as int)),
            decreases total - at,
        {
            proof {
                let upto = self.log().subrange(start as int, at + 1);
                assert(upto.drop_last() =~= self.log().subrange(start as int, at as int));
                assert(upto.last() == self.records@[at as int]@);
                if at == start {
                    assert(upto.len() == 1);
                    assert(upto[0] == self.records@[at as int]@);
                    assert(Seq::<char>::empty() + rendered(upto[0]) =~= rendered(upto[0]));
                }
            }
            let line = self.records[at].render();
            if at > start {
                out.append("\n");
            }
            out.append(line.as_str());
            at += 1;
        }
        out
    }
}

/// One interaction, as it is handed to the log.
pub struct Interaction {
    pub user: Seq<char>,
    pub assistant: Seq<char>,
    pub at_user: Timestamp,
    pub at_assistant: Timestamp,
}

/// The log after the interactions of `xs`, recorded one after the other.
pub open spec fn with_interactions(log: Seq<Entry>, xs: Seq<Interaction>) -> Seq<Entry>
    decreases xs.len(),
{
    if xs.len() == 0 {
        log
    } else {
        let x = xs.last();
        with_interaction(
            with_interactions(log, xs.drop_last()),
            x.user,
            x.assistant,
            x.at_user,
            x.at_assistant,
        )
    }
}

/// The records that the interactions of `xs` leave: two each, the user's first.
pub open spec fn records_of(xs: Seq<Interaction>) -> Seq<Entry> {
    with_interactions(Seq::empty(), xs)
}

/// The last `count` interactions of `xs`, or all of them where there are fewer.
pub open spec fn latest(xs: Seq<Interaction>, count: nat) -> Seq<Interaction> {
    if xs.len() <= count {
        xs
    } else {
        xs.subrange(xs.len() - count, xs.len() as int)
    }
}

proof fn lemma_interactions_follow_the_log(log: Seq<Entry>, xs: Seq<Interaction>)
    ensures
        with_interactions(log, xs) == log + records_of(xs),
        records_of(xs).len() == 2 * xs.len(),
    decreases xs.len(),
{
    if xs.len() == 0 {
        assert(log + Seq::<Entry>::empty() =~= log);
    } else {
        lemma_interactions_follow_the_log(log, xs.drop_last());
        lemma_interactions_follow_the_log(Seq::empty(), xs.drop_last());
        let x = xs.last();
        let u = user_entry(x.user, x.at_user);
        let a = assistant_entry(x.assistant, x.at_assistant);
        let before = records_of(xs.drop_last());
        assert(Seq::<Entry>::empty() + before =~= before);
        assert((log + before).push(u).push(a) =~= log + before.push(u).push(a));
    }
}

proof fn lemma_records_of_concat(xs: Seq<Interaction>, ys: Seq<Interaction>)
    ensures
        records_of(xs + ys) == records_of(xs) + records_of(ys),
    decreases ys.len(),
{
    if ys.len() == 0 {
        assert(xs + ys =~= xs);
        assert(records_of(xs) + Seq::<Entry>::empty() =~= records_of(xs));
    } else {
        lemma_records_of_concat(xs, ys.drop_last());
        assert((xs + ys).drop_last() =~= xs + ys.drop_last());
        let x = ys.last();
        let u = user_entry(x.user, x.at_user);
        let a = assistant_entry(x.assistant, x.at_assistant);
        assert((records_of(xs) + records_of(ys.drop_last())).push(u).push(a) =~= records_of(xs)
            + records_of(ys.drop_last()).push(u).push(a));
    }
}

/// Recall after a run of interactions shows the latest of them, oldest first,
/// each with its role and its text as they were handed in: the last
/// `limit_pairs` interactions, or all of the run where it is shorter. This holds
/// of a log that was empty before the run, and of any log where the run is at
/// least as long as the window.
pub proof fn recall_shows_latest_interactions_in_order(
    log: Seq<Entry>,
    xs: Seq<Interaction>,
    limit_pairs: nat,
)
    requires
        log.len() == 0 || limit_pairs <= xs.len(),
    ensures
        recalled(with_interactions(log, xs), limit_pairs) == rendered_all(
            records_of(latest(xs, limit_pairs)),
        ),
{
    lemma_interactions_follow_the_log(log, xs);
    let shown = latest(xs, limit_pairs);
    let skipped = xs.subrange(0, xs.len() - shown.len());
    assert(skipped + shown =~= xs);
    lemma_records_of_concat(skipped, shown);
    lemma_interactions_follow_the_log(Seq::empty(), shown);
    lemma_interactions_follow_the_log(Seq::empty(), skipped);
    let all = log + records_of(xs);
    assert(recent(all, limit_pairs) =~= records_of(shown));
}

/// Reading twice gives the same text: what recall returns is fixed by the log
/// and the window, and recall leaves the log as it was.
pub proof fn recall_is_repeatable(store: MemoryStore, limit_pairs: nat, first: Seq<char>, second: Seq<char>)
    requires
        first == recalled(store.log(), limit_pairs),
        second == recalled(store.log(), limit_pairs),
    ensures
        first == second,
{
}

/// A line at the end of the file that does not decode, such as one cut short
/// by a crash, changes nothing: the records before it are read as without it,
/// and recall shows the same text.
pub proof fn broken_last_line_is_skipped(lines: Seq<Option<Entry>>, limit_pairs: nat)
    ensures
        well_formed(lines.push(None)) == well_formed(lines),
        recalled(well_formed(lines.push(None)), limit_pairs) == recalled(
            well_formed(lines),
            limit_pairs,
        ),
{
    assert(lines.push(None).drop_last() =~= lines);
}

proof fn lemma_scan_without_line_feed(b: Seq<u8>, start: int, at: int)
    requires
        0 <= start <= at <= b.len(),
        forall|i: int| at <= i < b.len() ==> b[i] != 10u8,
    ensures
        lines_scan(b, start, at) == if start < b.len() {
            seq![(start, b.len() as int)]
        } else {
            Seq::<(int, int)>::empty()
        },
    decreases b.len() - at,
{
    if at < b.len() {
        lemma_scan_without_line_feed(b, start, at + 1);
    }
}

proof fn lemma_scan_before_cut_tail(content: Seq<u8>, tail: Seq<u8>, start: int, at: int)
    requires
        content.len() == 0 || content.last() == 10u8,
        tail.len() > 0,
        forall|i: int| 0 <= i < tail.len() ==> tail[i] != 10u8,
        0 <= start <= at <= content.len(),
        forall|i: int| start <= i < at ==> content[i] != 10u8,
    ensures
        lines_scan(content + tail, start, at) == lines_scan(content, start, at).push(
            (content.len() as int, (content.len() + tail.len()) as int),
        ),
    decreases content.len() - at,
{
    let whole = content + tail;
    let cut = (content.len() as int, (content.len() + tail.len()) as int);
    if at == content.len() {
        assert(start == content.len()) by {
            if start < content.len() {
                assert(content[content.len() - 1] != 10u8);
            }
        }
        assert forall|i: int| at <= i < whole.len() implies whole[i] != 10u8 by {
            assert(whole[i] == tail[i - content.len()]);
        }
        lemma_scan_without_line_feed(whole, start, at);
        assert(Seq::<(int, int)>::empty().push(cut) =~= seq![cut]);
    } else {
        assert(whole[at] == content[at]);
        if content[at] == 10u8 {
            if start < at {
                assert(whole[at - 1] == content[at - 1]);
            }
            lemma_scan_before_cut_tail(content, tail, at + 1, at + 1);
            let end = if start < at && content[at - 1] == 13u8 {
                at - 1
            } else {
                at
            };
            assert((seq![(start, end)] + lines_scan(content, at + 1, at + 1)).push(cut) =~= seq![
                (start, end),
            ] + lines_scan(content, at + 1, at + 1).push(cut));
        } else {
            lemma_scan_before_cut_tail(content, tail, start, at + 1);
        }
    }
}

/// A line that was cut short is framed as one more line and moves no other:
/// where a file of whole lines is followed by bytes without a line feed, the
/// lines are those of the file, and then the cut one.
pub proof fn cut_tail_is_framed_as_one_more_line(content: Seq<u8>, tail: Seq<u8>)
    requires
        content.len() == 0 || content.last() == 10u8,
        tail.len() > 0,
        forall|i: int| 0 <= i < tail.len() ==> tail[i] != 10u8,
    ensures
        line_ranges(content + tail) == line_ranges(content).push(
            (content.len() as int, (content.len() + tail.len()) as int),
        ),
{
    lemma_scan_before_cut_tail(content, tail, 0, 0);
}

proof fn lemma_scan_before_whole_line(content: Seq<u8>, line: Seq<u8>, start: int, at: int)
    requires
        content.len() == 0 || content.last() == 10u8,
        forall|i: int| 0 <= i < line.len() ==> line[i] != 10u8,
        line.len() == 0 || line.last() != 13u8,
        0 <= start <= at <= content.len(),
        forall|i: int| start <= i < at ==> content[i] != 10u8,
    ensures
        lines_scan(content + line.push(10u8), start, at) == lines_scan(content, start, at).push(
            (content.len() as int, (content.len() + line.len()) as int),
        ),
    decreases content.len() - at,
{
    let whole = content + line.push(10u8);
    let added = (content.len() as int, (content.len() + line.len()) as int);
    if at == content.len() {
        assert(start == content.len()) by {
            if start < content.len() {
                assert(content[content.len() - 1] != 10u8);
            }
        }
        let feed: int = (content.len() + line.len()) as int;
        assert forall|i: int| at <= i < feed implies whole[i] != 10u8 by {
            assert(whole[i] == line[i - content.len()]);
        }
        assert(whole[feed] == 10u8);
        lemma_scan_to_line_feed(whole, start, at, feed);
        if line.len() > 0 {
            assert(whole[feed - 1] == line.last());
        }
        assert(lines_scan(whole, whole.len() as int, whole.len() as int) =~= Seq::empty());
        assert(seq![added] + Seq::<(int, int)>::empty() =~= Seq::<(int, int)>::empty().push(added));
    } else {
        assert(whole[at] == content[at]);
        if content[at] == 10u8 {
            if start < at {
                assert(whole[at - 1] == content[at - 1]);
            }
            lemma_scan_before_whole_line(content, line, at + 1, at + 1);
            let end = if start < at && content[at - 1] == 13u8 {
                at - 1
            } else {
                at
            };
            assert((seq![(start, end)] + lines_scan(content, at + 1, at + 1)).push(added)
                =~= seq![(start, end)] + lines_scan(content, at + 1, at + 1).push(added));
        } else {
            lemma_scan_before_whole_line(content, line, start, at + 1);
        }
    }
}

proof fn lemma_scan_to_line_feed(b: Seq<u8>, start: int, at: int, feed: int)
    requires
        0 <= start <= at <= feed < b.len(),
        forall|i: int| at <= i < feed ==> b[i] != 10u8,
        b[feed] == 10u8,
    ensures
        lines_scan(b, start, at) == seq![
            (
                start,
                if start < feed && b[feed - 1] == 13u8 {
                    feed - 1
                } else {
                    feed
                },
            ),
        ] + lines_scan(b, feed + 1, feed + 1),
    decreases feed - at,
{
    if at < feed {
        lemma_scan_to_line_feed(b, start, at + 1, feed);
    }
}

/// A record that is written after whole lines is read back as one more line
/// and moves no other: where a file of whole lines is followed by a line
/// without line feed or closing carriage return, and a line feed, the lines
/// are those of the file, and then the new one.
pub proof fn whole_line_is_framed_alone(content: Seq<u8>, line: Seq<u8>)
    requires
        content.len() == 0 || content.last() == 10u8,
        forall|i: int| 0 <= i < line.len() ==> line[i] != 10u8,
        line.len() == 0 || line.last() != 13u8,
    ensures
        line_ranges(content + line.push(10u8)) == line_ranges(content).push(
            (content.len() as int, (content.len() + line.len()) as int),
        ),
{
    lemma_scan_before_whole_line(content, line, 0, 0);
}

} // verus!
