//! The append-only audit log.
//!
//! Every non-empty line received from the device — classifiable or not —
//! produces exactly one timestamped record, appended before the sample is
//! made visible downstream. The log only ever grows; a record is never
//! rewritten.

use vstd::prelude::*;
use crate::clock::Timestamp;
use crate::timefmt::format_timestamp;
use crate::timefmt::lemma_timestamp_chars_injective;
use crate::timefmt::timestamp_chars;

verus! {

/// One audit record: the formatted timestamp, a separator, the line as
/// received, and a newline.
pub open spec fn record_chars(ts: Timestamp, line: Seq<char>) -> Seq<char> {
    timestamp_chars(ts) + seq![':', ' '] + line + seq!['\n']
}

/// Render one audit record.
pub fn format_record(ts: &Timestamp, line: &str) -> (s: String)
    requires
        ts.valid(),
    ensures
        s@ == record_chars(*ts, line@),
{
    let mut s = format_timestamp(ts);
    s.append(": ");
    s.append(line);
    s.append("\n");
    proof {
        reveal_strlit(": ");
        reveal_strlit("\n");
        assert(s@ =~= record_chars(*ts, line@));
    }
    s
}

/// The audit records in arrival order.
pub struct AuditLog {
    records: Vec<String>,
}

impl View for AuditLog {
    type V = Seq<Seq<char>>;

    closed spec fn view(&self) -> Seq<Seq<char>> {
        self.records@.map_values(|r: String| r@)
    }
}

impl AuditLog {
    /// An empty log.
    pub fn new() -> (log: AuditLog)
        ensures
            log@ == Seq::<Seq<char>>::empty(),
    {
        let log = AuditLog { records: Vec::new() };
        proof {
            assert(log@ =~= Seq::<Seq<char>>::empty());
        }
        log
    }

    /// Append one record for a received line. Everything already logged
    /// stays exactly as it was.
    pub fn append(&mut self, ts: &Timestamp, line: &str)
        requires
            ts.valid(),
        ensures
            final(self)@ == old(self)@.push(record_chars(*ts, line@)),
    {
        let rec = format_record(ts, line);
        self.records.push(rec);
        proof {
            assert(self@ =~= old(self)@.push(record_chars(*ts, line@)));
        }
    }

    /// How many records the log holds.
    pub fn len(&self) -> (n: usize)
        ensures
            n == self@.len(),
    {
        self.records.len()
    }

    /// Read a record back, for the collaborator that persists the log.
    pub fn record_at(&self, i: usize) -> (r: &String)
        requires
            i < self@.len(),
        ensures
            r@ == self@[i as int],
    {
        &self.records[i]
    }
}

/// Logging the same line under two timestamps gives records that share the
/// line part verbatim and are distinct exactly when the formatted
/// timestamps are distinct: repeated lines differ only by timestamp.
pub proof fn lemma_records_differ_only_by_timestamp(
    ts1: Timestamp,
    ts2: Timestamp,
    line: Seq<char>,
)
    ensures
        (record_chars(ts1, line) == record_chars(ts2, line)) <==> (timestamp_chars(ts1)
            == timestamp_chars(ts2)),
{
    let r1 = record_chars(ts1, line);
    let r2 = record_chars(ts2, line);
    let t1 = timestamp_chars(ts1);
    let t2 = timestamp_chars(ts2);
    if t1 == t2 {
        assert(r1 =~= r2);
    }
    if r1 == r2 {
        assert(seq![':', ' '].len() == 2 && seq!['\n'].len() == 1);
        assert(r1.len() == t1.len() + line.len() + 3);
        assert(r2.len() == t2.len() + line.len() + 3);
        assert(t1.len() == t2.len());
        assert(t1 =~= r1.subrange(0, t1.len() as int));
        assert(t2 =~= r2.subrange(0, t2.len() as int));
    }
}

/// Logging the same line under two valid timestamps gives the same record
/// exactly when the timestamps are the same instant: the records of a
/// repeated line are distinct whenever their timestamps are.
pub proof fn lemma_repeated_line_records_distinct(ts1: Timestamp, ts2: Timestamp, line: Seq<char>)
    requires
        ts1.valid(),
        ts2.valid(),
    ensures
        (record_chars(ts1, line) == record_chars(ts2, line)) <==> (ts1 == ts2),
{
    lemma_records_differ_only_by_timestamp(ts1, ts2, line);
    if record_chars(ts1, line) == record_chars(ts2, line) {
        lemma_timestamp_chars_injective(ts1, ts2);
    }
}

} // verus!
