//! The lock-guarded telemetry record shared between the ingestion worker
//! and the presentation reader.
//!
//! All mutation happens under the write half of a verified reader-writer
//! lock whose invariant admits only records reachable by applying whole
//! completed lines to the initial record.  A reader therefore never
//! observes a record with some fields from a new line and others from an
//! old one: every observable state is the initial record plus a whole
//! number of atomically committed lines.

use vstd::prelude::*;
use vstd::rwlock::RwLock;
use vstd::rwlock::RwLockPredicate;

use crate::telemetry::{apply_line, decode_line, init_data, Data, DataView};

verus! {

/// The records obtained from the initial record by applying the given
/// completed lines, one atomic step each.
pub open spec fn apply_lines(d: DataView, lines: Seq<Seq<u8>>) -> DataView
    decreases lines.len(),
{
    if lines.len() == 0 {
        d
    } else {
        apply_lines(apply_line(d, lines[0]), lines.drop_first())
    }
}

/// Whether a record is the initial record with some whole number of
/// completed lines applied.
pub open spec fn reachable(d: DataView) -> bool {
    exists|lines: Seq<Seq<u8>>| d == apply_lines(init_data(), lines)
}

/// Applying the lines and then one more line is applying the extended
/// sequence of lines.
pub proof fn lemma_apply_lines_push(d: DataView, lines: Seq<Seq<u8>>, line: Seq<u8>)
    ensures
        apply_lines(d, lines.push(line)) == apply_line(apply_lines(d, lines), line),
    decreases lines.len(),
{
    let lp = lines.push(line);
    assert(apply_lines(d, lp) == apply_lines(apply_line(d, lp[0]), lp.drop_first()));
    if lines.len() == 0 {
        assert(lp[0] == line);
        assert(lp.drop_first() =~~= Seq::<Seq<u8>>::empty());
        assert(apply_lines(apply_line(d, line), lp.drop_first()) == apply_line(d, line));
    } else {
        lemma_apply_lines_push(apply_line(d, lines[0]), lines.drop_first(), line);
        assert(lp[0] == lines[0]);
        assert(lp.drop_first() =~~= lines.drop_first().push(line));
        assert(apply_lines(d, lines) == apply_lines(apply_line(d, lines[0]), lines.drop_first()));
    }
}

/// Law: committing one completed line to a reachable record yields a
/// reachable record, so readers only ever see whole-line states.
pub proof fn lemma_reachable_step(d: DataView, line: Seq<u8>)
    requires
        reachable(d),
    ensures
        reachable(apply_line(d, line)),
{
    let lines = choose|lines: Seq<Seq<u8>>| d == apply_lines(init_data(), lines);
    lemma_apply_lines_push(init_data(), lines, line);
    assert(apply_line(d, line) == apply_lines(init_data(), lines.push(line)));
}

/// Lock predicate: only reachable records may be stored.
pub struct WholeLines;

impl RwLockPredicate<Data> for WholeLines {
    open spec fn inv(self, d: Data) -> bool {
        reachable(d@)
    }
}

/// The mutually-exclusive container for the telemetry record, written by
/// the ingestion side and read by the presentation side.
pub struct TelemetryModel {
    lock: RwLock<Data, WholeLines>,
}

impl TelemetryModel {
    /// A fresh model holding the initial record.
    pub fn new() -> TelemetryModel {
        let d = Data::default();
        proof {
            assert(apply_lines(init_data(), Seq::<Seq<u8>>::empty()) == init_data());
            assert(reachable(d@));
        }
        TelemetryModel { lock: RwLock::new(d, Ghost(WholeLines)) }
    }

    /// Commits one completed line.  The whole decode runs under the write
    /// lock, so the new state becomes visible to readers as a single
    /// atomic unit.
    pub fn ingest(&self, line: &[u8]) {
        let (mut d, handle) = self.lock.acquire_write();
        proof {
            lemma_reachable_step(d@, line@);
        }
        decode_line(&mut d, line);
        handle.release_write(d);
    }

    /// A complete copy of the current record, taken under the read lock.
    /// Whatever the concurrent writer is doing, the copy is the initial
    /// record with a whole number of completed lines applied — never a
    /// half-applied line.
    pub fn snapshot(&self) -> (r: Data)
        ensures
            reachable(r@),
    {
        let handle = self.lock.acquire_read();
        let r = handle.borrow().duplicate();
        handle.release_read();
        r
    }
}

} // verus!
