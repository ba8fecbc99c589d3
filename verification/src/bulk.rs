//! Bulk writes: many register writes in the fewest bus transactions.
//!
//! Every transaction costs a header, so writes to neighbouring registers are
//! cheaper as one transaction than as several. [`BulkWrites`] collects pending
//! writes in any order and [`BulkWrites::generate_commands`] merges each
//! gap-free run of them into a single write transaction.
//!
//! The model of a pending write and of a merged run is a [`Chunk`]. The spec
//! functions [`by_address`] and [`coalesce`] say which runs a set of writes
//! gives; the proof functions at the end of the file say what holds of them.

use vstd::prelude::*;
use vstd::std_specs::convert::IntoSpec;
use crate::codec::{le_bytes, lemma_le_bytes_len, ToLeVec};
use crate::header::{generate_write_header, write_header};
use crate::registers::Writable;

verus! {

// ---------------------------------------------------------------------------
// The model
// ---------------------------------------------------------------------------

/// Bytes that go to consecutive addresses, the first of them to `address`.
///
/// This is the model of one pending write and of one merged run.
pub struct Chunk {
    pub address: u16,
    pub bytes: Seq<u8>,
}

impl Chunk {
    /// The address after the last byte.
    pub open spec fn end(self) -> int {
        self.address + self.bytes.len()
    }

    /// Tells whether a byte of this chunk goes to address `a`.
    pub open spec fn addresses(self, a: int) -> bool {
        self.address <= a < self.end()
    }

    /// Tells whether the two chunks have an address in common.
    pub open spec fn overlaps(self, other: Chunk) -> bool {
        self.address < other.end() && other.address < self.end()
    }

    /// Tells whether this chunk writes every byte of `other` to its address.
    pub open spec fn covers(self, other: Chunk) -> bool {
        &&& self.address <= other.address
        &&& other.end() <= self.end()
        &&& self.bytes.subrange(other.address - self.address, other.end() - self.address)
            == other.bytes
    }

    /// This chunk with `more` bytes behind its last byte.
    pub open spec fn extended(self, more: Seq<u8>) -> Chunk {
        Chunk { address: self.address, bytes: self.bytes + more }
    }

    /// The write transaction that carries this chunk.
    pub open spec fn transaction(self) -> Seq<u8> {
        write_header(self.address) + self.bytes
    }
}

/// Every write carries at least one byte.
pub open spec fn nonempty(writes: Seq<Chunk>) -> bool {
    forall|i: int| 0 <= i < writes.len() ==> (#[trigger] writes[i]).bytes.len() >= 1
}

/// No two writes have an address in common.
pub open spec fn disjoint(writes: Seq<Chunk>) -> bool {
    forall|i: int, j: int|
        0 <= i < writes.len() && 0 <= j < writes.len() && i != j ==> !(
        #[trigger] writes[i]).overlaps(#[trigger] writes[j])
}

/// The writes are in ascending order of address.
pub open spec fn ascending(writes: Seq<Chunk>) -> bool {
    forall|i: int, j: int|
        0 <= i <= j < writes.len() ==> (#[trigger] writes[i]).address <= (
        #[trigger] writes[j]).address
}

/// Each write ends at or before the start of the next.
pub open spec fn chained(writes: Seq<Chunk>) -> bool {
    forall|i: int|
        0 < i < writes.len() ==> writes[i - 1].end() <= (#[trigger] writes[i]).address
}

/// Each run lies strictly below the next, with at least one address between
/// them.
pub open spec fn separated(runs: Seq<Chunk>) -> bool {
    forall|k: int| 0 < k < runs.len() ==> runs[k - 1].end() < (#[trigger] runs[k]).address
}

/// Where a write to `address` goes in an ascending sequence: behind every
/// write that does not start above it.
pub open spec fn position(sorted: Seq<Chunk>, address: u16) -> int
    decreases sorted.len(),
{
    if sorted.len() > 0 && sorted.last().address > address {
        position(sorted.drop_last(), address)
    } else {
        sorted.len() as int
    }
}

/// The writes in ascending order of address.
pub open spec fn by_address(writes: Seq<Chunk>) -> Seq<Chunk>
    decreases writes.len(),
{
    if writes.len() == 0 {
        Seq::empty()
    } else {
        let rest = by_address(writes.drop_first());
        rest.insert(position(rest, writes.first().address), writes.first())
    }
}

/// The runs of an ascending sequence of writes: a write that starts where the
/// one before it ends joins that one's run, any other write starts a run.
pub open spec fn coalesce(sorted: Seq<Chunk>) -> Seq<Chunk>
    decreases sorted.len(),
{
    if sorted.len() == 0 {
        Seq::empty()
    } else {
        let runs = coalesce(sorted.drop_last());
        let next = sorted.last();
        if runs.len() > 0 && runs.last().end() == next.address {
            runs.drop_last().push(runs.last().extended(next.bytes))
        } else {
            runs.push(next)
        }
    }
}

/// The runs that a set of pending writes merges into, in ascending order of
/// address.
pub open spec fn merged(writes: Seq<Chunk>) -> Seq<Chunk> {
    coalesce(by_address(writes))
}

/// The transactions that carry a set of pending writes: one for each run.
pub open spec fn transactions(writes: Seq<Chunk>) -> Seq<Seq<u8>> {
    merged(writes).map_values(|run: Chunk| run.transaction())
}

/// Tells whether `write` lies in a chunk of `plan`, byte for byte.
pub open spec fn lies_in(write: Chunk, plan: Seq<Chunk>) -> bool {
    exists|p: int| 0 <= p < plan.len() && (#[trigger] plan[p]).covers(write)
}

/// Tells whether one of `writes` has a byte for address `a`.
pub open spec fn names(writes: Seq<Chunk>, a: int) -> bool {
    exists|i: int| 0 <= i < writes.len() && (#[trigger] writes[i]).addresses(a)
}

/// Every write lies in a chunk of `plan`.
pub open spec fn covered(writes: Seq<Chunk>, plan: Seq<Chunk>) -> bool {
    forall|i: int| 0 <= i < writes.len() ==> lies_in(#[trigger] writes[i], plan)
}

/// Every address that `plan` writes is named by a write.
pub open spec fn written(plan: Seq<Chunk>, writes: Seq<Chunk>) -> bool {
    forall|p: int, a: int|
        0 <= p < plan.len() && #[trigger] plan[p].addresses(a) ==> names(writes, a)
}

/// Tells whether the chunks of `plan` carry the pending writes and nothing
/// else: every write lies in a chunk of the plan, and every address that the
/// plan writes is named by a pending write.
pub open spec fn carries(plan: Seq<Chunk>, writes: Seq<Chunk>) -> bool {
    covered(writes, plan) && written(plan, writes)
}

// ---------------------------------------------------------------------------
// The coalescer
// ---------------------------------------------------------------------------

/// Why a set of pending writes cannot be scheduled.
#[derive(Debug, Clone, Copy, PartialEq, Eq)]
pub enum BulkError {
    /// Two pending writes have an address in common: one that starts at
    /// `lower` and one that starts at `upper`, which is not below `lower`.
    Overlap { lower: u16, upper: u16 },
}

/// The first place in an ascending sequence at which a write starts before
/// the end of the write before it, as the error that reports it.
pub open spec fn first_overlap(sorted: Seq<Chunk>) -> Option<BulkError>
    decreases sorted.len(),
{
    if sorted.len() < 2 {
        None
    } else {
        let earlier = first_overlap(sorted.drop_last());
        let before = sorted[sorted.len() - 2];
        if earlier is Some {
            earlier
        } else if before.end() > sorted.last().address {
            Some(BulkError::Overlap { lower: before.address, upper: sorted.last().address })
        } else {
            None
        }
    }
}

/// Pending register writes.
pub struct BulkWrites {
    entries: Vec<PendingWrite>,
}

impl View for BulkWrites {
    type V = Seq<Chunk>;

    /// The pending writes, in the order in which they were added.
    closed spec fn view(&self) -> Seq<Chunk> {
        chunks(self.entries@)
    }
}

impl BulkWrites {
    #[verifier::type_invariant]
    spec fn well_formed(self) -> bool {
        bounded(self@)
    }

    /// An empty set of pending writes.
    pub fn new() -> (bulk: Self)
        ensures
            bulk@ == Seq::<Chunk>::empty(),
            nonempty(bulk@),
    {
        let bulk = BulkWrites { entries: Vec::new() };
        assert(bulk@ =~= Seq::<Chunk>::empty());
        bulk
    }

    /// The number of pending writes.
    pub fn len(&self) -> (n: usize)
        ensures
            n == self@.len(),
            nonempty(self@),
    {
        proof {
            use_type_invariant(self);
        }
        self.entries.len()
    }

    /// Adds the write of `slot`'s value to its one-byte register.
    ///
    /// The payload is captured now: a later change of the slot's value does
    /// not reach the pending write.
    pub fn add<S: Writable>(&mut self, slot: &S) where S::Value: Into<u8>
        requires
            slot.slot_size() == 1,
        ensures
            nonempty(final(self)@),
            final(self)@.len() == old(self)@.len() + 1,
            final(self)@.drop_last() == old(self)@,
            final(self)@.last().address == slot.slot_address(),
            final(self)@.last().bytes.len() == slot.slot_size(),
            S::Value::obeys_into_spec() ==> final(self)@.last().bytes == le_bytes(
                slot.slot_value().into_spec() as nat,
                slot.slot_size() as nat,
            ),
    {
        let bits: u8 = slot.write_value().into();
        let payload = bits.to_le_vec();
        proof {
            lemma_le_bytes_len(bits as nat, 1);
            use_type_invariant(&*self);
        }
        let ghost before = self@;
        self.push(slot.write_address(), payload);
        assert(self@.drop_last() =~= before);
    }

    /// Adds the write of `slot`'s value to its two-byte register.
    ///
    /// The payload is captured now: a later change of the slot's value does
    /// not reach the pending write.
    pub fn add_u16<S: Writable>(&mut self, slot: &S) where S::Value: Into<u16>
        requires
            slot.slot_size() == 2,
        ensures
            nonempty(final(self)@),
            final(self)@.len() == old(self)@.len() + 1,
            final(self)@.drop_last() == old(self)@,
            final(self)@.last().address == slot.slot_address(),
            final(self)@.last().bytes.len() == slot.slot_size(),
            S::Value::obeys_into_spec() ==> final(self)@.last().bytes == le_bytes(
                slot.slot_value().into_spec() as nat,
                slot.slot_size() as nat,
            ),
    {
        let bits: u16 = slot.write_value().into();
        let payload = bits.to_le_vec();
        proof {
            lemma_le_bytes_len(bits as nat, 2);
            use_type_invariant(&*self);
        }
        let ghost before = self@;
        self.push(slot.write_address(), payload);
        assert(self@.drop_last() =~= before);
    }

    /// Adds the write of `slot`'s value to its four-byte register.
    ///
    /// The payload is captured now: a later change of the slot's value does
    /// not reach the pending write.
    pub fn add_u32<S: Writable>(&mut self, slot: &S) where S::Value: Into<u32>
        requires
            slot.slot_size() == 4,
        ensures
            nonempty(final(self)@),
            final(self)@.len() == old(self)@.len() + 1,
            final(self)@.drop_last() == old(self)@,
            final(self)@.last().address == slot.slot_address(),
            final(self)@.last().bytes.len() == slot.slot_size(),
            S::Value::obeys_into_spec() ==> final(self)@.last().bytes == le_bytes(
                slot.slot_value().into_spec() as nat,
                slot.slot_size() as nat,
            ),
    {
        let bits: u32 = slot.write_value().into();
        let payload = bits.to_le_vec();
        proof {
            lemma_le_bytes_len(bits as nat, 4);
            use_type_invariant(&*self);
        }
        let ghost before = self@;
        self.push(slot.write_address(), payload);
        assert(self@.drop_last() =~= before);
    }

    /// Adds the write of `slot`'s value to its eight-byte register.
    ///
    /// The payload is captured now: a later change of the slot's value does
    /// not reach the pending write.
    pub fn add_u64<S: Writable>(&mut self, slot: &S) where S::Value: Into<u64>
        requires
            slot.slot_size() == 8,
        ensures
            nonempty(final(self)@),
            final(self)@.len() == old(self)@.len() + 1,
            final(self)@.drop_last() == old(self)@,
            final(self)@.last().address == slot.slot_address(),
            final(self)@.last().bytes.len() == slot.slot_size(),
            S::Value::obeys_into_spec() ==> final(self)@.last().bytes == le_bytes(
                slot.slot_value().into_spec() as nat,
                slot.slot_size() as nat,
            ),
    {
        let bits: u64 = slot.write_value().into();
        let payload = bits.to_le_vec();
        proof {
            lemma_le_bytes_len(bits as nat, 8);
            use_type_invariant(&*self);
        }
        let ghost before = self@;
        self.push(slot.write_address(), payload);
        assert(self@.drop_last() =~= before);
    }

    /// Schedules the pending writes.
    ///
    /// The writes are put in ascending order of address and every gap-free run
    /// of them becomes one write transaction, which starts at the run's lowest
    /// address and carries the payloads of the run in address order. The
    /// transactions come out in ascending order of address; no pending write
    /// gives no transaction.
    ///
    /// Writes that have an address in common cannot be scheduled. The error
    /// then names the first write, in ascending order of address, that starts
    /// before the end of the write before it, and that write.
    ///
    /// Scheduling uses the pending writes up, so that none can be added to a
    /// set that has been scheduled.
    pub fn generate_commands(self) -> (result: Result<Vec<Vec<u8>>, BulkError>)
        ensures
            nonempty(self@),
            match result {
                Ok(commands) => disjoint(self@) && commands.deep_view() == transactions(self@),
                Err(error) => !disjoint(self@) && first_overlap(by_address(self@)) == Some(error),
            },
    {
        proof {
            use_type_invariant(&self);
        }
        let sorted = sort_by_address(self.entries);
        proof {
            let writes = self@;
            let ordered = by_address(writes);
            lemma_by_address_sorts(writes);
            lemma_bounded_permutation(writes, ordered);
            lemma_chained_iff_disjoint(ordered);
            if disjoint(writes) {
                lemma_disjoint_permutation(writes, ordered);
            }
            if disjoint(ordered) {
                lemma_disjoint_permutation(ordered, writes);
            }
        }
        merge_runs(&sorted)
    }

    /// Records the write of `payload` to `address`.
    fn push(&mut self, address: u16, payload: Vec<u8>)
        requires
            1 <= payload@.len() <= 8,
        ensures
            final(self)@ == old(self)@.push(Chunk { address, bytes: payload@ }),
    {
        proof {
            use_type_invariant(&*self);
        }
        let ghost before = self@;
        let mut entries: Vec<PendingWrite> = Vec::new();
        core::mem::swap(&mut self.entries, &mut entries);
        entries.push(PendingWrite { address, payload });
        assert(chunks(entries@) =~= before.push(Chunk { address, bytes: payload@ }));
        core::mem::swap(&mut self.entries, &mut entries);
    }
}

// ---------------------------------------------------------------------------
// Sorting and merging
// ---------------------------------------------------------------------------

/// One pending write.
struct PendingWrite {
    address: u16,
    payload: Vec<u8>,
}

impl View for PendingWrite {
    type V = Chunk;

    closed spec fn view(&self) -> Chunk {
        Chunk { address: self.address, bytes: self.payload@ }
    }
}

/// The models of a sequence of pending writes.
spec fn chunks(entries: Seq<PendingWrite>) -> Seq<Chunk> {
    entries.map_values(|entry: PendingWrite| entry@)
}

/// Every pending write carries between one and eight bytes.
spec fn bounded(writes: Seq<Chunk>) -> bool {
    forall|i: int| 0 <= i < writes.len() ==> 1 <= (#[trigger] writes[i]).bytes.len() <= 8
}

/// The finished transactions and the one under construction carry `runs`.
spec fn carried(commands: Seq<Vec<u8>>, current: Seq<u8>, runs: Seq<Chunk>) -> bool {
    &&& runs.len() == commands.len() + 1
    &&& forall|k: int|
        0 <= k < commands.len() ==> (#[trigger] commands[k])@ == runs[k].transaction()
    &&& current == runs.last().transaction()
}

/// Appends the bytes of `src` to `dst`.
fn append_bytes(dst: &mut Vec<u8>, src: &Vec<u8>)
    ensures
        final(dst)@ == old(dst)@ + src@,
{
    let mut i: usize = 0;
    while i < src.len()
        invariant
            i <= src@.len(),
            dst@ == old(dst)@ + src@.take(i as int),
        decreases src@.len() - i,
    {
        dst.push(src[i]);
        assert(src@.take(i + 1) =~= src@.take(i as int).push(src@[i as int]));
        i = i + 1;
    }
    assert(src@.take(src@.len() as int) =~= src@);
}

/// The write transaction that carries `entry` alone.
fn start_transaction(entry: &PendingWrite) -> (command: Vec<u8>)
    ensures
        command@ == entry@.transaction(),
{
    let header = generate_write_header(entry.address);
    let mut command: Vec<u8> = Vec::new();
    command.push(header[0]);
    command.push(header[1]);
    assert(command@ =~= write_header(entry.address));
    append_bytes(&mut command, &entry.payload);
    command
}

/// Moves `entry` to its position in `sorted`.
fn insert_sorted(sorted: &mut Vec<PendingWrite>, entry: PendingWrite)
    ensures
        chunks(final(sorted)@) == chunks(old(sorted)@).insert(
            position(chunks(old(sorted)@), entry@.address),
            entry@,
        ),
{
    let ghost before = chunks(sorted@);
    let mut pos: usize = sorted.len();
    assert(before.take(pos as int) =~= before);
    while pos > 0 && sorted[pos - 1].address > entry.address
        invariant
            pos <= sorted@.len(),
            sorted@ == old(sorted)@,
            before == chunks(sorted@),
            position(before, entry.address) == position(before.take(pos as int), entry.address),
        decreases pos,
    {
        assert(before.take(pos as int).last() == sorted@[pos - 1]@);
        assert(before.take(pos as int).drop_last() =~= before.take(pos - 1));
        pos = pos - 1;
    }
    proof {
        let front = before.take(pos as int);
        if pos > 0 {
            assert(front.last() == sorted@[pos - 1]@);
        }
        assert(position(front, entry.address) == pos);
    }
    sorted.insert(pos, entry);
    assert(chunks(sorted@) =~= before.insert(pos as int, entry@));
}

/// Sorts pending writes by address.
fn sort_by_address(entries: Vec<PendingWrite>) -> (sorted: Vec<PendingWrite>)
    ensures
        chunks(sorted@) == by_address(chunks(entries@)),
{
    let ghost all = chunks(entries@);
    let mut pending = entries;
    let mut sorted: Vec<PendingWrite> = Vec::new();
    assert(all.skip(all.len() as int) =~= Seq::<Chunk>::empty());
    assert(chunks(sorted@) =~= Seq::<Chunk>::empty());
    while pending.len() > 0
        invariant
            pending@.len() <= all.len(),
            chunks(pending@) == all.take(pending@.len() as int),
            chunks(sorted@) == by_address(all.skip(pending@.len() as int)),
        decreases pending@.len(),
    {
        let ghost n = pending@.len() as int;
        let entry = pending.pop().unwrap();
        proof {
            let tail = all.skip(n - 1);
            assert(entry@ == all.take(n)[n - 1]);
            assert(tail.first() == all[n - 1]);
            assert(tail.drop_first() =~= all.skip(n));
            assert(chunks(pending@) =~= all.take(n - 1));
        }
        insert_sorted(&mut sorted, entry);
    }
    assert(all.skip(0) =~= all);
    sorted
}

/// Merges pending writes, given in ascending order of address, into one
/// transaction for each run. Fails at the first write that starts before the
/// end of the write before it.
fn merge_runs(sorted: &Vec<PendingWrite>) -> (result: Result<Vec<Vec<u8>>, BulkError>)
    requires
        bounded(chunks(sorted@)),
    ensures
        match result {
            Ok(commands) => {
                &&& chained(chunks(sorted@))
                &&& commands.deep_view() == coalesce(chunks(sorted@)).map_values(
                    |run: Chunk| run.transaction(),
                )
            },
            Err(error) => {
                &&& !chained(chunks(sorted@))
                &&& first_overlap(chunks(sorted@)) == Some(error)
            },
        },
{
    let ghost writes = chunks(sorted@);
    let n = sorted.len();
    let mut commands: Vec<Vec<u8>> = Vec::new();
    if n == 0 {
        assert(commands.deep_view() =~= coalesce(writes).map_values(
            |run: Chunk| run.transaction(),
        ));
        return Ok(commands);
    }
    proof {
        assert(1 <= writes[0].bytes.len() <= 8);
        assert(writes[0] == sorted@[0]@);
        lemma_coalesce_first(writes);
    }
    let mut current = start_transaction(&sorted[0]);
    let mut last: u16 = sorted[0].address;
    let mut end: u32 = last as u32 + sorted[0].payload.len() as u32;
    let mut i: usize = 1;
    while i < n
        invariant
            1 <= i <= n,
            n == sorted@.len(),
            writes == chunks(sorted@),
            bounded(writes),
            chained(writes.take(i as int)),
            carried(commands@, current@, coalesce(writes.take(i as int))),
            last == writes[i - 1].address,
            end == writes[i - 1].end(),
        decreases n - i,
    {
        let entry = &sorted[i];
        let start: u32 = entry.address as u32;
        proof {
            assert(1 <= writes[i as int].bytes.len() <= 8);
            assert(writes[i as int] == entry@);
            lemma_coalesce_step(writes, i as int);
        }
        if start < end {
            proof {
                assert(writes[i - 1].end() > writes[i as int].address);
                lemma_first_overlap_step(writes, i as int);
            }
            return Err(BulkError::Overlap { lower: last, upper: entry.address });
        }
        proof {
            lemma_chained_step(writes, i as int);
        }
        if start == end {
            proof {
                lemma_carried_extend(
                    commands@,
                    current@,
                    coalesce(writes.take(i as int)),
                    entry@.bytes,
                );
            }
            append_bytes(&mut current, &entry.payload);
        } else {
            proof {
                lemma_carried_start(commands@, current, coalesce(writes.take(i as int)), entry@);
            }
            commands.push(current);
            current = start_transaction(entry);
        }
        last = entry.address;
        end = start + entry.payload.len() as u32;
        i = i + 1;
    }
    let ghost done = commands@;
    commands.push(current);
    proof {
        assert(writes.take(n as int) =~= writes);
        lemma_carried_finish(commands, done, current, coalesce(writes));
    }
    Ok(commands)
}

// ---------------------------------------------------------------------------
// Lemmas
// ---------------------------------------------------------------------------

/// A part of a sequence of writes keeps what holds of every write and of
/// every pair of writes.
proof fn lemma_drop_last_keeps(writes: Seq<Chunk>)
    requires
        writes.len() > 0,
    ensures
        nonempty(writes) ==> nonempty(writes.drop_last()),
        ascending(writes) ==> ascending(writes.drop_last()),
        disjoint(writes) ==> disjoint(writes.drop_last()),
        chained(writes) ==> chained(writes.drop_last()),
{
    let front = writes.drop_last();
    if nonempty(writes) {
        assert forall|i: int| 0 <= i < front.len() implies (#[trigger] front[i]).bytes.len()
            >= 1 by {
            assert(front[i] == writes[i]);
        }
    }
    if ascending(writes) {
        assert forall|i: int, j: int| 0 <= i <= j < front.len() implies (
        #[trigger] front[i]).address <= (#[trigger] front[j]).address by {
            assert(front[i] == writes[i] && front[j] == writes[j]);
        }
    }
    if disjoint(writes) {
        assert forall|i: int, j: int|
            0 <= i < front.len() && 0 <= j < front.len() && i != j implies !(
        #[trigger] front[i]).overlaps(#[trigger] front[j]) by {
            assert(front[i] == writes[i] && front[j] == writes[j]);
        }
    }
    if chained(writes) {
        assert forall|i: int| 0 < i < front.len() implies front[i - 1].end() <= (
        #[trigger] front[i]).address by {
            assert(front[i] == writes[i] && front[i - 1] == writes[i - 1]);
        }
    }
}

/// A position lies inside the sequence or at its end.
proof fn lemma_position_bounds(sorted: Seq<Chunk>, address: u16)
    ensures
        0 <= position(sorted, address) <= sorted.len(),
    decreases sorted.len(),
{
    if sorted.len() > 0 && sorted.last().address > address {
        lemma_position_bounds(sorted.drop_last(), address);
    }
}

/// In an ascending sequence, the writes before the position of `address` start
/// at or below it and the writes from the position on start above it.
proof fn lemma_position_splits(sorted: Seq<Chunk>, address: u16)
    requires
        ascending(sorted),
    ensures
        forall|i: int|
            0 <= i < position(sorted, address) ==> (#[trigger] sorted[i]).address <= address,
        forall|i: int|
            position(sorted, address) <= i < sorted.len() ==> (#[trigger] sorted[i]).address
                > address,
    decreases sorted.len(),
{
    if sorted.len() > 0 && sorted.last().address > address {
        let front = sorted.drop_last();
        lemma_drop_last_keeps(sorted);
        lemma_position_splits(front, address);
        lemma_position_bounds(front, address);
        assert forall|i: int| 0 <= i < position(sorted, address) implies (
        #[trigger] sorted[i]).address <= address by {
            assert(sorted[i] == front[i]);
        }
        assert forall|i: int| position(sorted, address) <= i < sorted.len() implies (
        #[trigger] sorted[i]).address > address by {
            if i < front.len() {
                assert(sorted[i] == front[i]);
            }
        }
    } else {
        assert forall|i: int| 0 <= i < sorted.len() implies (#[trigger] sorted[i]).address
            <= address by {
            assert(sorted[i].address <= sorted[sorted.len() - 1].address);
        }
    }
}

/// Putting a write at its position keeps an ascending sequence ascending.
proof fn lemma_insert_keeps_ascending(sorted: Seq<Chunk>, write: Chunk)
    requires
        ascending(sorted),
    ensures
        ascending(sorted.insert(position(sorted, write.address), write)),
{
    let p = position(sorted, write.address);
    let grown = sorted.insert(p, write);
    lemma_position_bounds(sorted, write.address);
    lemma_position_splits(sorted, write.address);
    sorted.insert_ensures(p, write);
    assert forall|i: int, j: int| 0 <= i <= j < grown.len() implies (#[trigger] grown[i]).address
        <= (#[trigger] grown[j]).address by {
        if i < p {
            assert(grown[i] == sorted[i]);
        } else if i > p {
            assert(grown[i] == sorted[i - 1]);
        }
        if j < p {
            assert(grown[j] == sorted[j]);
        } else if j > p {
            assert(grown[j] == sorted[j - 1]);
        }
    }
}

/// Two sequences that hold each write equally often hold the same writes.
proof fn lemma_permutation_holds_same(a: Seq<Chunk>, b: Seq<Chunk>)
    requires
        a.to_multiset() == b.to_multiset(),
    ensures
        forall|write: Chunk| a.contains(write) <==> b.contains(write),
{
    assert forall|write: Chunk| a.contains(write) <==> b.contains(write) by {
        vstd::seq_lib::to_multiset_contains(a, write);
        vstd::seq_lib::to_multiset_contains(b, write);
    }
}

/// A bound on the payload sizes holds of every order of the writes.
proof fn lemma_bounded_permutation(a: Seq<Chunk>, b: Seq<Chunk>)
    requires
        a.to_multiset() == b.to_multiset(),
    ensures
        bounded(a) ==> bounded(b),
        nonempty(a) ==> nonempty(b),
{
    lemma_permutation_holds_same(a, b);
    assert forall|i: int| 0 <= i < b.len() implies a.contains(#[trigger] b[i]) by {
        assert(b.contains(b[i]));
    }
    if bounded(a) {
        assert forall|i: int| 0 <= i < b.len() implies 1 <= (#[trigger] b[i]).bytes.len() <= 8 by {
            let k = choose|k: int| 0 <= k < a.len() && a[k] == b[i];
            assert(1 <= a[k].bytes.len() <= 8);
        }
    }
    if nonempty(a) {
        assert forall|i: int| 0 <= i < b.len() implies (#[trigger] b[i]).bytes.len() >= 1 by {
            let k = choose|k: int| 0 <= k < a.len() && a[k] == b[i];
            assert(a[k].bytes.len() >= 1);
        }
    }
}

/// The last run of a non-empty sequence ends where the last write ends.
proof fn lemma_coalesce_end(sorted: Seq<Chunk>)
    requires
        sorted.len() > 0,
    ensures
        coalesce(sorted).len() > 0,
        coalesce(sorted).last().end() == sorted.last().end(),
{
}

/// A single write is a run of its own.
proof fn lemma_coalesce_first(writes: Seq<Chunk>)
    requires
        writes.len() > 0,
    ensures
        coalesce(writes.take(1)) == seq![writes[0]],
{
    reveal_with_fuel(coalesce, 2);
    assert(writes.take(1).drop_last() =~= Seq::<Chunk>::empty());
    assert(writes.take(1).last() == writes[0]);
    assert(coalesce(writes.take(1)) =~= seq![writes[0]]);
}

/// The runs of the first `i + 1` writes, from the runs of the first `i`.
proof fn lemma_coalesce_step(writes: Seq<Chunk>, i: int)
    requires
        0 < i < writes.len(),
    ensures
        coalesce(writes.take(i)).len() > 0,
        coalesce(writes.take(i)).last().end() == writes[i - 1].end(),
        coalesce(writes.take(i + 1)) == if writes[i - 1].end() == writes[i].address {
            coalesce(writes.take(i)).drop_last().push(
                coalesce(writes.take(i)).last().extended(writes[i].bytes),
            )
        } else {
            coalesce(writes.take(i)).push(writes[i])
        },
{
    assert(writes.take(i + 1).drop_last() =~= writes.take(i));
    assert(writes.take(i + 1).last() == writes[i]);
    assert(writes.take(i).last() == writes[i - 1]);
    lemma_coalesce_end(writes.take(i));
}

/// Extending a chained prefix by a write that starts at or after the end of
/// the write before it keeps the prefix chained.
proof fn lemma_chained_step(writes: Seq<Chunk>, i: int)
    requires
        0 < i < writes.len(),
        chained(writes.take(i)),
        writes[i - 1].end() <= writes[i].address,
    ensures
        chained(writes.take(i + 1)),
{
    assert forall|k: int| 0 < k < i + 1 implies writes.take(i + 1)[k - 1].end() <= (
    #[trigger] writes.take(i + 1)[k]).address by {
        if k < i {
            assert(writes.take(i)[k - 1].end() <= writes.take(i)[k].address);
        }
    }
}

/// Appending a payload to the transaction under construction extends the last
/// run by that payload.
proof fn lemma_carried_extend(
    commands: Seq<Vec<u8>>,
    current: Seq<u8>,
    runs: Seq<Chunk>,
    bytes: Seq<u8>,
)
    requires
        carried(commands, current, runs),
    ensures
        carried(commands, current + bytes, runs.drop_last().push(runs.last().extended(bytes))),
{
    let last = runs.last().extended(bytes);
    let grown = runs.drop_last().push(last);
    assert(current + bytes =~= last.transaction());
    assert forall|k: int| 0 <= k < commands.len() implies (#[trigger] commands[k])@
        == grown[k].transaction() by {
        assert(grown[k] == runs[k]);
    }
}

/// Finishing the transaction under construction and starting one for `next`
/// adds `next` as a run.
proof fn lemma_carried_start(
    commands: Seq<Vec<u8>>,
    current: Vec<u8>,
    runs: Seq<Chunk>,
    next: Chunk,
)
    requires
        carried(commands, current@, runs),
    ensures
        carried(commands.push(current), next.transaction(), runs.push(next)),
{
    let grown = runs.push(next);
    let done = commands.push(current);
    assert forall|k: int| 0 <= k < done.len() implies (#[trigger] done[k])@
        == grown[k].transaction() by {
        if k < commands.len() {
            assert(done[k] == commands[k]);
        }
        assert(grown[k] == runs[k]);
    }
}

/// Once the last transaction is finished, the transactions are those of the
/// runs.
proof fn lemma_carried_finish(
    commands: Vec<Vec<u8>>,
    done: Seq<Vec<u8>>,
    current: Vec<u8>,
    runs: Seq<Chunk>,
)
    requires
        carried(done, current@, runs),
        commands@ == done.push(current),
    ensures
        commands.deep_view() == runs.map_values(|run: Chunk| run.transaction()),
{
    let expected = runs.map_values(|run: Chunk| run.transaction());
    assert(commands.deep_view().len() == expected.len());
    assert forall|k: int| 0 <= k < expected.len() implies commands.deep_view()[k]
        == expected[k] by {
        if k < done.len() {
            assert(commands@[k] == done[k]);
        }
        assert(commands@[k].deep_view() =~= commands@[k]@);
    }
    assert(commands.deep_view() =~= expected);
}

/// An ascending sequence has no first overlap exactly when each write ends at
/// or before the start of the next.
proof fn lemma_first_overlap_none(sorted: Seq<Chunk>)
    ensures
        first_overlap(sorted) is None <==> chained(sorted),
    decreases sorted.len(),
{
    if sorted.len() >= 2 {
        let front = sorted.drop_last();
        lemma_first_overlap_none(front);
        assert(front[front.len() - 1] == sorted[sorted.len() - 2]);
        if chained(sorted) {
            lemma_drop_last_keeps(sorted);
            assert(sorted[sorted.len() - 2].end() <= sorted[sorted.len() - 1].address);
        }
        if first_overlap(sorted) is None {
            assert forall|i: int| 0 < i < sorted.len() implies sorted[i - 1].end() <= (
            #[trigger] sorted[i]).address by {
                if i < front.len() {
                    assert(front[i - 1].end() <= front[i].address);
                }
            }
        }
    }
}

/// The first overlap of a part of a sequence, where it has one, is the first
/// overlap of the whole.
proof fn lemma_first_overlap_prefix(sorted: Seq<Chunk>, n: int)
    requires
        0 <= n <= sorted.len(),
        first_overlap(sorted.take(n)) is Some,
    ensures
        first_overlap(sorted) == first_overlap(sorted.take(n)),
    decreases sorted.len() - n,
{
    if n < sorted.len() {
        assert(sorted.take(n + 1).drop_last() =~= sorted.take(n));
        lemma_first_overlap_prefix(sorted, n + 1);
    } else {
        assert(sorted.take(n) =~= sorted);
    }
}

/// A write that starts before the end of the write before it, while no
/// earlier write does, is the first overlap.
proof fn lemma_first_overlap_step(sorted: Seq<Chunk>, i: int)
    requires
        0 < i < sorted.len(),
        chained(sorted.take(i)),
        sorted[i - 1].end() > sorted[i].address,
    ensures
        first_overlap(sorted) == Some(
            BulkError::Overlap { lower: sorted[i - 1].address, upper: sorted[i].address },
        ),
{
    let front = sorted.take(i);
    let part = sorted.take(i + 1);
    let found = BulkError::Overlap { lower: sorted[i - 1].address, upper: sorted[i].address };
    assert(first_overlap(front) is None) by {
        lemma_first_overlap_none(front);
    }
    assert(first_overlap(part) == Some(found)) by {
        assert(part.drop_last() == front) by {
            assert(part.drop_last() =~= front);
        }
        assert(part[part.len() - 2] == sorted[i - 1]);
        assert(part.last() == sorted[i]);
    }
    assert(first_overlap(sorted) == first_overlap(part)) by {
        lemma_first_overlap_prefix(sorted, i + 1);
    }
}

/// Where a sequence has a first overlap, it lies between two neighbours.
proof fn lemma_first_overlap_index(sorted: Seq<Chunk>) -> (k: int)
    requires
        first_overlap(sorted) is Some,
    ensures
        0 < k < sorted.len(),
        sorted[k - 1].end() > sorted[k].address,
        first_overlap(sorted) == Some(
            BulkError::Overlap { lower: sorted[k - 1].address, upper: sorted[k].address },
        ),
    decreases sorted.len(),
{
    let front = sorted.drop_last();
    if first_overlap(front) is Some {
        let k = lemma_first_overlap_index(front);
        assert(front[k] == sorted[k] && front[k - 1] == sorted[k - 1]);
        k
    } else {
        sorted.len() - 1
    }
}

/// The writes are in ascending order of address, carry a byte each and do not
/// overlap.
#[verifier::opaque]
spec fn orderly(writes: Seq<Chunk>) -> bool {
    ascending(writes) && nonempty(writes) && disjoint(writes)
}

/// The two sequences hold the same writes.
#[verifier::opaque]
spec fn same_writes(x: Seq<Chunk>, y: Seq<Chunk>) -> bool {
    forall|write: Chunk| x.contains(write) <==> y.contains(write)
}

/// In an orderly sequence every write starts above the writes before it.
proof fn lemma_orderly_strict(writes: Seq<Chunk>, i: int, j: int)
    requires
        orderly(writes),
        0 <= i < j < writes.len(),
    ensures
        writes[i].address < writes[j].address,
{
    reveal(orderly);
    assert(writes[i].address <= writes[j].address);
    assert(!writes[i].overlaps(writes[j]));
    assert(writes[i].bytes.len() >= 1 && writes[j].bytes.len() >= 1);
}

/// An orderly sequence without its last write is orderly.
proof fn lemma_orderly_drop_last(writes: Seq<Chunk>)
    requires
        orderly(writes),
        writes.len() > 0,
    ensures
        orderly(writes.drop_last()),
{
    reveal(orderly);
    lemma_drop_last_keeps(writes);
}

/// Where two sequences hold the same writes, each write of the one is found
/// in the other.
proof fn lemma_same_writes_find(x: Seq<Chunk>, y: Seq<Chunk>, i: int) -> (j: int)
    requires
        same_writes(x, y),
        0 <= i < x.len(),
    ensures
        0 <= j < y.len(),
        y[j] == x[i],
{
    reveal(same_writes);
    assert(x.contains(x[i]));
    assert(y.contains(x[i]));
    choose|j: int| 0 <= j < y.len() && y[j] == x[i]
}

/// Holding the same writes does not depend on which sequence is named first.
proof fn lemma_same_writes_symmetric(x: Seq<Chunk>, y: Seq<Chunk>)
    requires
        same_writes(x, y),
    ensures
        same_writes(y, x),
{
    reveal(same_writes);
}

/// Two orderly sequences that hold the same writes and end in the same write
/// hold the same writes before it.
proof fn lemma_same_writes_drop_last(x: Seq<Chunk>, y: Seq<Chunk>)
    requires
        orderly(x),
        orderly(y),
        same_writes(x, y),
        x.len() > 0,
        y.len() > 0,
        x.last() == y.last(),
    ensures
        same_writes(x.drop_last(), y.drop_last()),
{
    let fx = x.drop_last();
    let fy = y.drop_last();
    lemma_same_writes_symmetric(x, y);
    assert forall|write: Chunk| fx.contains(write) implies fy.contains(write) by {
        let a = choose|a: int| 0 <= a < fx.len() && fx[a] == write;
        assert(x[a] == write);
        let b = lemma_same_writes_find(x, y, a);
        if b == y.len() - 1 {
            lemma_orderly_strict(x, a, x.len() - 1);
        }
        assert(fy[b] == write);
    }
    assert forall|write: Chunk| fy.contains(write) implies fx.contains(write) by {
        let b = choose|b: int| 0 <= b < fy.len() && fy[b] == write;
        assert(y[b] == write);
        let a = lemma_same_writes_find(y, x, b);
        if a == x.len() - 1 {
            lemma_orderly_strict(y, b, y.len() - 1);
        }
        assert(fx[a] == write);
    }
    assert(same_writes(fx, fy)) by {
        reveal(same_writes);
    }
}

/// Two orderly sequences that hold the same writes are equal.
proof fn lemma_orderly_unique(x: Seq<Chunk>, y: Seq<Chunk>)
    requires
        orderly(x),
        orderly(y),
        same_writes(x, y),
    ensures
        x == y,
    decreases x.len(),
{
    lemma_same_writes_symmetric(x, y);
    if x.len() == 0 {
        if y.len() > 0 {
            let i = lemma_same_writes_find(y, x, 0);
        }
        assert(x =~= y);
    } else {
        let at_y = lemma_same_writes_find(x, y, x.len() - 1);
        let at_x = lemma_same_writes_find(y, x, y.len() - 1);
        if at_x < x.len() - 1 {
            lemma_orderly_strict(x, at_x, x.len() - 1);
            if at_y < y.len() - 1 {
                lemma_orderly_strict(y, at_y, y.len() - 1);
            }
        }
        assert(x.last() == y.last());
        lemma_orderly_drop_last(x);
        lemma_orderly_drop_last(y);
        lemma_same_writes_drop_last(x, y);
        lemma_orderly_unique(x.drop_last(), y.drop_last());
        assert(x =~= x.drop_last().push(x.last()));
        assert(y =~= y.drop_last().push(y.last()));
    }
}

/// A run that is extended at its end still covers what it covered.
proof fn lemma_covers_prefix(run: Chunk, write: Chunk, more: Seq<u8>)
    requires
        run.covers(write),
    ensures
        run.extended(more).covers(write),
{
    let grown = run.extended(more);
    let from = write.address - run.address;
    let to = write.end() - run.address;
    assert(grown.bytes.subrange(from, to) =~= run.bytes.subrange(from, to));
}

/// A run that is extended by a write that starts at its end covers that write.
proof fn lemma_covers_suffix(run: Chunk, write: Chunk)
    requires
        run.end() == write.address,
    ensures
        run.extended(write.bytes).covers(write),
{
    let grown = run.extended(write.bytes);
    let from = write.address - run.address;
    let to = write.end() - run.address;
    assert(grown.bytes.subrange(from, to) =~= write.bytes);
}

/// Every write lies in a run after the last run is extended by a write.
proof fn lemma_covered_extend(front: Seq<Chunk>, before: Seq<Chunk>, next: Chunk)
    requires
        covered(front, before),
        before.len() > 0,
        before.last().end() == next.address,
    ensures
        covered(front.push(next), before.drop_last().push(before.last().extended(next.bytes))),
{
    let last = before.last();
    let big = last.extended(next.bytes);
    let runs = before.drop_last().push(big);
    let writes = front.push(next);
    assert forall|i: int| 0 <= i < writes.len() implies lies_in(#[trigger] writes[i], runs) by {
        if i < front.len() {
            assert(writes[i] == front[i]);
            assert(lies_in(front[i], before));
            let k = choose|k: int| 0 <= k < before.len() && (#[trigger] before[k]).covers(front[i]);
            if k < before.len() - 1 {
                assert(runs[k] == before[k]);
            } else {
                lemma_covers_prefix(last, front[i], next.bytes);
                assert(runs[k] == big);
            }
            assert(runs[k].covers(writes[i]));
        } else {
            lemma_covers_suffix(last, next);
            assert(runs[runs.len() - 1] == big);
            assert(runs[runs.len() - 1].covers(writes[i]));
        }
    }
}

/// Every write lies in a run after a write starts a run of its own.
proof fn lemma_covered_start(front: Seq<Chunk>, before: Seq<Chunk>, next: Chunk)
    requires
        covered(front, before),
    ensures
        covered(front.push(next), before.push(next)),
{
    let runs = before.push(next);
    let writes = front.push(next);
    assert forall|i: int| 0 <= i < writes.len() implies lies_in(#[trigger] writes[i], runs) by {
        if i < front.len() {
            assert(writes[i] == front[i]);
            assert(lies_in(front[i], before));
            let k = choose|k: int| 0 <= k < before.len() && (#[trigger] before[k]).covers(front[i]);
            assert(runs[k] == before[k]);
            assert(runs[k].covers(writes[i]));
        } else {
            assert(next.bytes.subrange(0, next.bytes.len() as int) =~= next.bytes);
            assert(runs[runs.len() - 1] == next);
            assert(runs[runs.len() - 1].covers(writes[i]));
        }
    }
}

/// Every address of a run is named by a write after the last run is extended
/// by a write.
proof fn lemma_written_extend(front: Seq<Chunk>, before: Seq<Chunk>, next: Chunk)
    requires
        written(before, front),
        before.len() > 0,
        before.last().end() == next.address,
    ensures
        written(before.drop_last().push(before.last().extended(next.bytes)), front.push(next)),
{
    let last = before.last();
    let big = last.extended(next.bytes);
    let runs = before.drop_last().push(big);
    let writes = front.push(next);
    assert forall|k: int, a: int|
        0 <= k < runs.len() && #[trigger] runs[k].addresses(a) implies names(writes, a) by {
        if k < runs.len() - 1 || a < last.end() {
            if k < runs.len() - 1 {
                assert(runs[k] == before[k]);
            }
            assert(before[k].addresses(a));
            assert(names(front, a));
            let i = choose|i: int| 0 <= i < front.len() && (#[trigger] front[i]).addresses(a);
            assert(writes[i] == front[i]);
            assert(writes[i].addresses(a));
        } else {
            assert(writes[writes.len() - 1] == next);
            assert(writes[writes.len() - 1].addresses(a));
        }
    }
}

/// Every address of a run is named by a write after a write starts a run of
/// its own.
proof fn lemma_written_start(front: Seq<Chunk>, before: Seq<Chunk>, next: Chunk)
    requires
        written(before, front),
    ensures
        written(before.push(next), front.push(next)),
{
    let runs = before.push(next);
    let writes = front.push(next);
    assert forall|k: int, a: int|
        0 <= k < runs.len() && #[trigger] runs[k].addresses(a) implies names(writes, a) by {
        if k < runs.len() - 1 {
            assert(runs[k] == before[k]);
            assert(before[k].addresses(a));
            assert(names(front, a));
            let i = choose|i: int| 0 <= i < front.len() && (#[trigger] front[i]).addresses(a);
            assert(writes[i] == front[i]);
            assert(writes[i].addresses(a));
        } else {
            assert(writes[writes.len() - 1] == next);
            assert(writes[writes.len() - 1].addresses(a));
        }
    }
}

/// The runs of writes of which each ends at or before the start of the next
/// are separated and carry at least one byte each where the writes do.
proof fn lemma_runs_of_chained_are_separated(sorted: Seq<Chunk>)
    requires
        chained(sorted),
    ensures
        separated(coalesce(sorted)),
        nonempty(sorted) ==> nonempty(coalesce(sorted)),
    decreases sorted.len(),
{
    let runs = coalesce(sorted);
    if sorted.len() > 0 {
        let front = sorted.drop_last();
        let before = coalesce(front);
        lemma_drop_last_keeps(sorted);
        lemma_runs_of_chained_are_separated(front);
        if front.len() > 0 {
            lemma_coalesce_end(front);
            assert(front.last() == sorted[sorted.len() - 2]);
            assert(sorted[sorted.len() - 2].end() <= sorted[sorted.len() - 1].address);
        }
        assert forall|k: int| 0 < k < runs.len() implies runs[k - 1].end() < (
        #[trigger] runs[k]).address by {
            assert(runs[k - 1] == before[k - 1]);
            if k < before.len() {
                assert(runs[k].address == before[k].address);
            }
        }
        if nonempty(sorted) {
            assert(sorted[sorted.len() - 1].bytes.len() >= 1);
            assert forall|k: int| 0 <= k < runs.len() implies (#[trigger] runs[k]).bytes.len()
                >= 1 by {
                if k < runs.len() - 1 {
                    assert(runs[k] == before[k]);
                }
            }
        }
    }
}

/// The runs of an ascending sequence of writes carry the writes and nothing
/// else.
proof fn lemma_runs_carry(sorted: Seq<Chunk>)
    ensures
        carries(coalesce(sorted), sorted),
    decreases sorted.len(),
{
    if sorted.len() > 0 {
        let front = sorted.drop_last();
        let before = coalesce(front);
        let next = sorted.last();
        lemma_runs_carry(front);
        assert(sorted =~= front.push(next));
        if before.len() > 0 && before.last().end() == next.address {
            lemma_covered_extend(front, before, next);
            lemma_written_extend(front, before, next);
        } else {
            lemma_covered_start(front, before, next);
            lemma_written_start(front, before, next);
        }
    }
}

/// A run ends below the start of every later run.
proof fn lemma_separated_far(runs: Seq<Chunk>, low: int, high: int)
    requires
        separated(runs),
        0 <= low < high < runs.len(),
    ensures
        runs[low].end() < runs[high].address,
    decreases high - low,
{
    if low + 1 < high {
        lemma_separated_far(runs, low, high - 1);
        assert(runs[high - 1].end() < runs[high].address);
    } else {
        assert(runs[high - 1].end() < runs[high].address);
    }
}

/// The writes in ascending order of address, where the writes do not overlap:
/// none overlaps the next, and they are the same writes.
proof fn lemma_by_address_of_disjoint(writes: Seq<Chunk>)
    requires
        nonempty(writes),
        disjoint(writes),
    ensures
        ascending(by_address(writes)),
        nonempty(by_address(writes)),
        chained(by_address(writes)),
        forall|write: Chunk| writes.contains(write) <==> by_address(writes).contains(write),
{
    let sorted = by_address(writes);
    lemma_by_address_sorts(writes);
    lemma_bounded_permutation(writes, sorted);
    lemma_disjoint_permutation(writes, sorted);
    lemma_chained_iff_disjoint(sorted);
    lemma_permutation_holds_same(writes, sorted);
}

// ---------------------------------------------------------------------------
// What holds of the runs
// ---------------------------------------------------------------------------

/// `by_address` gives an ascending sequence that holds each write as often as
/// the sequence it was given.
pub proof fn lemma_by_address_sorts(writes: Seq<Chunk>)
    ensures
        ascending(by_address(writes)),
        by_address(writes).to_multiset() == writes.to_multiset(),
        by_address(writes).len() == writes.len(),
    decreases writes.len(),
{
    broadcast use vstd::seq_lib::group_to_multiset_ensures;

    if writes.len() > 0 {
        let rest = by_address(writes.drop_first());
        let first = writes.first();
        let p = position(rest, first.address);
        lemma_by_address_sorts(writes.drop_first());
        lemma_position_bounds(rest, first.address);
        lemma_insert_keeps_ascending(rest, first);
        vstd::seq_lib::to_multiset_insert(rest, p, first);
        assert(writes.drop_first() == writes.remove(0));
        vstd::seq_lib::to_multiset_remove(writes, 0);
        assert(writes.to_multiset() =~= writes.drop_first().to_multiset().insert(first));
        rest.insert_ensures(p, first);
    }
}

/// Writes that do not overlap do not overlap in any order.
pub proof fn lemma_disjoint_permutation(a: Seq<Chunk>, b: Seq<Chunk>)
    requires
        a.to_multiset() == b.to_multiset(),
        nonempty(a),
        disjoint(a),
    ensures
        disjoint(b),
{
    assert(a.no_duplicates()) by {
        assert forall|i: int, j: int| 0 <= i < a.len() && 0 <= j < a.len() && i != j implies a[i]
            != a[j] by {
            assert(!a[i].overlaps(a[j]));
            assert(a[i].bytes.len() >= 1);
        }
    }
    a.lemma_multiset_has_no_duplicates();
    b.lemma_multiset_has_no_duplicates_conv();
    lemma_permutation_holds_same(a, b);
    assert forall|i: int, j: int| 0 <= i < b.len() && 0 <= j < b.len() && i != j implies !(
    #[trigger] b[i]).overlaps(#[trigger] b[j]) by {
        assert(b.contains(b[i]) && b.contains(b[j]));
        let ai = choose|k: int| 0 <= k < a.len() && a[k] == b[i];
        let aj = choose|k: int| 0 <= k < a.len() && a[k] == b[j];
        assert(b[i] != b[j]);
        assert(!a[ai].overlaps(a[aj]));
    }
}

/// In ascending order, writes overlap nowhere exactly when none overlaps the
/// next.
pub proof fn lemma_chained_iff_disjoint(sorted: Seq<Chunk>)
    requires
        ascending(sorted),
        nonempty(sorted),
    ensures
        chained(sorted) <==> disjoint(sorted),
{
    if chained(sorted) {
        assert forall|i: int, j: int|
            0 <= i < sorted.len() && 0 <= j < sorted.len() && i != j implies !(
        #[trigger] sorted[i]).overlaps(#[trigger] sorted[j]) by {
            if i < j {
                assert(sorted[i].end() <= sorted[i + 1].address);
                assert(sorted[i + 1].address <= sorted[j].address);
            } else {
                assert(sorted[j].end() <= sorted[j + 1].address);
                assert(sorted[j + 1].address <= sorted[i].address);
            }
        }
    }
    if disjoint(sorted) {
        assert forall|i: int| 0 < i < sorted.len() implies sorted[i - 1].end() <= (
        #[trigger] sorted[i]).address by {
            assert(!sorted[i - 1].overlaps(sorted[i]));
            assert(sorted[i - 1].address <= sorted[i].address);
            assert(sorted[i].bytes.len() >= 1);
        }
    }
}

/// The order in which writes are added does not matter: two sequences that
/// hold the same non-overlapping writes, each as often as the other, merge
/// into the same runs and give the same transactions.
pub proof fn lemma_order_independent(a: Seq<Chunk>, b: Seq<Chunk>)
    requires
        a.to_multiset() == b.to_multiset(),
        nonempty(a),
        disjoint(a),
    ensures
        disjoint(b),
        by_address(a) == by_address(b),
        merged(a) == merged(b),
        transactions(a) == transactions(b),
{
    let x = by_address(a);
    let y = by_address(b);
    lemma_disjoint_permutation(a, b);
    lemma_bounded_permutation(a, b);
    lemma_by_address_sorts(a);
    lemma_by_address_sorts(b);
    lemma_bounded_permutation(a, x);
    lemma_bounded_permutation(b, y);
    lemma_disjoint_permutation(a, x);
    lemma_disjoint_permutation(b, y);
    assert(orderly(x) && orderly(y)) by {
        reveal(orderly);
    }
    assert(same_writes(x, y)) by {
        reveal(same_writes);
        lemma_permutation_holds_same(x, y);
    }
    lemma_orderly_unique(x, y);
}

/// The runs of non-overlapping writes come in ascending order of address and
/// no run touches the next: between two runs lies an address that no write
/// names.
pub proof fn lemma_runs_are_separated(writes: Seq<Chunk>)
    requires
        nonempty(writes),
        disjoint(writes),
    ensures
        separated(merged(writes)),
{
    lemma_by_address_of_disjoint(writes);
    lemma_runs_of_chained_are_separated(by_address(writes));
}

/// Every pending write is carried by one of the runs.
pub proof fn lemma_write_is_covered(writes: Seq<Chunk>, i: int) -> (k: int)
    requires
        nonempty(writes),
        disjoint(writes),
        0 <= i < writes.len(),
    ensures
        0 <= k < merged(writes).len(),
        merged(writes)[k].covers(writes[i]),
{
    let sorted = by_address(writes);
    lemma_by_address_of_disjoint(writes);
    lemma_runs_carry(sorted);
    assert(writes.contains(writes[i]));
    assert(sorted.contains(writes[i]));
    let p = choose|p: int| 0 <= p < sorted.len() && sorted[p] == writes[i];
    assert(lies_in(sorted[p], coalesce(sorted)));
    let k = choose|k: int|
        0 <= k < coalesce(sorted).len() && (#[trigger] coalesce(sorted)[k]).covers(sorted[p]);
    k
}

/// Every address that a run writes is named by a pending write.
pub proof fn lemma_run_address_is_written(writes: Seq<Chunk>, k: int, a: int) -> (i: int)
    requires
        nonempty(writes),
        disjoint(writes),
        0 <= k < merged(writes).len(),
        merged(writes)[k].addresses(a),
    ensures
        0 <= i < writes.len(),
        writes[i].addresses(a),
{
    let sorted = by_address(writes);
    lemma_by_address_of_disjoint(writes);
    lemma_runs_carry(sorted);
    assert(coalesce(sorted)[k].addresses(a));
    assert(names(sorted, a));
    let p = choose|p: int| 0 <= p < sorted.len() && (#[trigger] sorted[p]).addresses(a);
    assert(sorted.contains(sorted[p]));
    assert(writes.contains(sorted[p]));
    let i = choose|i: int| 0 <= i < writes.len() && writes[i] == sorted[p];
    i
}

/// The runs of non-overlapping writes carry at least one byte each.
pub proof fn lemma_runs_are_nonempty(writes: Seq<Chunk>)
    requires
        nonempty(writes),
        disjoint(writes),
    ensures
        nonempty(merged(writes)),
{
    lemma_by_address_of_disjoint(writes);
    lemma_runs_of_chained_are_separated(by_address(writes));
}

/// The runs carry the pending writes and nothing else.
pub proof fn lemma_merged_carries(writes: Seq<Chunk>)
    requires
        nonempty(writes),
        disjoint(writes),
    ensures
        carries(merged(writes), writes),
{
    let runs = merged(writes);
    assert forall|i: int| 0 <= i < writes.len() implies lies_in(#[trigger] writes[i], runs) by {
        let k = lemma_write_is_covered(writes, i);
        assert(runs[k].covers(writes[i]));
    }
    assert forall|p: int, a: int|
        0 <= p < runs.len() && #[trigger] runs[p].addresses(a) implies names(writes, a) by {
        let i = lemma_run_address_is_written(writes, p, a);
        assert(writes[i].addresses(a));
    }
}

/// No pending write names the address at which a run ends.
proof fn lemma_run_end_is_free(writes: Seq<Chunk>, k: int, m: int)
    requires
        nonempty(writes),
        disjoint(writes),
        0 <= k < merged(writes).len(),
        0 <= m < writes.len(),
    ensures
        !writes[m].addresses(merged(writes)[k].end()),
{
    let runs = merged(writes);
    let gap = runs[k].end();
    if writes[m].addresses(gap) {
        let r = lemma_write_is_covered(writes, m);
        lemma_runs_are_separated(writes);
        assert(runs[r].addresses(gap));
        if r < k {
            lemma_separated_far(runs, r, k);
        } else if k < r {
            lemma_separated_far(runs, k, r);
        }
    }
}

/// A function that maps the numbers below `n` to different numbers below `m`
/// shows that `n` is at most `m`.
proof fn lemma_injection_bound(n: int, m: int, f: spec_fn(int) -> int)
    requires
        0 <= n,
        0 <= m,
        forall|k: int| 0 <= k < n ==> 0 <= #[trigger] f(k) < m,
        forall|k: int, l: int| 0 <= k < l < n ==> #[trigger] f(k) != #[trigger] f(l),
    ensures
        n <= m,
{
    let below_n = vstd::set_lib::set_int_range(0, n);
    let below_m = vstd::set_lib::set_int_range(0, m);
    let image = below_n.map(f);
    vstd::set_lib::lemma_int_range(0, n);
    vstd::set_lib::lemma_int_range(0, m);
    assert(vstd::relations::injective_on(f, below_n)) by {
        assert forall|x1: int, x2: int|
            below_n.contains(x1) && below_n.contains(x2) && #[trigger] f(x1) == #[trigger] f(
                x2,
            ) implies x1 == x2 by {
            if x1 < x2 {
                assert(f(x1) != f(x2));
            } else if x2 < x1 {
                assert(f(x2) != f(x1));
            }
        }
    }
    vstd::set_lib::lemma_map_size(below_n, image, f);
    assert(image.subset_of(below_m)) by {
        assert forall|y: int| image.contains(y) implies below_m.contains(y) by {
            let x = choose|x: int| below_n.contains(x) && f(x) == y;
            assert(0 <= f(x) < m);
        }
    }
    vstd::set_lib::lemma_len_subset(image, below_m);
}

/// No plan that carries the pending writes and nothing else has fewer chunks
/// than there are runs: the transactions of the runs are the fewest that write
/// every byte to its address.
pub proof fn lemma_merged_is_minimal(writes: Seq<Chunk>, plan: Seq<Chunk>)
    requires
        nonempty(writes),
        disjoint(writes),
        carries(plan, writes),
    ensures
        merged(writes).len() <= plan.len(),
{
    let runs = merged(writes);
    let home = |k: int|
        choose|p: int| 0 <= p < plan.len() && plan[p].addresses(runs[k].address as int);
    lemma_runs_are_nonempty(writes);
    lemma_runs_are_separated(writes);
    assert forall|k: int| 0 <= k < runs.len() implies 0 <= #[trigger] home(k) < plan.len()
        && plan[home(k)].addresses(runs[k].address as int) by {
        assert(runs[k].bytes.len() >= 1);
        assert(runs[k].addresses(runs[k].address as int));
        let i = lemma_run_address_is_written(writes, k, runs[k].address as int);
        assert(lies_in(writes[i], plan));
        let p = choose|p: int| 0 <= p < plan.len() && (#[trigger] plan[p]).covers(writes[i]);
        assert(plan[p].addresses(runs[k].address as int));
    }
    assert forall|k: int, l: int| 0 <= k < l < runs.len() implies #[trigger] home(k)
        != #[trigger] home(l) by {
        if home(k) == home(l) {
            let p = home(k);
            let gap = runs[k].end();
            lemma_separated_far(runs, k, l);
            assert(plan[p].addresses(runs[k].address as int));
            assert(plan[p].addresses(runs[l].address as int));
            assert(plan[p].addresses(gap));
            assert(names(writes, gap));
            let m = choose|m: int| 0 <= m < writes.len() && (#[trigger] writes[m]).addresses(gap);
            lemma_run_end_is_free(writes, k, m);
        }
    }
    lemma_injection_bound(runs.len() as int, plan.len() as int, home);
}

/// Two writes of which one starts where the other ends are carried by the
/// same run, and so by the same transaction.
pub proof fn lemma_adjacent_writes_share_run(writes: Seq<Chunk>, i: int, j: int) -> (k: int)
    requires
        nonempty(writes),
        disjoint(writes),
        0 <= i < writes.len(),
        0 <= j < writes.len(),
        writes[i].end() == writes[j].address,
    ensures
        0 <= k < merged(writes).len(),
        merged(writes)[k].covers(writes[i]),
        merged(writes)[k].covers(writes[j]),
{
    let runs = merged(writes);
    let ki = lemma_write_is_covered(writes, i);
    let kj = lemma_write_is_covered(writes, j);
    lemma_runs_are_separated(writes);
    assert(writes[i].bytes.len() >= 1 && writes[j].bytes.len() >= 1);
    if ki < kj {
        lemma_separated_far(runs, ki, kj);
    } else if kj < ki {
        lemma_separated_far(runs, kj, ki);
    }
    ki
}

/// Two writes with an address between them that no pending write names are
/// carried by different runs, and so by different transactions.
pub proof fn lemma_separated_writes_use_different_runs(
    writes: Seq<Chunk>,
    i: int,
    j: int,
    gap: int,
)
    requires
        nonempty(writes),
        disjoint(writes),
        0 <= i < writes.len(),
        0 <= j < writes.len(),
        writes[i].end() <= gap < writes[j].address,
        forall|m: int| 0 <= m < writes.len() ==> !(#[trigger] writes[m]).addresses(gap),
    ensures
        forall|k: int|
            0 <= k < merged(writes).len() ==> !((#[trigger] merged(writes)[k]).covers(writes[i])
                && merged(writes)[k].covers(writes[j])),
{
    let runs = merged(writes);
    assert forall|k: int| 0 <= k < runs.len() implies !((#[trigger] runs[k]).covers(writes[i])
        && runs[k].covers(writes[j])) by {
        if runs[k].covers(writes[i]) && runs[k].covers(writes[j]) {
            assert(writes[i].bytes.len() >= 1 && writes[j].bytes.len() >= 1);
            assert(runs[k].addresses(gap));
            let m = lemma_run_address_is_written(writes, k, gap);
        }
    }
}

/// The error names an overlap that is there: two different pending writes
/// that start at the two addresses and have an address in common.
pub proof fn lemma_overlap_is_real(writes: Seq<Chunk>) -> (pair: (int, int))
    requires
        nonempty(writes),
        first_overlap(by_address(writes)) is Some,
    ensures
        0 <= pair.0 < writes.len(),
        0 <= pair.1 < writes.len(),
        pair.0 != pair.1,
        writes[pair.0].overlaps(writes[pair.1]),
        writes[pair.0].address <= writes[pair.1].address,
        first_overlap(by_address(writes)) == Some(
            BulkError::Overlap {
                lower: writes[pair.0].address,
                upper: writes[pair.1].address,
            },
        ),
{
    let sorted = by_address(writes);
    lemma_by_address_sorts(writes);
    lemma_bounded_permutation(writes, sorted);
    lemma_permutation_holds_same(writes, sorted);
    let k = lemma_first_overlap_index(sorted);
    let low = sorted[k - 1];
    let high = sorted[k];
    assert(low.address <= high.address);
    assert(low.bytes.len() >= 1 && high.bytes.len() >= 1);
    assert(sorted.contains(low) && sorted.contains(high));
    let i = choose|i: int| 0 <= i < writes.len() && writes[i] == low;
    if low == high {
        // The write occurs twice in address order, so it was added twice.
        let rest = writes.remove(i);
        let others = sorted.remove(k);
        vstd::seq_lib::to_multiset_remove(writes, i);
        vstd::seq_lib::to_multiset_remove(sorted, k);
        assert(others[k - 1] == low);
        assert(others.contains(low));
        lemma_permutation_holds_same(rest, others);
        let m = choose|m: int| 0 <= m < rest.len() && rest[m] == low;
        let j = if m < i {
            m
        } else {
            m + 1
        };
        assert(writes[j] == rest[m]);
        (i, j)
    } else {
        let j = choose|j: int| 0 <= j < writes.len() && writes[j] == high;
        (i, j)
    }
}

} // verus!
