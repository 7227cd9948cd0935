//! Planning of reads from the sensor's raw-data FIFO, and the collection of
//! samples from successive reads.
use vstd::prelude::*;

verus! {

/// Register count to request from the sensor FIFO: the raw fill level capped
/// at 123 and rounded down to a whole number of XYZ triplets.
pub open spec fn spec_fifo_read_count(raw: u16) -> nat {
    ((if raw <= 123 { raw as nat } else { 123 }) / 3) * 3
}

pub fn fifo_read_count(raw: u16) -> (count: u16)
    ensures
        count as nat == spec_fifo_read_count(raw),
        count % 3 == 0,
        count <= 123,
        count <= raw,
        count == 0 <==> raw < 3,
        raw >= 123 ==> count == 123,
        (if raw < 123 { raw as int } else { 123 }) < count + 3,
{
    let capped: u16 = if raw < 123 { raw } else { 123 };
    (capped / 3) * 3
}

/// Fill levels at or below this are refreshed without reading data, so that a
/// register left over from an incomplete triplet is never read as a sample.
pub const SIZE_ONLY_THRESHOLD: u16 = 6;

/// The next read from the FIFO.
#[derive(PartialEq, Eq, Structural, Clone, Copy, Debug)]
pub enum FifoRead {
    /// Read only the fill-level register.
    SizeOnly,
    /// Read the fill level and this many data registers in one transaction.
    Combined(u16),
}

pub open spec fn spec_plan_fifo_read(next_count: u16) -> FifoRead {
    if next_count <= 6 {
        FifoRead::SizeOnly
    } else {
        FifoRead::Combined(spec_fifo_read_count(next_count) as u16)
    }
}

/// The read to make when the last reported fill level is `next_count`.
pub fn plan_fifo_read(next_count: u16) -> (r: FifoRead)
    ensures
        r == spec_plan_fifo_read(next_count),
        r matches FifoRead::Combined(c) ==> 6 <= c <= 123 && c % 3 == 0 && c <= next_count,
        next_count > 6 ==> (r matches FifoRead::Combined(c) && (if next_count < 123 {
            next_count as int
        } else {
            123
        }) < c + 3),
{
    if next_count <= SIZE_ONLY_THRESHOLD {
        FifoRead::SizeOnly
    } else {
        FifoRead::Combined(fifo_read_count(next_count))
    }
}

/// Samples collected from the FIFO towards a target count, with the counters
/// that describe the collection so far.
pub struct FifoCollector<T> {
    pub samples: Vec<T>,
    pub target: usize,
    /// Fill level that the sensor last reported.
    pub next_count: u16,
    pub total_errors: u64,
    pub consecutive_errors: u32,
    /// Reads that refreshed only the fill level.
    pub empty_cycles: u64,
}

/// The samples that one read contributes to a collection holding `held` of
/// `target`: all of them while room remains, none past the target.
pub open spec fn taken_from<T>(data: Seq<T>, held: nat, target: nat) -> Seq<T> {
    let room: nat = if held < target { (target - held) as nat } else { 0 };
    if data.len() <= room {
        data
    } else {
        data.subrange(0, room as int)
    }
}

impl<T> FifoCollector<T> {
    pub fn new(target: usize) -> (c: FifoCollector<T>)
        ensures
            c.samples@.len() == 0,
            c.target == target,
            c.next_count == 0,
            c.total_errors == 0,
            c.consecutive_errors == 0,
            c.empty_cycles == 0,
    {
        FifoCollector {
            samples: Vec::new(),
            target,
            next_count: 0,
            total_errors: 0,
            consecutive_errors: 0,
            empty_cycles: 0,
        }
    }

    pub fn is_complete(&self) -> (b: bool)
        ensures
            b == (self.samples@.len() >= self.target),
    {
        self.samples.len() >= self.target
    }

    /// Chooses the next read; a size-only read counts as an empty cycle.
    pub fn next_read(&mut self) -> (r: FifoRead)
        requires
            old(self).empty_cycles < u64::MAX,
        ensures
            r == spec_plan_fifo_read(old(self).next_count),
            r matches FifoRead::Combined(c) ==> 6 <= c <= 123 && c % 3 == 0 && c
                <= old(self).next_count,
            final(self).samples == old(self).samples,
            final(self).target == old(self).target,
            final(self).next_count == old(self).next_count,
            final(self).total_errors == old(self).total_errors,
            final(self).consecutive_errors == old(self).consecutive_errors,
            final(self).empty_cycles == old(self).empty_cycles + (if r == FifoRead::SizeOnly {
                1int
            } else {
                0int
            }),
    {
        let r = plan_fifo_read(self.next_count);
        if r == FifoRead::SizeOnly {
            self.empty_cycles = self.empty_cycles + 1;
        }
        r
    }

    /// A successful read: the reported fill level becomes the next count, the
    /// run of errors ends, and the samples are kept up to the target.
    pub fn on_read(&mut self, new_size: u16, data: Vec<T>) -> (added: usize)
        ensures
            final(self).samples@ == old(self).samples@ + taken_from(
                data@,
                old(self).samples@.len(),
                old(self).target as nat,
            ),
            added == taken_from(data@, old(self).samples@.len(), old(self).target as nat).len(),
            final(self).target == old(self).target,
            final(self).next_count == new_size,
            final(self).total_errors == old(self).total_errors,
            final(self).consecutive_errors == 0,
            final(self).empty_cycles == old(self).empty_cycles,
    {
        let mut data = data;
        let held = self.samples.len();
        let room: usize = if held < self.target { self.target - held } else { 0 };
        if data.len() > room {
            data.truncate(room);
        }
        let added = data.len();
        self.samples.append(&mut data);
        self.next_count = new_size;
        self.consecutive_errors = 0;
        added
    }

    /// A failed read: both error counters grow and the fill level is
    /// forgotten, so the next read refreshes it.
    pub fn on_error(&mut self)
        requires
            old(self).total_errors < u64::MAX,
            old(self).consecutive_errors < u32::MAX,
        ensures
            final(self).samples == old(self).samples,
            final(self).target == old(self).target,
            final(self).next_count == 0,
            final(self).total_errors == old(self).total_errors + 1,
            final(self).consecutive_errors == old(self).consecutive_errors + 1,
            final(self).empty_cycles == old(self).empty_cycles,
    {
        self.total_errors = self.total_errors + 1;
        self.consecutive_errors = self.consecutive_errors + 1;
        self.next_count = 0;
    }
}

/// A collection never holds more samples than its target once it has held no
/// more than that: a read keeps the samples already held, in order, and
/// appends a prefix of the read's data.
pub proof fn lemma_collection_bounded<T>(held: Seq<T>, data: Seq<T>, target: nat)
    requires
        held.len() <= target,
    ensures
        (held + taken_from(data, held.len(), target)).len() <= target,
        (held + taken_from(data, held.len(), target)).subrange(0, held.len() as int) == held,
        taken_from(data, held.len(), target) == data.subrange(
            0,
            taken_from(data, held.len(), target).len() as int,
        ),
        data.len() + held.len() <= target ==> taken_from(data, held.len(), target) == data,
{
    let t = taken_from(data, held.len(), target);
    assert((held + t).subrange(0, held.len() as int) =~= held);
    assert(t =~= data.subrange(0, t.len() as int));
}

/// Positions kept from one batch of samples for the time-domain view: the
/// middle sample, and the last one when the batch has more than one.
pub fn downsample_indices(len: usize) -> (r: Vec<usize>)
    requires
        len >= 1,
    ensures
        len == 1 ==> r@ == seq![0usize],
        len > 1 ==> r@ == seq![len / 2, (len - 1) as usize],
        forall|k: int| 0 <= k < r@.len() ==> #[trigger] r@[k] < len,
{
    let mut r: Vec<usize> = Vec::new();
    r.push(len / 2);
    if len > 1 {
        r.push(len - 1);
    }
    r
}

/// Every combined read the planner chooses is one the sensor accepts and keeps
/// XYZ triplets whole: between 6 and 123 data registers, a multiple of 3, and
/// no more than the reported fill level.
pub proof fn lemma_planned_read_accepted(next_count: u16)
    ensures
        spec_plan_fifo_read(next_count) matches FifoRead::Combined(c) ==> 6 <= c <= 123 && c % 3
            == 0 && c <= next_count,
{
}

/// The count read for a fill level is the largest whole number of triplets
/// that neither the fill level nor the 123-register limit rules out: a
/// multiple of 3, within both, with fewer than 3 of those registers left.
pub proof fn lemma_read_count_is_largest_whole_triplets(raw: u16)
    ensures
        spec_fifo_read_count(raw) % 3 == 0,
        spec_fifo_read_count(raw) <= raw,
        spec_fifo_read_count(raw) <= 123,
        (if raw < 123 { raw as int } else { 123 }) < spec_fifo_read_count(raw) + 3,
{
}

/// Above a fill level of 6 the planner reads, in one combined read, every
/// whole triplet the fill level and the 123-register limit allow; at 6 or
/// below it only refreshes the fill level.
pub proof fn lemma_plan_reads_all_whole_triplets(n: u16)
    ensures
        n <= 6 ==> spec_plan_fifo_read(n) == FifoRead::SizeOnly,
        n > 6 ==> (spec_plan_fifo_read(n) matches FifoRead::Combined(c) && c % 3 == 0 && c <= n
            && c <= 123 && (if n < 123 { n as int } else { 123 }) < c + 3),
{
}

/// A read adds as many of its samples as the target leaves room for, in
/// their order: all of them while they fit, otherwise exactly enough to reach
/// the target.
pub proof fn lemma_read_fills_to_target<T>(data: Seq<T>, held: nat, target: nat)
    ensures
        held + data.len() <= target ==> taken_from(data, held, target) == data,
        held <= target && held + data.len() > target ==> taken_from(data, held, target).len()
            == target - held,
        held >= target ==> taken_from(data, held, target).len() == 0,
        forall|k: int|
            0 <= k < taken_from(data, held, target).len() ==> #[trigger] taken_from(
                data,
                held,
                target,
            )[k] == data[k],
{
}

/// After a failed read the fill level is unknown, so the next read only
/// refreshes it; likewise after any read that reports 6 registers or fewer.
pub proof fn lemma_refresh_after_error_or_small_fill(next_count: u16)
    ensures
        spec_plan_fifo_read(0) == FifoRead::SizeOnly,
        next_count <= 6 ==> spec_plan_fifo_read(next_count) == FifoRead::SizeOnly,
{
}

} // verus!
