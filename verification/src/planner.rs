//! Day-planning helpers: cutting a span of time into blocks and removing
//! the blocks that busy events overlap.
//!
//! Instants are plain integers (such as minutes or seconds since an
//! epoch); only their order and differences matter here.
use vstd::prelude::*;

verus! {

/// One block of time to plan: its start, its length and its end.
#[derive(Debug, Clone, Copy, PartialEq, Eq, Structural)]
pub struct TimeBlock {
    pub start_time: i64,
    pub block_duration: i64,
    pub end_time: i64,
}

impl TimeBlock {
    /// A block of `duration` starting at `start`.
    pub fn new(start: i64, duration: i64) -> (r: TimeBlock)
        requires
            i64::MIN <= start + duration,
            start + duration <= i64::MAX,
        ensures
            r.start_time == start,
            r.block_duration == duration,
            r.end_time == start + duration,
    {
        TimeBlock { start_time: start, block_duration: duration, end_time: start + duration }
    }
}

/// Whether an event running from `es` to `ee` overlaps the block: it
/// starts inside it, ends inside it, or covers it whole.
pub open spec fn spec_intersects(block: TimeBlock, es: int, ee: int) -> bool {
    (block.start_time <= es && es < block.end_time) || (block.start_time < ee
        && ee <= block.end_time) || (es <= block.start_time && block.end_time <= ee)
}

/// Decides whether an event running from `es` to `ee` overlaps the
/// block.
pub fn event_intersects_with_timeblock(timeblock: &TimeBlock, es: i64, ee: i64) -> (r: bool)
    ensures
        r == spec_intersects(*timeblock, es as int, ee as int),
{
    (timeblock.start_time <= es && es < timeblock.end_time) || (timeblock.start_time < ee && ee
        <= timeblock.end_time) || (es <= timeblock.start_time && timeblock.end_time <= ee)
}

/// The blocks of `l` that the event running from `es` to `ee` does not
/// overlap, in order.
pub open spec fn spec_outside(l: Seq<TimeBlock>, es: int, ee: int) -> Seq<TimeBlock>
    decreases l.len(),
{
    if l.len() == 0 {
        Seq::empty()
    } else {
        (if spec_intersects(l[0], es, ee) {
            Seq::empty()
        } else {
            seq![l[0]]
        }) + spec_outside(l.drop_first(), es, ee)
    }
}

/// Removes every block that the event running from `es` to `ee`
/// overlaps.
pub fn remove_intersecting_segments(es: i64, ee: i64, timeblocks: Vec<TimeBlock>) -> (r: Vec<
    TimeBlock,
>)
    ensures
        r@ == spec_outside(timeblocks@, es as int, ee as int),
{
    let mut out: Vec<TimeBlock> = Vec::new();
    proof {
        assert(timeblocks@.skip(0) =~= timeblocks@);
    }
    let mut i: usize = 0;
    while i < timeblocks.len()
        invariant
            i <= timeblocks.len(),
            spec_outside(timeblocks@, es as int, ee as int) == out@ + spec_outside(
                timeblocks@.skip(i as int),
                es as int,
                ee as int,
            ),
        decreases timeblocks.len() - i,
    {
        proof {
            assert(timeblocks@.skip(i as int)[0] == timeblocks@[i as int]);
            assert(timeblocks@.skip(i as int).drop_first() =~= timeblocks@.skip(i + 1));
        }
        if !event_intersects_with_timeblock(&timeblocks[i], es, ee) {
            out.push(timeblocks[i]);
        }
        i = i + 1;
    }
    proof {
        assert(timeblocks@.skip(timeblocks@.len() as int).len() == 0);
        assert(out@ =~= spec_outside(timeblocks@, es as int, ee as int));
    }
    out
}

/// Cuts the span from `start_time` to `end_time` into consecutive
/// blocks of `chunk_duration`, as many as fit whole.
pub fn get_timeblocks(start_time: i64, end_time: i64, chunk_duration: i64) -> (r: Vec<TimeBlock>)
    requires
        chunk_duration > 0,
        start_time + chunk_duration <= i64::MAX,
        end_time <= i64::MAX - chunk_duration,
    ensures
        forall|k: int|
            #![trigger r@[k]]
            0 <= k < r@.len() ==> r@[k].start_time == start_time + k * chunk_duration
                && r@[k].block_duration == chunk_duration && r@[k].end_time == start_time + (k
                + 1) * chunk_duration,
        r@.len() > 0 ==> start_time + r@.len() * chunk_duration <= end_time,
        start_time + (r@.len() + 1) * chunk_duration > end_time,
{
    let mut timeblocks: Vec<TimeBlock> = Vec::new();
    let mut current = TimeBlock::new(start_time, chunk_duration);
    proof {
        assert(start_time + 0 * chunk_duration == start_time) by (nonlinear_arith);
        assert(start_time + (0 + 1) * chunk_duration == start_time + chunk_duration)
            by (nonlinear_arith);
    }
    while current.end_time <= end_time
        invariant
            chunk_duration > 0,
            end_time <= i64::MAX - chunk_duration,
            current.block_duration == chunk_duration,
            current.start_time == start_time + timeblocks@.len() * chunk_duration,
            current.end_time == start_time + (timeblocks@.len() + 1) * chunk_duration,
            current.start_time <= i64::MAX - chunk_duration,
            forall|k: int|
                #![trigger timeblocks@[k]]
                0 <= k < timeblocks@.len() ==> timeblocks@[k].start_time == start_time + k
                    * chunk_duration && timeblocks@[k].block_duration == chunk_duration
                    && timeblocks@[k].end_time == start_time + (k + 1) * chunk_duration,
            timeblocks@.len() > 0 ==> start_time + timeblocks@.len() * chunk_duration
                <= end_time,
        decreases end_time - current.start_time,
    {
        timeblocks.push(current);
        let ghost n = timeblocks@.len() as int;
        proof {
            assert((n - 1) * chunk_duration + chunk_duration == n * chunk_duration)
                by (nonlinear_arith);
            assert(n * chunk_duration + chunk_duration == (n + 1) * chunk_duration)
                by (nonlinear_arith);
        }
        current = TimeBlock::new(current.start_time + chunk_duration, chunk_duration);
    }
    timeblocks
}

} // verus!
