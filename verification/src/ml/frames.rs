//! The frame aggregator: the plain mean of the per-frame distributions of
//! one feature.

use vstd::prelude::*;

use crate::ml::error::ClassificationError;

verus! {

/// Class probabilities of one frame, indexed by class ordinal, in
/// millionths.
pub type FrameDistribution = [u32; 5];

/// Sum of component `c` over all frames.
pub open spec fn column_sum(frames: Seq<FrameDistribution>, c: int) -> nat
    decreases frames.len(),
{
    if frames.len() == 0 {
        0
    } else {
        column_sum(frames.drop_last(), c) + frames.last()[c] as nat
    }
}

/// Arithmetic mean of component `c` over all frames, rounded down.
pub open spec fn mean(frames: Seq<FrameDistribution>, c: int) -> nat {
    column_sum(frames, c) / frames.len()
}

/// The elementwise mean of the frames.
pub open spec fn is_mean_of(avg: FrameDistribution, frames: Seq<FrameDistribution>) -> bool {
    forall|c: int| 0 <= c < 5 ==> #[trigger] avg[c] == mean(frames, c)
}

/// No column sum exceeds the largest component times the number of frames.
pub proof fn lemma_column_sum_bounded(frames: Seq<FrameDistribution>, c: int)
    requires
        0 <= c < 5,
    ensures
        column_sum(frames, c) <= frames.len() * 0xffff_ffff,
    decreases frames.len(),
{
    if frames.len() > 0 {
        lemma_column_sum_bounded(frames.drop_last(), c);
        assert(frames.len() * 0xffff_ffff == (frames.len() - 1) * 0xffff_ffff + 0xffff_ffff)
            by (nonlinear_arith);
    }
}

/// When every frame of a feature is the same distribution `d`, the mean of
/// the frames is `d`, whatever their number.
pub proof fn lemma_uniform_mean(frames: Seq<FrameDistribution>, d: FrameDistribution, c: int)
    requires
        frames.len() > 0,
        forall|i: int| 0 <= i < frames.len() ==> frames[i] == d,
        0 <= c < 5,
    ensures
        column_sum(frames, c) == frames.len() * d[c],
        mean(frames, c) == d[c],
    decreases frames.len(),
{
    let n = frames.len() as int;
    let x = d[c] as int;
    if n == 1 {
        assert(column_sum(frames.drop_last(), c) == 0);
    } else {
        lemma_uniform_mean(frames.drop_last(), d, c);
        assert((n - 1) * x + x == n * x) by (nonlinear_arith);
    }
    assert(column_sum(frames, c) == n * x);
    assert((n * x) / n == x) by (nonlinear_arith)
        requires
            n > 0,
    ;
}

/// When every frame of a feature is the same distribution `d`, the average
/// of the frames is `d`, whatever their number.
pub proof fn lemma_uniform_average(
    frames: Seq<FrameDistribution>,
    d: FrameDistribution,
    avg: FrameDistribution,
)
    requires
        frames.len() > 0,
        forall|i: int| 0 <= i < frames.len() ==> frames[i] == d,
        is_mean_of(avg, frames),
    ensures
        avg == d,
{
    assert forall|c: int| 0 <= c < 5 implies avg[c] == d[c] by {
        lemma_uniform_mean(frames, d, c);
    }
    assert(avg =~= d);
}

/// The elementwise arithmetic mean of the frames of one feature. Fails on an
/// empty frame set rather than dividing by zero.
pub fn average(per_frame: &Vec<FrameDistribution>) -> (r: Result<
    FrameDistribution,
    ClassificationError,
>)
    ensures
        per_frame@.len() == 0 ==> r == Err::<FrameDistribution, ClassificationError>(
            ClassificationError::EmptyFrameSet,
        ),
        per_frame@.len() > 0 ==> r is Ok && is_mean_of(r->Ok_0, per_frame@) && r->Ok_0@.len() == 5,
{
    let n: usize = per_frame.len();
    if n == 0 {
        return Err(ClassificationError::EmptyFrameSet);
    }
    let mut sums: [u128; 5] = [0; 5];
    let mut i: usize = 0;
    while i < n
        invariant
            n == per_frame@.len(),
            i <= n,
            forall|c: int| 0 <= c < 5 ==> #[trigger] sums[c] == column_sum(per_frame@.take(i as int), c),
        decreases n - i,
    {
        let frame: FrameDistribution = per_frame[i];
        let ghost before = per_frame@.take(i as int);
        let ghost after = per_frame@.take(i + 1);
        assert(after.drop_last() =~= before);
        assert(after.last() == frame);
        let mut c: usize = 0;
        while c < 5
            invariant
                c <= 5,
                after.len() == i + 1,
                after.drop_last() == before,
                after.last() == frame,
                forall|k: int| 0 <= k < c ==> #[trigger] sums[k] == column_sum(after, k),
                forall|k: int| c <= k < 5 ==> #[trigger] sums[k] == column_sum(before, k),
            decreases 5 - c,
        {
            proof {
                lemma_column_sum_bounded(before, c as int);
                assert(before.len() * 0xffff_ffff <= 0xffff_ffff_ffff_ffff * 0xffff_ffff)
                    by (nonlinear_arith)
                    requires
                        before.len() <= 0xffff_ffff_ffff_ffff,
                ;
            }
            sums[c] = sums[c] + frame[c] as u128;
            c += 1;
        }
        i += 1;
    }
    assert(per_frame@.take(n as int) =~= per_frame@);
    let mut avg: FrameDistribution = [0; 5];
    let mut c: usize = 0;
    while c < 5
        invariant
            c <= 5,
            n == per_frame@.len(),
            n > 0,
            forall|k: int| 0 <= k < 5 ==> #[trigger] sums[k] == column_sum(per_frame@, k),
            forall|k: int| 0 <= k < c ==> #[trigger] avg[k] == mean(per_frame@, k),
        decreases 5 - c,
    {
        proof {
            lemma_column_sum_bounded(per_frame@, c as int);
            let s = sums[c as int] as int;
            let m = n as int;
            assert(s / m <= 0xffff_ffff) by (nonlinear_arith)
                requires
                    m > 0,
                    0 <= s <= m * 0xffff_ffff,
            ;
        }
        let quotient: u128 = sums[c] / (n as u128);
        avg[c] = quotient as u32;
        c += 1;
    }
    Ok(avg)
}

} // verus!
