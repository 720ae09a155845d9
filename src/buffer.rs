//! The padded mono sample buffer of one channel.
use vstd::prelude::*;

verus! {

/// Mono value of one stereo frame: the mean of both sides, rounded down.
pub open spec fn mid(l: i32, r: i32) -> int {
    (l as int + r as int) / 2
}

/// The padded buffer for `stereo` with window size `b`: `2b` zeros, the
/// mid-mixed samples, then `2b` zeros.
pub open spec fn padded_mix(stereo: Seq<(i32, i32)>, b: nat) -> Seq<i32> {
    Seq::new(
        4 * b + stereo.len(),
        |j: int|
            if 2 * b <= j < 2 * b + stereo.len() {
                mid(stereo[j - 2 * b].0, stereo[j - 2 * b].1) as i32
            } else {
                0i32
            },
    )
}

/// The mean of the two sides of a stereo frame, rounded down (so that the
/// sign of the exact mean is kept).
pub fn mid_mix(l: i32, r: i32) -> (m: i32)
    ensures
        m as int == mid(l, r),
{
    let s: i64 = l as i64 + r as i64;
    if s >= 0 {
        (s / 2) as i32
    } else {
        let h: i64 = (1 - s) / 2;
        (0 - h) as i32
    }
}

/// Builds the padded mono buffer of a channel from its stereo samples.
pub fn padded_buffer(stereo: &[(i32, i32)], b: usize) -> (buf: Vec<i32>)
    requires
        4 * b + stereo@.len() <= usize::MAX,
    ensures
        buf@ == padded_mix(stereo@, b as nat),
{
    let n = stereo.len();
    let ghost target = padded_mix(stereo@, b as nat);
    let mut buf: Vec<i32> = Vec::new();
    let mut j: usize = 0;
    while j < 2 * b
        invariant
            j <= 2 * b,
            4 * b + n <= usize::MAX,
            n == stereo@.len(),
            target == padded_mix(stereo@, b as nat),
            buf@ == target.take(j as int),
        decreases 2 * b - j,
    {
        buf.push(0);
        j += 1;
        assert(buf@ =~= target.take(j as int));
    }
    let mut i: usize = 0;
    while i < n
        invariant
            i <= n,
            4 * b + n <= usize::MAX,
            n == stereo@.len(),
            target == padded_mix(stereo@, b as nat),
            buf@ == target.take(2 * b + i),
        decreases n - i,
    {
        let (l, r) = stereo[i];
        buf.push(mid_mix(l, r));
        i += 1;
        assert(buf@ =~= target.take(2 * b + i));
    }
    let mut j: usize = 0;
    while j < 2 * b
        invariant
            j <= 2 * b,
            4 * b + n <= usize::MAX,
            n == stereo@.len(),
            target == padded_mix(stereo@, b as nat),
            buf@ == target.take(2 * b + n + j),
        decreases 2 * b - j,
    {
        buf.push(0);
        j += 1;
        assert(buf@ =~= target.take(2 * b + n + j));
    }
    assert(buf@ =~= target);
    buf
}

/// The buffer holds the mid-mixed input after `2b` zeros, and zeros on both
/// sides of it.
pub proof fn lemma_padded_mix_layout(stereo: Seq<(i32, i32)>, b: nat)
    ensures
        padded_mix(stereo, b).len() == 4 * b + stereo.len(),
        forall|i: int|
            0 <= i < stereo.len() ==> #[trigger] padded_mix(stereo, b)[2 * b + i] == mid(
                stereo[i].0,
                stereo[i].1,
            ),
        forall|j: int|
            0 <= j < padded_mix(stereo, b).len() && (j < 2 * b || j >= 2 * b + stereo.len())
                ==> #[trigger] padded_mix(stereo, b)[j] == 0,
{
    assert forall|i: int| 0 <= i < stereo.len() implies #[trigger] padded_mix(stereo, b)[2 * b
        + i] == mid(stereo[i].0, stereo[i].1) by {
        let m = mid(stereo[i].0, stereo[i].1);
        assert(i32::MIN <= m <= i32::MAX);
    }
}

} // verus!
