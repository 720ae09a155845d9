//! Per-frame window selection: for every video frame, the right edge of the
//! window whose shape best matches the previous frame's window.
use vstd::arithmetic::div_mod::lemma_fundamental_div_mod;
use vstd::prelude::*;

verus! {

/// Search radius, in samples, below the nominal cursor.
pub const SEARCH_RADIUS: usize = 800;

/// The entries of an index table, as integers.
pub open spec fn as_ints(v: Seq<usize>) -> Seq<int> {
    v.map_values(|i: usize| i as int)
}

/// `x` is a positive-going zero crossing of `buf`.
pub open spec fn is_crossing(buf: Seq<i32>, x: int) -> bool {
    1 <= x < buf.len() && buf[x] >= 0 && buf[x - 1] < 0
}

/// Absolute difference of two samples.
pub open spec fn sample_distance(a: i32, b: i32) -> int {
    if a >= b {
        a - b
    } else {
        b - a
    }
}

/// Time-domain distance between the `n` samples before `p` and the `n`
/// samples before `x`: the sum over `j` in `1..=n` of `|buf[p-j] - buf[x-j]|`.
pub open spec fn window_distance(buf: Seq<i32>, p: int, x: int, n: nat) -> int
    decreases n,
{
    if n == 0 {
        0
    } else {
        window_distance(buf, p, x, (n - 1) as nat) + sample_distance(buf[p - n], buf[x - n])
    }
}

/// The crossing in `lo..=hi` whose window is closest to the one before `p`;
/// candidates are taken from `hi` downward and a later one wins only with a
/// strictly smaller distance, so ties go to the larger position.
pub open spec fn best_crossing(buf: Seq<i32>, b: nat, p: int, lo: int, hi: int) -> Option<int>
    decreases hi - lo + 1,
{
    if lo > hi {
        None
    } else {
        let rest = best_crossing(buf, b, p, lo + 1, hi);
        if !is_crossing(buf, lo) {
            rest
        } else {
            match rest {
                None => Some(lo),
                Some(y) => if window_distance(buf, p, lo, b) < window_distance(buf, p, y, b) {
                    Some(lo)
                } else {
                    rest
                },
            }
        }
    }
}

/// Lowest position searched below cursor `c`: `c - (r - 1)`, or zero.
pub open spec fn window_low(c: int, r: nat) -> int {
    if c + 1 >= r {
        c + 1 - r
    } else {
        0
    }
}

/// The position chosen at cursor `c` after `p`: the best crossing in the
/// search window, or the cursor itself when there is none.
pub open spec fn next_position(buf: Seq<i32>, b: nat, r: nat, p: int, c: int) -> int {
    match best_crossing(buf, b, p, window_low(c, r), c) {
        Some(x) => x,
        None => c,
    }
}

/// `v` clamped to `lo..=hi`.
pub open spec fn clamp(v: int, lo: int, hi: int) -> int {
    if v < lo {
        lo
    } else if v > hi {
        hi
    } else {
        v
    }
}

/// The nominal cursor of frame `k`: `2b + floor(k * s / f)`.
pub open spec fn cursor(b: nat, s: nat, f: nat, k: nat) -> int {
    (2 * b) as int + ((k * s) as int) / (f as int)
}

/// Number of frames whose cursor lies inside a buffer of `len` samples.
pub open spec fn frame_count(len: nat, b: nat, s: nat, f: nat) -> nat {
    ((((len - 2 * b + 1) * f - 1) as int) / (s as int) + 1) as nat
}

/// The position held after frames `0..k` have been placed.
pub open spec fn position_after(buf: Seq<i32>, b: nat, s: nat, f: nat, r: nat, k: nat) -> int
    decreases k,
{
    if k == 0 {
        2 * b as int
    } else {
        let p = position_after(buf, b, s, f, r, (k - 1) as nat);
        next_position(buf, b, r, p, cursor(b, s, f, (k - 1) as nat))
    }
}

/// The index table of `buf`: one right edge per frame whose cursor lies in
/// the buffer, the chosen position moved forward by `b / 2` and clamped to
/// `2b..=len`, then `len` itself for the trailing frame of zeros.
pub open spec fn index_table(buf: Seq<i32>, b: nat, s: nat, f: nat, r: nat) -> Seq<int> {
    let n = frame_count(buf.len(), b, s, f);
    Seq::new(
        n + 1,
        |k: int|
            if k < n {
                clamp(
                    position_after(buf, b, s, f, r, (k + 1) as nat) + b / 2,
                    2 * b as int,
                    buf.len() as int,
                )
            } else {
                buf.len() as int
            },
    )
}

/// The first `2b` samples are zeros.
pub open spec fn leading_pad(buf: Seq<i32>, b: nat) -> bool {
    2 * b <= buf.len() && forall|j: int| 0 <= j < 2 * b ==> #[trigger] buf[j] == 0
}

/// `x / d <= q` exactly when `x < (q + 1) * d`.
proof fn lemma_div_at_most(x: int, d: int, q: int)
    requires
        x >= 0,
        d > 0,
    ensures
        (x / d <= q) <==> (x < (q + 1) * d),
{
    lemma_fundamental_div_mod(x, d);
    let t = x / d;
    let m = x % d;
    assert(0 <= m < d);
    if t <= q {
        assert(d * t + m < (q + 1) * d) by (nonlinear_arith)
            requires
                t <= q,
                m < d,
                d > 0,
        ;
    } else {
        assert(d * t + m >= (q + 1) * d) by (nonlinear_arith)
            requires
                t >= q + 1,
                m >= 0,
                d > 0,
        ;
    }
}

/// The cursor of frame `k` lies in the buffer exactly for the first
/// `frame_count` frames.
pub proof fn lemma_cursor_in_buffer(len: nat, b: nat, s: nat, f: nat, k: nat)
    requires
        2 * b <= len,
        s >= 1,
        f >= 1,
    ensures
        (cursor(b, s, f, k) <= len) <==> (k < frame_count(len, b, s, f)),
{
    let l = len - 2 * b;
    let m = (l + 1) * f - 1;
    assert((l + 1) * f >= 1) by (nonlinear_arith)
        requires
            l >= 0,
            f >= 1,
    ;
    assert((k * s) as int >= 0) by (nonlinear_arith);
    // floor(k * s / f) <= l  <==>  k * s < (l + 1) * f  <==>  k * s <= m
    lemma_div_at_most((k * s) as int, f as int, l);
    // k * s <= m  <==>  k <= m / s
    if k >= 1 {
        lemma_div_at_most(m, s as int, k - 1);
    } else {
        lemma_fundamental_div_mod(m, s as int);
        assert(m / (s as int) >= 0) by (nonlinear_arith)
            requires
                m >= 0,
                s >= 1,
        ;
    }
}

/// `best_crossing` picks a crossing of its range, or nothing.
pub proof fn lemma_best_crossing_in_range(buf: Seq<i32>, b: nat, p: int, lo: int, hi: int)
    ensures
        match best_crossing(buf, b, p, lo, hi) {
            Some(x) => lo <= x <= hi && is_crossing(buf, x),
            None => true,
        },
    decreases hi - lo + 1,
{
    if lo <= hi {
        lemma_best_crossing_in_range(buf, b, p, lo + 1, hi);
    }
}

/// A range without crossings yields nothing.
pub proof fn lemma_best_crossing_none(buf: Seq<i32>, b: nat, p: int, lo: int, hi: int)
    requires
        forall|x: int| lo <= x <= hi ==> !#[trigger] is_crossing(buf, x),
    ensures
        best_crossing(buf, b, p, lo, hi) == None::<int>,
    decreases hi - lo + 1,
{
    if lo <= hi {
        lemma_best_crossing_none(buf, b, p, lo + 1, hi);
    }
}

/// The chosen crossing is one of the closest: no crossing of the range is
/// closer, and every crossing above it is strictly farther. If the range has
/// a crossing, one is chosen.
pub proof fn lemma_best_crossing_closest(buf: Seq<i32>, b: nat, p: int, lo: int, hi: int)
    ensures
        match best_crossing(buf, b, p, lo, hi) {
            Some(x) => forall|y: int|
                lo <= y <= hi && #[trigger] is_crossing(buf, y) ==> window_distance(buf, p, x, b)
                    <= window_distance(buf, p, y, b) && (y > x ==> window_distance(buf, p, x, b)
                    < window_distance(buf, p, y, b)),
            None => forall|y: int| lo <= y <= hi ==> !#[trigger] is_crossing(buf, y),
        },
    decreases hi - lo + 1,
{
    if lo <= hi {
        lemma_best_crossing_closest(buf, b, p, lo + 1, hi);
        lemma_best_crossing_in_range(buf, b, p, lo + 1, hi);
    }
}

/// Every entry of the index table lies in `2b..=len`.
pub proof fn lemma_table_within_buffer(buf: Seq<i32>, b: nat, s: nat, f: nat, r: nat)
    requires
        2 * b <= buf.len(),
    ensures
        forall|k: int|
            0 <= k < index_table(buf, b, s, f, r).len() ==> 2 * b <= #[trigger] index_table(
                buf,
                b,
                s,
                f,
                r,
            )[k] <= buf.len(),
{
}

/// The last entry of the index table is the buffer's length: the frame of
/// trailing zeros.
pub proof fn lemma_table_ends_with_pad(buf: Seq<i32>, b: nat, s: nat, f: nat, r: nat)
    ensures
        index_table(buf, b, s, f, r).len() >= 1,
        index_table(buf, b, s, f, r)[index_table(buf, b, s, f, r).len() - 1] == buf.len(),
{
}

/// The index table has one entry per frame whose cursor lies in the buffer,
/// plus the closing one: `floor(((len - 2b + 1) * f - 1) / s) + 2` entries.
pub proof fn lemma_table_length(buf: Seq<i32>, b: nat, s: nat, f: nat, r: nat)
    requires
        2 * b <= buf.len(),
        s >= 1,
        f >= 1,
    ensures
        index_table(buf, b, s, f, r).len() == (((buf.len() - 2 * b + 1) * f - 1) as int) / (
        s as int) + 2,
        forall|k: nat|
            (#[trigger] cursor(b, s, f, k) <= buf.len()) <==> (k + 1 < index_table(
                buf,
                b,
                s,
                f,
                r,
            ).len()),
{
    assert forall|k: nat|
        (#[trigger] cursor(b, s, f, k) <= buf.len()) <==> (k + 1 < index_table(
            buf,
            b,
            s,
            f,
            r,
        ).len()) by {
        lemma_cursor_in_buffer(buf.len(), b, s, f, k);
    }
    let m = (buf.len() - 2 * b + 1) * f - 1;
    assert(m >= 0) by (nonlinear_arith)
        requires
            m == (buf.len() - 2 * b + 1) * f - 1,
            buf.len() - 2 * b >= 0,
            f >= 1,
    ;
    assert(m / (s as int) >= 0) by (nonlinear_arith)
        requires
            m >= 0,
            s >= 1,
    ;
}

/// Where the search window of a frame holds no crossing, the frame shows
/// the window that ends `b / 2` after its cursor, clamped to the buffer.
pub proof fn lemma_fallback_to_cursor(buf: Seq<i32>, b: nat, s: nat, f: nat, r: nat, k: nat)
    requires
        k < frame_count(buf.len(), b, s, f),
        forall|x: int|
            window_low(cursor(b, s, f, k), r) <= x <= cursor(b, s, f, k) ==> !#[trigger] is_crossing(
                buf,
                x,
            ),
    ensures
        index_table(buf, b, s, f, r)[k as int] == clamp(
            cursor(b, s, f, k) + b / 2,
            2 * b as int,
            buf.len() as int,
        ),
{
    let c = cursor(b, s, f, k);
    let p = position_after(buf, b, s, f, r, k);
    lemma_best_crossing_none(buf, b, p, window_low(c, r), c);
    assert(position_after(buf, b, s, f, r, k + 1) == c);
}

/// Two index tables computed from the same buffer and parameters are equal.
pub proof fn lemma_table_deterministic(
    buf: Seq<i32>,
    b: nat,
    s: nat,
    f: nat,
    r: nat,
    first: Seq<usize>,
    second: Seq<usize>,
)
    requires
        as_ints(first) == index_table(buf, b, s, f, r),
        as_ints(second) == index_table(buf, b, s, f, r),
    ensures
        first == second,
{
    assert(first.len() == as_ints(first).len());
    assert(second.len() == as_ints(second).len());
    assert forall|k: int| 0 <= k < first.len() implies first[k] == second[k] by {
        assert(as_ints(first)[k] == first[k] as int);
        assert(as_ints(second)[k] == second[k] as int);
    }
    assert(first =~= second);
}

/// Time-domain distance between the `b` samples before `p` and before `x`.
fn distance(buf: &Vec<i32>, p: usize, x: usize, b: usize) -> (d: u128)
    requires
        b <= p <= buf@.len(),
        b <= x <= buf@.len(),
    ensures
        d as int == window_distance(buf@, p as int, x as int, b as nat),
{
    let mut acc: u128 = 0;
    let mut j: usize = 0;
    while j < b
        invariant
            j <= b,
            b <= p <= buf@.len(),
            b <= x <= buf@.len(),
            acc as int == window_distance(buf@, p as int, x as int, j as nat),
            acc <= j * 0x1_0000_0000,
        decreases b - j,
    {
        j += 1;
        let u = buf[p - j];
        let v = buf[x - j];
        let step: u128 = if u >= v {
            (u as i64 - v as i64) as u128
        } else {
            (v as i64 - u as i64) as u128
        };
        acc = acc + step;
    }
    acc
}

/// The position chosen at cursor `c` after `p` (see `next_position`).
fn select_position(buf: &Vec<i32>, b: usize, r: usize, p: usize, c: usize) -> (x: usize)
    requires
        leading_pad(buf@, b as nat),
        b <= p <= buf@.len(),
        c <= buf@.len(),
    ensures
        x as int == next_position(buf@, b as nat, r as nat, p as int, c as int),
{
    let mut best: Option<(usize, u128)> = None;
    let mut i: usize = 0;
    while i < r && i <= c
        invariant
            i <= r,
            i <= c + 1,
            leading_pad(buf@, b as nat),
            b <= p <= buf@.len(),
            c <= buf@.len(),
            match best {
                None => best_crossing(buf@, b as nat, p as int, c - i + 1, c as int) == None::<
                    int,
                >,
                Some((y, d)) => best_crossing(buf@, b as nat, p as int, c - i + 1, c as int)
                    == Some(y as int) && d as int == window_distance(
                    buf@,
                    p as int,
                    y as int,
                    b as nat,
                ),
            },
        decreases r - i,
    {
        let x = c - i;
        if x >= 1 && x < buf.len() && buf[x] >= 0 && buf[x - 1] < 0 {
            assert(buf@[x - 1] != 0);
            let d = distance(buf, p, x, b);
            match best {
                None => {
                    best = Some((x, d));
                },
                Some((_, e)) => {
                    if d < e {
                        best = Some((x, d));
                    }
                },
            }
        }
        i += 1;
    }
    match best {
        Some((y, _)) => y,
        None => c,
    }
}

/// Precomputes the index table of `buf`: for each video frame, the right
/// edge of the window to show.
pub fn stabilize(buf: &Vec<i32>, b: usize, sample_rate: u32, fps: u32, radius: usize) -> (table:
    Vec<usize>)
    requires
        leading_pad(buf@, b as nat),
        sample_rate >= 1,
        fps >= 1,
    ensures
        as_ints(table@) == index_table(
            buf@,
            b as nat,
            sample_rate as nat,
            fps as nat,
            radius as nat,
        ),
{
    let len = buf.len();
    let ghost s = sample_rate as nat;
    let ghost f = fps as nat;
    let ghost n = frame_count(len as nat, b as nat, s, f);
    let ghost t = index_table(buf@, b as nat, s, f, radius as nat);
    let mut table: Vec<usize> = Vec::new();
    let mut prev: usize = 2 * b;
    let mut k: usize = 0;
    loop
        invariant
            leading_pad(buf@, b as nat),
            len == buf@.len(),
            sample_rate >= 1,
            fps >= 1,
            s == sample_rate as nat,
            f == fps as nat,
            n == frame_count(len as nat, b as nat, s, f),
            t == index_table(buf@, b as nat, s, f, radius as nat),
            k <= n,
            table@.len() == k,
            forall|j: int| 0 <= j < k ==> #[trigger] table@[j] as int == t[j],
            prev as int == position_after(buf@, b as nat, s, f, radius as nat, k as nat),
            2 * b <= prev <= len,
        decreases n - k,
    {
        proof {
            lemma_cursor_in_buffer(len as nat, b as nat, s, f, k as nat);
            assert((k as int) * (sample_rate as int) <= 0xffff_ffff_ffff_ffff * 0xffff_ffff)
                by (nonlinear_arith)
                requires
                    k <= 0xffff_ffff_ffff_ffff,
                    sample_rate <= 0xffff_ffff,
            ;
        }
        let q: u128 = (k as u128) * (sample_rate as u128) / (fps as u128);
        let c_wide: u128 = (2 * b) as u128 + q;
        if c_wide > len as u128 {
            table.push(len);
            assert(as_ints(table@) =~= t);
            return table;
        }
        let c = c_wide as usize;
        let x = select_position(buf, b, radius, prev, c);
        proof {
            let lo = window_low(c as int, radius as nat);
            lemma_best_crossing_in_range(buf@, b as nat, prev as int, lo, c as int);
        }
        prev = x;
        let half = b / 2;
        let e: usize = if x > len - half {
            len
        } else if x + half < 2 * b {
            2 * b
        } else {
            x + half
        };
        table.push(e);
        k = table.len();
    }
}

} // verus!
