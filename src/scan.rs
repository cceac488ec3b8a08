//! Single-pass parallel prefix scan with decoupled lookback.
//!
//! The input is cut into tiles of a fixed width (the last one may be shorter,
//! which is the same as padding it with the identity). Each tile computes a
//! local inclusive scan and its aggregate, publishes the aggregate, then walks
//! back over its predecessors' published flags: an inclusive prefix ends the
//! walk, an aggregate is folded in and the walk goes on. The tile then adds
//! the exclusive prefix it found to its local values and publishes its own
//! inclusive prefix.
use vstd::prelude::*;

verus! {

/// `op` is associative with identity `id`. Nothing asks it to be commutative.
#[verifier::opaque]
pub open spec fn is_monoid<T>(op: spec_fn(T, T) -> T, id: T) -> bool {
    &&& forall|a: T, b: T, c: T| #[trigger] op(op(a, b), c) == op(a, op(b, c))
    &&& forall|a: T| #[trigger] op(id, a) == a
    &&& forall|a: T| #[trigger] op(a, id) == a
}

/// Sequential left fold of `s` under `op`, starting from `id`.
pub open spec fn fold<T>(s: Seq<T>, op: spec_fn(T, T) -> T, id: T) -> T
    decreases s.len(),
{
    if s.len() == 0 {
        id
    } else {
        op(fold(s.drop_last(), op, id), s.last())
    }
}

/// First index of tile `t` when `n` elements are cut into tiles of width `w`;
/// `n` for every tile past the end.
pub open spec fn tile_start(n: int, w: int, t: int) -> int {
    if t * w <= n {
        t * w
    } else {
        n
    }
}

/// What a tile has published about itself.
#[derive(Clone, Copy, Debug, PartialEq, Eq)]
pub enum TileStatus<T> {
    /// The fold of the tile's own elements.
    Aggregate(T),
    /// The fold of every element up to the end of the tile.
    Prefix(T),
}

/// Each published flag is either the tile's aggregate or its inclusive prefix.
pub open spec fn status_valid<T>(
    st: Seq<TileStatus<T>>,
    s: Seq<T>,
    w: int,
    op: spec_fn(T, T) -> T,
    id: T,
) -> bool {
    forall|j: int|
        0 <= j < st.len() ==> {
            let lo = tile_start(s.len() as int, w, j);
            let hi = tile_start(s.len() as int, w, j + 1);
            ||| #[trigger] st[j] == TileStatus::Aggregate(fold(s.subrange(lo, hi), op, id))
            ||| st[j] == TileStatus::Prefix(fold(s.subrange(0, hi), op, id))
        }
}

/// The lookback walk from tile `j` downwards, with `acc` the fold of what lies
/// between tile `j` and the tile that walks.
pub open spec fn lookback_spec<T>(
    st: Seq<TileStatus<T>>,
    j: int,
    acc: T,
    op: spec_fn(T, T) -> T,
) -> T
    decreases j,
{
    if j <= 0 {
        acc
    } else {
        match st[j - 1] {
            TileStatus::Prefix(p) => op(p, acc),
            TileStatus::Aggregate(a) => lookback_spec(st, j - 1, op(a, acc), op),
        }
    }
}

/// Addition modulo 2^32: the accumulator of the device.
pub open spec fn add32(a: u32, b: u32) -> u32 {
    if a + b > u32::MAX {
        (a + b - 0x1_0000_0000) as u32
    } else {
        (a + b) as u32
    }
}

pub open spec fn add32_op() -> spec_fn(u32, u32) -> u32 {
    |a: u32, b: u32| add32(a, b)
}

/// The exact sum of `s`.
pub open spec fn sum(s: Seq<u32>) -> int
    decreases s.len(),
{
    if s.len() == 0 {
        0
    } else {
        sum(s.drop_last()) + s.last()
    }
}

/// Totals at or above this are refused: the accumulator is 32 bits wide and
/// the top bit is kept clear.
pub const TOTAL_LIMIT: u64 = 0x8000_0000;

pub proof fn lemma_add32_monoid()
    ensures
        is_monoid(add32_op(), 0u32),
{
    reveal(is_monoid);
}

pub proof fn lemma_fold_concat<T>(a: Seq<T>, b: Seq<T>, op: spec_fn(T, T) -> T, id: T)
    requires
        is_monoid(op, id),
    ensures
        fold(a + b, op, id) == op(fold(a, op, id), fold(b, op, id)),
    decreases b.len(),
{
    reveal(is_monoid);
    if b.len() == 0 {
        assert(a + b =~= a);
    } else {
        lemma_fold_concat(a, b.drop_last(), op, id);
        assert((a + b).drop_last() =~= a + b.drop_last());
        assert(op(op(fold(a, op, id), fold(b.drop_last(), op, id)), b.last()) == op(
            fold(a, op, id),
            op(fold(b.drop_last(), op, id), b.last()),
        ));
    }
}

pub proof fn lemma_assoc<T>(op: spec_fn(T, T) -> T, id: T, a: T, b: T, c: T)
    requires
        is_monoid(op, id),
    ensures
        op(op(a, b), c) == op(a, op(b, c)),
{
    reveal(is_monoid);
}

pub proof fn lemma_fold_split<T>(
    s: Seq<T>,
    lo: int,
    mid: int,
    hi: int,
    op: spec_fn(T, T) -> T,
    id: T,
)
    requires
        is_monoid(op, id),
        0 <= lo <= mid <= hi <= s.len(),
    ensures
        fold(s.subrange(lo, hi), op, id) == op(
            fold(s.subrange(lo, mid), op, id),
            fold(s.subrange(mid, hi), op, id),
        ),
{
    assert(s.subrange(lo, hi) =~= s.subrange(lo, mid) + s.subrange(mid, hi));
    lemma_fold_concat(s.subrange(lo, mid), s.subrange(mid, hi), op, id);
}

pub proof fn lemma_tile_start_step(n: int, w: int, t: int)
    requires
        0 <= n,
        0 < w,
        0 <= t,
    ensures
        0 <= tile_start(n, w, t) <= n,
        tile_start(n, w, t + 1) == if n - tile_start(n, w, t) < w {
            n
        } else {
            tile_start(n, w, t) + w
        },
{
    assert(0 <= t * w) by (nonlinear_arith)
        requires
            0 <= t,
            0 < w,
    ;
    assert((t + 1) * w == t * w + w) by (nonlinear_arith);
}

pub proof fn lemma_tile_start_mono(n: int, w: int, j: int, t: int)
    requires
        0 <= n,
        0 < w,
        0 <= j <= t,
    ensures
        0 <= tile_start(n, w, j) <= tile_start(n, w, t) <= n,
{
    assert(0 <= j * w <= t * w) by (nonlinear_arith)
        requires
            0 <= j <= t,
            0 < w,
    ;
}

/// The walk from tile `j` with `acc` the fold of tiles `j..t` ends with the
/// fold of everything before tile `t`.
pub proof fn lemma_lookback_from<T>(
    st: Seq<TileStatus<T>>,
    s: Seq<T>,
    w: int,
    j: int,
    t: int,
    acc: T,
    op: spec_fn(T, T) -> T,
    id: T,
)
    requires
        is_monoid(op, id),
        0 < w,
        status_valid(st, s, w, op, id),
        0 <= j <= t <= st.len(),
        acc == fold(
            s.subrange(
                tile_start(s.len() as int, w, j),
                tile_start(s.len() as int, w, t),
            ),
            op,
            id,
        ),
    ensures
        lookback_spec(st, j, acc, op) == fold(
            s.subrange(0, tile_start(s.len() as int, w, t)),
            op,
            id,
        ),
    decreases j,
{
    let n = s.len() as int;
    lemma_tile_start_mono(n, w, j, t);
    if j > 0 {
        lemma_tile_start_mono(n, w, j - 1, j);
        let lo = tile_start(n, w, j - 1);
        let mid = tile_start(n, w, j);
        let hi = tile_start(n, w, t);
        lemma_fold_split(s, 0, mid, hi, op, id);
        let f = st[j - 1];
        assert(f == TileStatus::Aggregate(fold(s.subrange(lo, mid), op, id)) || f
            == TileStatus::Prefix(fold(s.subrange(0, mid), op, id)));
        if let TileStatus::Aggregate(a) = f {
            lemma_fold_split(s, lo, mid, hi, op, id);
            lemma_fold_split(s, 0, lo, mid, op, id);
            lemma_lookback_from(st, s, w, j - 1, t, op(a, acc), op, id);
            lemma_assoc(op, id, fold(s.subrange(0, lo), op, id), a, acc);
        }
    } else {
        assert(tile_start(n, w, 0) == 0);
    }
}

/// Decoupled lookback computes the sequential prefix. For every associative
/// operator with an identity, every tile width, every input length (a short
/// last tile is a tile padded with the identity), and whatever mix of
/// aggregates and inclusive prefixes the predecessors of a tile have
/// published, the exclusive prefix that tile `t` finds by walking back,
/// combined on the left of the tile's local inclusive scan at index `i`, is
/// the left fold of the input up to and including `i`.
pub proof fn lemma_decoupled_lookback_scan<T>(
    st: Seq<TileStatus<T>>,
    s: Seq<T>,
    w: int,
    t: int,
    i: int,
    op: spec_fn(T, T) -> T,
    id: T,
)
    requires
        is_monoid(op, id),
        0 < w,
        status_valid(st, s, w, op, id),
        0 <= t <= st.len(),
        tile_start(s.len() as int, w, t) <= i < tile_start(s.len() as int, w, t + 1),
    ensures
        op(
            lookback_spec(st, t, id, op),
            fold(s.subrange(tile_start(s.len() as int, w, t), i + 1), op, id),
        ) == fold(s.subrange(0, i + 1), op, id),
{
    let n = s.len() as int;
    let lo = tile_start(n, w, t);
    lemma_tile_start_step(n, w, t);
    assert(s.subrange(lo, lo).len() == 0);
    lemma_lookback_from(st, s, w, t, t, id, op, id);
    lemma_fold_split(s, 0, lo, i + 1, op, id);
}

/// Why a scan was refused.
#[derive(Clone, Copy, Debug, PartialEq, Eq)]
pub enum ScanError {
    /// Tiles must hold at least one element.
    ZeroTileWidth,
    /// The sum of the whole input is at or above `TOTAL_LIMIT`: the 32-bit
    /// accumulator could wrap, so nothing is dispatched.
    TotalTooLarge,
}

pub proof fn lemma_sum_prefix_le(s: Seq<u32>, k: int)
    requires
        0 <= k <= s.len(),
    ensures
        0 <= sum(s.subrange(0, k)) <= sum(s),
    decreases s.len(),
{
    if k == s.len() {
        assert(s.subrange(0, k) =~= s);
        lemma_sum_nonneg(s);
    } else {
        lemma_sum_prefix_le(s.drop_last(), k);
        assert(s.drop_last().subrange(0, k) =~= s.subrange(0, k));
    }
}

pub proof fn lemma_sum_nonneg(s: Seq<u32>)
    ensures
        0 <= sum(s),
    decreases s.len(),
{
    if s.len() > 0 {
        lemma_sum_nonneg(s.drop_last());
    }
}

/// Where the exact sum fits in 32 bits, the wrapping fold is the exact sum.
pub proof fn lemma_fold_add32_exact(s: Seq<u32>)
    requires
        sum(s) <= u32::MAX,
    ensures
        fold(s, add32_op(), 0u32) as int == sum(s),
    decreases s.len(),
{
    if s.len() > 0 {
        lemma_sum_nonneg(s.drop_last());
        lemma_fold_add32_exact(s.drop_last());
    }
}

proof fn lemma_fold_push(s: Seq<u32>, lo: int, k: int)
    requires
        0 <= lo <= k < s.len(),
    ensures
        fold(s.subrange(lo, k + 1), add32_op(), 0u32) == add32(
            fold(s.subrange(lo, k), add32_op(), 0u32),
            s[k],
        ),
{
    assert(s.subrange(lo, k + 1).drop_last() =~= s.subrange(lo, k));
}

/// The lookback walk of tile `tile` over the published flags, on the 32-bit
/// accumulator.
pub fn lookback(status: &Vec<TileStatus<u32>>, tile: usize) -> (r: u32)
    requires
        tile <= status.len(),
    ensures
        r == lookback_spec(status@, tile as int, 0u32, add32_op()),
{
    let mut j: usize = tile;
    let mut acc: u32 = 0;
    while j > 0
        invariant
            j <= tile <= status.len(),
            lookback_spec(status@, j as int, acc, add32_op()) == lookback_spec(
                status@,
                tile as int,
                0u32,
                add32_op(),
            ),
        decreases j,
    {
        match status[j - 1] {
            TileStatus::Prefix(p) => {
                return p.wrapping_add(acc);
            },
            TileStatus::Aggregate(a) => {
                acc = a.wrapping_add(acc);
                j = j - 1;
            },
        }
    }
    acc
}

/// Inclusive prefix scan of `input` on the 32-bit accumulator, in tiles of
/// `tile_width` elements resolved by decoupled lookback. Here the tiles run
/// one after another; `lemma_decoupled_lookback_scan` shows the walk correct
/// whatever its predecessors have published when a tile runs.
pub fn scan_tiles(input: &Vec<u32>, tile_width: usize) -> (out: Vec<u32>)
    requires
        tile_width > 0,
    ensures
        out@.len() == input@.len(),
        forall|i: int|
            0 <= i < input@.len() ==> #[trigger] out@[i] == fold(
                input@.subrange(0, i + 1),
                add32_op(),
                0u32,
            ),
{
    let n = input.len();
    let w = tile_width;
    let ghost s = input@;
    let ghost op = add32_op();
    proof {
        lemma_add32_monoid();
    }
    let mut out: Vec<u32> = Vec::new();
    let mut status: Vec<TileStatus<u32>> = Vec::new();
    let mut lo: usize = 0;
    while lo < n
        invariant
            n == s.len(),
            s == input@,
            op == add32_op(),
            is_monoid(op, 0u32),
            w > 0,
            lo <= n,
            lo as int == tile_start(n as int, w as int, status@.len() as int),
            out@.len() == lo,
            forall|i: int| 0 <= i < lo ==> #[trigger] out@[i] == fold(s.subrange(0, i + 1), op, 0u32),
            forall|j: int|
                0 <= j < status@.len() ==> #[trigger] status@[j] == TileStatus::Prefix(
                    fold(s.subrange(0, tile_start(n as int, w as int, j + 1)), op, 0u32),
                ),
        decreases n - lo,
    {
        let t = status.len();
        proof {
            lemma_tile_start_step(n as int, w as int, t as int);
        }
        let hi: usize = if n - lo < w {
            n
        } else {
            lo + w
        };
        // Local inclusive scan of the tile, and its aggregate.
        let mut agg: u32 = 0;
        let mut k: usize = lo;
        while k < hi
            invariant
                n == s.len(),
                s == input@,
                op == add32_op(),
                lo <= k <= hi <= n,
                out@.len() == k,
                agg == fold(s.subrange(lo as int, k as int), op, 0u32),
                forall|i: int| 0 <= i < lo ==> #[trigger] out@[i] == fold(s.subrange(0, i + 1), op, 0u32),
                forall|i: int|
                    lo <= i < k ==> #[trigger] out@[i] == fold(s.subrange(lo as int, i + 1), op, 0u32),
            decreases hi - k,
        {
            proof {
                lemma_fold_push(s, lo as int, k as int);
            }
            agg = agg.wrapping_add(input[k]);
            out.push(agg);
            k = k + 1;
        }
        status.push(TileStatus::Aggregate(agg));
        proof {
            assert(s.subrange(lo as int, lo as int).len() == 0);
            assert forall|j: int| 0 <= j < status@.len() implies {
                let a = tile_start(s.len() as int, w as int, j);
                let b = tile_start(s.len() as int, w as int, j + 1);
                ||| #[trigger] status@[j] == TileStatus::Aggregate(fold(s.subrange(a, b), op, 0u32))
                ||| status@[j] == TileStatus::Prefix(fold(s.subrange(0, b), op, 0u32))
            } by {}
            lemma_lookback_from(status@, s, w as int, t as int, t as int, 0u32, op, 0u32);
        }
        let prefix = lookback(&status, t);
        // Add the exclusive prefix to every local value.
        let mut k: usize = lo;
        while k < hi
            invariant
                n == s.len(),
                s == input@,
                op == add32_op(),
                is_monoid(op, 0u32),
                lo <= k <= hi <= n,
                out@.len() == hi,
                prefix == fold(s.subrange(0, lo as int), op, 0u32),
                forall|i: int| 0 <= i < k ==> #[trigger] out@[i] == fold(s.subrange(0, i + 1), op, 0u32),
                forall|i: int|
                    k <= i < hi ==> #[trigger] out@[i] == fold(s.subrange(lo as int, i + 1), op, 0u32),
            decreases hi - k,
        {
            proof {
                lemma_fold_split(s, 0, lo as int, k + 1, op, 0u32);
            }
            let v = prefix.wrapping_add(out[k]);
            out.set(k, v);
            k = k + 1;
        }
        proof {
            lemma_fold_split(s, 0, lo as int, hi as int, op, 0u32);
        }
        status.set(t, TileStatus::Prefix(prefix.wrapping_add(agg)));
        lo = hi;
    }
    out
}

proof fn lemma_sum_push(s: Seq<u32>, k: int)
    requires
        0 <= k < s.len(),
    ensures
        sum(s.subrange(0, k + 1)) == sum(s.subrange(0, k)) + s[k],
{
    assert(s.subrange(0, k + 1).drop_last() =~= s.subrange(0, k));
}

/// The total of `input`, or `TotalTooLarge` where it is at or above
/// `TOTAL_LIMIT`.
pub fn reduce_total(input: &Vec<u32>) -> (r: Result<u32, ScanError>)
    ensures
        match r {
            Ok(t) => sum(input@) < TOTAL_LIMIT && t as int == sum(input@),
            Err(e) => sum(input@) >= TOTAL_LIMIT && e == ScanError::TotalTooLarge,
        },
{
    let mut total: u64 = 0;
    let mut i: usize = 0;
    while i < input.len()
        invariant
            i <= input@.len(),
            total as int == sum(input@.subrange(0, i as int)),
            total < TOTAL_LIMIT,
        decreases input@.len() - i,
    {
        proof {
            lemma_sum_push(input@, i as int);
        }
        total = total + input[i] as u64;
        if total >= TOTAL_LIMIT {
            proof {
                lemma_sum_prefix_le(input@, i + 1);
            }
            return Err(ScanError::TotalTooLarge);
        }
        i = i + 1;
    }
    proof {
        assert(input@.subrange(0, i as int) =~= input@);
    }
    Ok(total as u32)
}

/// Inclusive prefix sums of `input` in tiles of `tile_width`, refused before
/// any work where the total does not fit the accumulator.
pub fn prefix_sum(input: &Vec<u32>, tile_width: usize) -> (r: Result<Vec<u32>, ScanError>)
    ensures
        tile_width == 0 ==> r == Err::<Vec<u32>, ScanError>(ScanError::ZeroTileWidth),
        tile_width > 0 && sum(input@) >= TOTAL_LIMIT ==> r == Err::<Vec<u32>, ScanError>(
            ScanError::TotalTooLarge,
        ),
        tile_width > 0 && sum(input@) < TOTAL_LIMIT ==> r is Ok,
        r matches Ok(out) ==> out@.len() == input@.len() && forall|i: int|
            0 <= i < input@.len() ==> #[trigger] out@[i] as int == sum(input@.subrange(0, i + 1)),
{
    if tile_width == 0 {
        return Err(ScanError::ZeroTileWidth);
    }
    match reduce_total(input) {
        Err(e) => Err(e),
        Ok(_) => {
            let out = scan_tiles(input, tile_width);
            proof {
                assert forall|i: int| 0 <= i < input@.len() implies #[trigger] out@[i] as int == sum(
                    input@.subrange(0, i + 1),
                ) by {
                    lemma_sum_prefix_le(input@, i + 1);
                    lemma_fold_add32_exact(input@.subrange(0, i + 1));
                }
            }
            Ok(out)
        },
    }
}

/// `len` elements that count `0, 1, .., period - 1` and start again.
pub fn ramp(len: usize, period: u32) -> (r: Vec<u32>)
    requires
        period > 0,
    ensures
        r@.len() == len,
        forall|i: int| 0 <= i < len ==> #[trigger] r@[i] as int == i % (period as int),
{
    let mut r: Vec<u32> = Vec::new();
    let mut v: u32 = 0;
    let mut i: usize = 0;
    while i < len
        invariant
            period > 0,
            i <= len,
            r@.len() == i,
            v as int == (i as int) % (period as int),
            forall|k: int| 0 <= k < i ==> #[trigger] r@[k] as int == k % (period as int),
        decreases len - i,
    {
        r.push(v);
        proof {
            let p = period as int;
            let x = i as int;
            assert((x + 1) % p == if x % p + 1 == p { 0 } else { x % p + 1 }) by (nonlinear_arith)
                requires
                    p > 0,
                    x >= 0,
                    0 <= x % p < p,
            {
                vstd::arithmetic::div_mod::lemma_fundamental_div_mod(x, p);
                vstd::arithmetic::div_mod::lemma_fundamental_div_mod(x + 1, p);
            }
        }
        v = if v + 1 == period {
            0
        } else {
            v + 1
        };
        i = i + 1;
    }
    r
}

/// `input` with every element equal to `from` replaced by `to`.
pub fn replace_value(input: &Vec<u32>, from: u32, to: u32) -> (r: Vec<u32>)
    ensures
        r@.len() == input@.len(),
        forall|i: int|
            0 <= i < input@.len() ==> #[trigger] r@[i] == if input@[i] == from {
                to
            } else {
                input@[i]
            },
{
    let mut r: Vec<u32> = Vec::new();
    let mut i: usize = 0;
    while i < input.len()
        invariant
            i <= input@.len(),
            r@.len() == i,
            forall|k: int|
                0 <= k < i ==> #[trigger] r@[k] == if input@[k] == from {
                    to
                } else {
                    input@[k]
                },
        decreases input@.len() - i,
    {
        let x = input[i];
        r.push(if x == from {
            to
        } else {
            x
        });
        i = i + 1;
    }
    r
}

/// Whether `result` holds exactly the inclusive prefix sums of `input`.
pub fn is_prefix_sum_of(input: &Vec<u32>, result: &Vec<u32>) -> (r: bool)
    ensures
        r == (result@.len() == input@.len() && forall|i: int|
            0 <= i < input@.len() ==> #[trigger] result@[i] as int == sum(input@.subrange(0, i + 1))),
{
    if result.len() != input.len() {
        return false;
    }
    let mut agg: u64 = 0;
    let mut i: usize = 0;
    while i < input.len()
        invariant
            result@.len() == input@.len(),
            i <= input@.len(),
            agg as int == sum(input@.subrange(0, i as int)),
            agg <= u32::MAX,
            forall|k: int| 0 <= k < i ==> #[trigger] result@[k] as int == sum(input@.subrange(0, k + 1)),
        decreases input@.len() - i,
    {
        proof {
            lemma_sum_push(input@, i as int);
        }
        agg = agg + input[i] as u64;
        if agg > u32::MAX as u64 || result[i] as u64 != agg {
            assert(result@[i as int] as int != sum(input@.subrange(0, i + 1)));
            return false;
        }
        i = i + 1;
    }
    true
}

} // verus!
