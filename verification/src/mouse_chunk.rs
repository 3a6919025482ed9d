//! Vector-preserving chunking for signed 8-bit relative HID reports.
//!
//! The number of required reports is selected from the dominant axis, then
//! every component is divided across that same number of reports. This keeps
//! the pointer direction stable while preserving the exact accumulated sum.

use vstd::prelude::*;

verus! {

/// The largest magnitude that one report carries in the direction of `value`.
pub open spec fn axis_limit(value: int) -> int {
    if value < 0 {
        128
    } else {
        127
    }
}

pub open spec fn magnitude(value: int) -> int {
    if value < 0 {
        -value
    } else {
        value
    }
}

/// The least number of reports that can carry `value` on one axis.
pub open spec fn reports_needed(value: int) -> int {
    (magnitude(value) + axis_limit(value) - 1) / axis_limit(value)
}

pub open spec fn larger(a: int, b: int) -> int {
    if a < b {
        b
    } else {
        a
    }
}

/// The number of reports that the dominant component of a vector asks for.
pub open spec fn vector_reports_needed(x: int, y: int, wheel: int, pan: int) -> int {
    larger(
        larger(reports_needed(x), reports_needed(y)),
        larger(reports_needed(wheel), reports_needed(pan)),
    )
}

/// The number of reports over which a vector is divided: at least one.
pub open spec fn vector_divisor(x: int, y: int, wheel: int, pan: int) -> int {
    larger(vector_reports_needed(x, y, wheel, pan), 1)
}

/// The integer nearest to `value / chunks`, ties rounded away from zero.
pub open spec fn even_share(value: int, chunks: int) -> int
    recommends
        chunks > 0,
{
    if value < 0 {
        -((2 * -value + chunks) / (2 * chunks))
    } else {
        (2 * value + chunks) / (2 * chunks)
    }
}

/// `value` brought into the range of one signed byte.
pub open spec fn clamp_i8(value: int) -> int {
    if value < -128 {
        -128
    } else if value > 127 {
        127
    } else {
        value
    }
}

/// What is left of `value` once it was shared over `chunks` successive reports.
pub open spec fn residual_after(value: int, chunks: nat) -> int
    decreases chunks,
{
    if chunks == 0 {
        value
    } else {
        residual_after(value - even_share(value, chunks as int), (chunks - 1) as nat)
    }
}

/// The sum of the successive shares of `value` over `chunks` reports.
pub open spec fn total_shared(value: int, chunks: nat) -> int
    decreases chunks,
{
    if chunks == 0 {
        0
    } else {
        even_share(value, chunks as int) + total_shared(
            value - even_share(value, chunks as int),
            (chunks - 1) as nat,
        )
    }
}

proof fn lemma_share_bounds(m: int, n: int)
    requires
        m >= 0,
        n > 0,
    ensures
        2 * n * ((2 * m + n) / (2 * n)) <= 2 * m + n,
        2 * m + n < 2 * n * ((2 * m + n) / (2 * n)) + 2 * n,
        0 <= (2 * m + n) / (2 * n) <= m,
{
    let q: int = (2 * m + n) / (2 * n);
    assert(2 * n * q <= 2 * m + n && 2 * m + n < 2 * n * q + 2 * n && q >= 0) by (nonlinear_arith)
        requires
            m >= 0,
            n > 0,
            q == (2 * m + n) / (2 * n),
    ;
    assert(q <= m) by (nonlinear_arith)
        requires
            2 * n * q <= 2 * m + n,
            m >= 0,
            n > 0,
            q >= 0,
    ;
}

/// Every share is the proportional part of its axis to within half a count,
/// points the same way, and never exceeds what there is to share.
pub proof fn law_share_is_proportional(value: int, chunks: int)
    requires
        chunks > 0,
    ensures
        magnitude(2 * (chunks * even_share(value, chunks) - value)) <= chunks,
        value >= 0 ==> 0 <= even_share(value, chunks) <= value,
        value <= 0 ==> value <= even_share(value, chunks) <= 0,
{
    let m: int = magnitude(value);
    let q: int = (2 * m + chunks) / (2 * chunks);
    lemma_share_bounds(m, chunks);
    assert(2 * chunks * q == 2 * (chunks * q)) by (nonlinear_arith);
    if value < 0 {
        assert(chunks * (-q) == -(chunks * q)) by (nonlinear_arith);
    }
}

proof fn lemma_needed(value: int, n: int)
    requires
        n >= 0,
    ensures
        reports_needed(value) >= 0,
        reports_needed(value) == 0 <==> value == 0,
        reports_needed(value) <= n <==> magnitude(value) <= n * axis_limit(value),
{
    let m: int = magnitude(value);
    let l: int = axis_limit(value);
    let r: int = reports_needed(value);
    assert(r * l <= m + l - 1 && m + l - 1 < r * l + l && r >= 0) by (nonlinear_arith)
        requires
            m >= 0,
            l > 0,
            r == (m + l - 1) / l,
    ;
    if r <= n {
        assert(r * l <= n * l) by (nonlinear_arith)
            requires
                r <= n,
                l > 0,
        ;
    } else {
        assert((n + 1) * l <= r * l) by (nonlinear_arith)
            requires
                n + 1 <= r,
                l > 0,
        ;
        assert((n + 1) * l == n * l + l) by (nonlinear_arith);
    }
    if value == 0 {
        assert(r == 0) by (nonlinear_arith)
            requires
                r * l <= l - 1,
                r >= 0,
                l > 0,
        ;
    } else {
        if r == 0 {
            assert(r * l == 0) by (nonlinear_arith)
                requires
                    r == 0,
            ;
        }
    }
}

proof fn lemma_step(value: int, n: int)
    requires
        n >= 1,
        reports_needed(value) <= n,
    ensures
        -128 <= even_share(value, n) <= 127,
        reports_needed(value - even_share(value, n)) <= n - 1,
        reports_needed(value) == n ==> reports_needed(value - even_share(value, n)) == n - 1,
{
    let share: int = even_share(value, n);
    let rest: int = value - share;
    let m: int = magnitude(value);
    let l: int = axis_limit(value);
    let q: int = magnitude(share);
    lemma_needed(value, n);
    law_share_is_proportional(value, n);
    assert(magnitude(2 * (n * q - m)) <= n) by {
        if value < 0 {
            assert(n * (-q) == -(n * q)) by (nonlinear_arith);
        }
    }
    assert(q <= l) by (nonlinear_arith)
        requires
            2 * (n * q - m) <= n,
            m <= n * l,
            n >= 1,
    ;
    assert(m - q <= (n - 1) * l) by (nonlinear_arith)
        requires
            2 * (m - n * q) <= n,
            m <= n * l,
            n >= 1,
            q >= 0,
    ;
    assert((n - 1) * 127 <= (n - 1) * l);
    lemma_needed(rest, n - 1);
    if rest == 0 {
        assert(0 <= (n - 1) * axis_limit(rest)) by (nonlinear_arith)
            requires
                n >= 1,
                axis_limit(rest) > 0,
        ;
    }
    if reports_needed(value) == n {
        lemma_needed(value, n - 1);
        if n >= 2 {
            lemma_needed(rest, n - 2);
            assert((n - 1) * l == (n - 2) * l + l) by (nonlinear_arith);
            if rest == 0 {
                assert(0 <= (n - 2) * l) by (nonlinear_arith)
                    requires
                        n >= 2,
                        l > 0,
                ;
            }
        }
    }
}

/// Taking one report out of a pending vector leaves a vector that needs exactly
/// one report fewer, so a vector drains in as many reports as its dominant
/// component asks for.
pub proof fn law_each_report_reduces_the_need_by_one(x: int, y: int, wheel: int, pan: int)
    requires
        vector_reports_needed(x, y, wheel, pan) > 0,
    ensures
        ({
            let n = vector_divisor(x, y, wheel, pan);
            vector_reports_needed(
                x - even_share(x, n),
                y - even_share(y, n),
                wheel - even_share(wheel, n),
                pan - even_share(pan, n),
            ) == n - 1
        }),
{
    let n: int = vector_divisor(x, y, wheel, pan);
    lemma_step(x, n);
    lemma_step(y, n);
    lemma_step(wheel, n);
    lemma_step(pan, n);
}

/// Sharing a value over as many reports as its axis needs, or more, leaves
/// nothing behind, and the reports add up to exactly the value.
pub proof fn law_drain_preserves_the_exact_sum(value: int, chunks: nat)
    requires
        reports_needed(value) <= chunks,
    ensures
        residual_after(value, chunks) == 0,
        total_shared(value, chunks) == value,
    decreases chunks,
{
    if chunks == 0 {
        lemma_needed(value, 0);
    } else {
        lemma_step(value, chunks as int);
        law_drain_preserves_the_exact_sum(
            value - even_share(value, chunks as int),
            (chunks - 1) as nat,
        );
    }
}

/// Every component of a pending vector is fully delivered once the vector was
/// shared over its own report count, whichever axis dominates.
pub proof fn law_vector_drains_without_loss(x: int, y: int, wheel: int, pan: int)
    ensures
        ({
            let n = vector_divisor(x, y, wheel, pan) as nat;
            &&& residual_after(x, n) == 0 && total_shared(x, n) == x
            &&& residual_after(y, n) == 0 && total_shared(y, n) == y
            &&& residual_after(wheel, n) == 0 && total_shared(wheel, n) == wheel
            &&& residual_after(pan, n) == 0 && total_shared(pan, n) == pan
        }),
{
    let n: nat = vector_divisor(x, y, wheel, pan) as nat;
    law_drain_preserves_the_exact_sum(x, n);
    law_drain_preserves_the_exact_sum(y, n);
    law_drain_preserves_the_exact_sum(wheel, n);
    law_drain_preserves_the_exact_sum(pan, n);
}

fn unsigned_magnitude(value: i32) -> (result: u64)
    ensures
        result == magnitude(value as int),
{
    if value < 0 {
        (-(value as i64)) as u64
    } else {
        value as u64
    }
}

pub fn chunks_needed(value: i32) -> (chunks: u32)
    ensures
        chunks == reports_needed(value as int),
{
    let limit: u64 = if value < 0 {
        128
    } else {
        127
    };
    let size: u64 = unsigned_magnitude(value);
    ((size + (limit - 1)) / limit) as u32
}

pub fn take_even_chunk(value: &mut i32, chunks: u32) -> (chunk: i8)
    requires
        chunks > 0,
    ensures
        chunk == clamp_i8(even_share(*old(value) as int, chunks as int)),
        *final(value) == *old(value) - chunk,
{
    let size: u64 = unsigned_magnitude(*value);
    let divisor: u64 = chunks as u64;
    let share: u64 = (2 * size + divisor) / (2 * divisor);
    proof {
        lemma_share_bounds(size as int, divisor as int);
    }
    let chunk: i8 = if *value < 0 {
        if share > 128 {
            -128
        } else {
            (-(share as i64)) as i8
        }
    } else if share > 127 {
        127
    } else {
        share as i8
    };
    *value = *value - chunk as i32;
    chunk
}

/// Takes the next report out of a pending vector.
pub fn take_vector_chunk(x: &mut i32, y: &mut i32, wheel: &mut i32, pan: &mut i32) -> (chunk: (
    i8,
    i8,
    i8,
    i8,
))
    ensures
        ({
            let n = vector_divisor(
                *old(x) as int,
                *old(y) as int,
                *old(wheel) as int,
                *old(pan) as int,
            );
            &&& chunk.0 == even_share(*old(x) as int, n)
            &&& chunk.1 == even_share(*old(y) as int, n)
            &&& chunk.2 == even_share(*old(wheel) as int, n)
            &&& chunk.3 == even_share(*old(pan) as int, n)
        }),
        *final(x) == *old(x) - chunk.0,
        *final(y) == *old(y) - chunk.1,
        *final(wheel) == *old(wheel) - chunk.2,
        *final(pan) == *old(pan) - chunk.3,
{
    let mut chunks: u32 = chunks_needed(*x);
    let for_y: u32 = chunks_needed(*y);
    if for_y > chunks {
        chunks = for_y;
    }
    let for_wheel: u32 = chunks_needed(*wheel);
    if for_wheel > chunks {
        chunks = for_wheel;
    }
    let for_pan: u32 = chunks_needed(*pan);
    if for_pan > chunks {
        chunks = for_pan;
    }
    if chunks < 1 {
        chunks = 1;
    }
    proof {
        lemma_step(*x as int, chunks as int);
        lemma_step(*y as int, chunks as int);
        lemma_step(*wheel as int, chunks as int);
        lemma_step(*pan as int, chunks as int);
    }
    (
        take_even_chunk(x, chunks),
        take_even_chunk(y, chunks),
        take_even_chunk(wheel, chunks),
        take_even_chunk(pan, chunks),
    )
}

/// A number of reports suffices for an axis exactly where that many signed bytes
/// can add up to its value, so that the number needed is the least one.
pub proof fn law_need_is_the_least_number(value: int, n: int)
    requires
        n >= 0,
    ensures
        reports_needed(value) <= n <==> -128 * n <= value <= 127 * n,
        reports_needed(value) >= 0,
{
    lemma_needed(value, n);
}

/// A vector is divided over the least number of reports, one at least, in which
/// every component fits.
pub proof fn law_divisor_is_the_least_number(x: int, y: int, wheel: int, pan: int, n: int)
    requires
        n >= 1,
    ensures
        vector_divisor(x, y, wheel, pan) >= 1,
        vector_divisor(x, y, wheel, pan) <= n <==> {
            &&& -128 * n <= x <= 127 * n
            &&& -128 * n <= y <= 127 * n
            &&& -128 * n <= wheel <= 127 * n
            &&& -128 * n <= pan <= 127 * n
        },
{
    lemma_needed(x, n);
    lemma_needed(y, n);
    lemma_needed(wheel, n);
    lemma_needed(pan, n);
}

/// A share is the nearest whole part, and of two that are equally near it is the
/// one further from zero.
pub proof fn law_share_is_the_nearest(value: int, chunks: int)
    requires
        chunks > 0,
    ensures
        ({
            let off = 2 * (chunks * even_share(value, chunks) - value);
            &&& value >= 0 ==> -chunks < off <= chunks
            &&& value <= 0 ==> -chunks <= off < chunks
        }),
{
    let m: int = magnitude(value);
    let q: int = (2 * m + chunks) / (2 * chunks);
    lemma_share_bounds(m, chunks);
    assert(2 * chunks * q == 2 * (chunks * q)) by (nonlinear_arith);
    if value < 0 {
        assert(chunks * (-q) == -(chunks * q)) by (nonlinear_arith);
    } else if value == 0 {
        assert(chunks * q == 0) by (nonlinear_arith)
            requires
                q == 0,
        ;
    }
}

/// Opposite values get opposite shares: dividing favours no direction.
pub proof fn law_shares_are_symmetric(value: int, chunks: int)
    requires
        chunks > 0,
    ensures
        even_share(-value, chunks) == -even_share(value, chunks),
{
    assert(chunks / (2 * chunks) == 0) by (nonlinear_arith)
        requires
            chunks > 0,
    ;
}

/// Taking a report out of a vector takes the nearest share of each component over
/// the least number of reports, and leaves the rest of it.
pub proof fn law_chunk_takes_an_even_share(n: int)
    requires
        n >= 1,
    ensures
        forall|x: &mut i32, y: &mut i32, wheel: &mut i32, pan: &mut i32, chunk: (i8, i8, i8, i8)|
         #[trigger]
            call_ensures(take_vector_chunk, (x, y, wheel, pan), chunk) && n == vector_divisor(
                *x as int,
                *y as int,
                *wheel as int,
                *pan as int,
            ) ==> {
                &&& -n <= 2 * (n * chunk.0 - *x) <= n && *final(x) == *x - chunk.0
                &&& -n <= 2 * (n * chunk.1 - *y) <= n && *final(y) == *y - chunk.1
                &&& -n <= 2 * (n * chunk.2 - *wheel) <= n && *final(wheel) == *wheel - chunk.2
                &&& -n <= 2 * (n * chunk.3 - *pan) <= n && *final(pan) == *pan - chunk.3
            },
{
    assert forall|
        x: &mut i32,
        y: &mut i32,
        wheel: &mut i32,
        pan: &mut i32,
        chunk: (i8, i8, i8, i8),
    | #[trigger]
        call_ensures(take_vector_chunk, (x, y, wheel, pan), chunk) && n == vector_divisor(
            *x as int,
            *y as int,
            *wheel as int,
            *pan as int,
        ) implies {
        &&& -n <= 2 * (n * chunk.0 - *x) <= n && *final(x) == *x - chunk.0
        &&& -n <= 2 * (n * chunk.1 - *y) <= n && *final(y) == *y - chunk.1
        &&& -n <= 2 * (n * chunk.2 - *wheel) <= n && *final(wheel) == *wheel - chunk.2
        &&& -n <= 2 * (n * chunk.3 - *pan) <= n && *final(pan) == *pan - chunk.3
    } by {
        law_share_is_proportional(*x as int, n);
        law_share_is_proportional(*y as int, n);
        law_share_is_proportional(*wheel as int, n);
        law_share_is_proportional(*pan as int, n);
    }
}

/// A single axis is shared in the same way, within the range of a signed byte,
/// and the number of reports that it needs is the least one.
pub proof fn law_axis_chunk_takes_an_even_share(n: u32)
    requires
        n >= 1,
    ensures
        forall|value: &mut i32, chunk: i8| #[trigger]
            call_ensures(take_even_chunk, (value, n), chunk) ==> {
                &&& *final(value) == *value - chunk
                &&& -128 * n <= *value <= 127 * n ==> -(n as int) <= 2 * (n * chunk - *value) <= n
                &&& 2 * *value >= 255 * n ==> chunk == 127
                &&& 2 * *value <= -257 * n ==> chunk == -128
            },
        forall|value: i32, chunks: u32| #[trigger]
            call_ensures(chunks_needed, (value,), chunks) ==> (chunks <= n <==> -128 * n <= value
                <= 127 * n),
{
    assert forall|value: &mut i32, chunk: i8| #[trigger]
        call_ensures(take_even_chunk, (value, n), chunk) implies {
        &&& *final(value) == *value - chunk
        &&& -128 * n <= *value <= 127 * n ==> -(n as int) <= 2 * (n * chunk - *value) <= n
        &&& 2 * *value >= 255 * n ==> chunk == 127
        &&& 2 * *value <= -257 * n ==> chunk == -128
    } by {
        let v: int = *value as int;
        let m: int = n as int;
        let share: int = even_share(v, m);
        law_share_is_the_nearest(v, m);
        if -128 * n <= v <= 127 * n {
            lemma_needed(v, m);
            lemma_step(v, m);
        }
        if 2 * v >= 255 * m {
            assert(share >= 127) by (nonlinear_arith)
                requires
                    2 * (m * share - v) > -m,
                    2 * v >= 255 * m,
                    m >= 1,
            ;
        }
        if 2 * v <= -257 * m {
            assert(share <= -128) by (nonlinear_arith)
                requires
                    2 * (m * share - v) < m,
                    2 * v <= -257 * m,
                    m >= 1,
            ;
        }
    }
    assert forall|value: i32, chunks: u32| #[trigger]
        call_ensures(chunks_needed, (value,), chunks) implies (chunks <= n <==> -128 * n <= value
        <= 127 * n) by {
        lemma_needed(value as int, n as int);
    }
}

} // verus!
