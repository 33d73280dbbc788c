//! Powers of two, the page size, and the alignments that a file asks of its users.

use vstd::arithmetic::power2::*;
use vstd::prelude::*;

verus! {

/// Alignments that requests to a file must observe.
#[derive(Clone, Copy, Debug, PartialEq, Eq, Structural)]
pub struct Alignments {
    /// Alignment of offset and length of a request.
    pub req_align: usize,
    /// Alignment of the memory buffers of a request.
    pub mem_align: usize,
}

impl Alignments {
    /// Both alignments are powers of two.
    pub open spec fn valid(self) -> bool {
        &&& is_pow2(self.req_align as int)
        &&& is_pow2(self.mem_align as int)
    }
}

pub open spec fn max_int(a: int, b: int) -> int {
    if a >= b {
        a
    } else {
        b
    }
}

pub open spec fn min_int(a: int, b: int) -> int {
    if a <= b {
        a
    } else {
        b
    }
}

/// The larger and the smaller of two numbers are these numbers, and none of them is beyond them.
pub proof fn law_max_and_min(a: int, b: int)
    ensures
        max_int(a, b) >= a && max_int(a, b) >= b,
        min_int(a, b) <= a && min_int(a, b) <= b,
        max_int(a, b) == a || max_int(a, b) == b,
        max_int(a, b) + min_int(a, b) == a + b,
{
}

/// `p` is the smallest power of two that is not below `n`.
pub open spec fn is_next_pow2(n: int, p: int) -> bool {
    &&& is_pow2(p)
    &&& n <= p
    &&& forall|q: int| #[trigger] is_pow2(q) && n <= q ==> p <= q
}

/// No power of two from `n` on fits into a `usize`.
pub open spec fn no_next_pow2(n: int) -> bool {
    forall|q: int| #[trigger] is_pow2(q) && n <= q ==> q > usize::MAX
}

/// Doubling a power of two gives a power of two.
pub proof fn lemma_pow2_double(n: int)
    requires
        is_pow2(n),
    ensures
        n >= 1,
        is_pow2(2 * n),
{
    reveal(is_pow2);
    assert((2 * n) / 2 == n);
}

/// Of two different powers of two, the larger is at least twice the smaller.
pub proof fn lemma_pow2_gap(a: int, b: int)
    requires
        is_pow2(a),
        is_pow2(b),
        a < b,
    ensures
        2 * a <= b,
    decreases b,
{
    reveal(is_pow2);
    if a > 1 {
        lemma_pow2_gap(a / 2, b / 2);
    }
}

/// What a `usize` cannot hold begins at a power of two; so no power of two that it can hold is above
/// half of that.
pub proof fn lemma_pow2_in_usize(p: int)
    requires
        is_pow2(p),
        p <= usize::MAX,
    ensures
        2 * p <= usize::MAX + 1,
{
    assert(is_pow2(usize::MAX + 1)) by {
        reveal_with_fuel(is_pow2, 66);
        assert(usize::MAX + 1 == 0x1_0000_0000 || usize::MAX + 1 == 0x1_0000_0000_0000_0000);
    }
    lemma_pow2_gap(p, usize::MAX + 1);
}

/// A power of two is divided exactly by those powers of two that are not above it.
pub proof fn lemma_pow2_divides(d: int, n: int)
    requires
        is_pow2(d),
        is_pow2(n),
    ensures
        n % d == 0 <==> d <= n,
    decreases n,
{
    reveal(is_pow2);
    if d == 1 {
        assert(n % 1 == 0);
    } else if n < d {
        assert(n % d == n) by {
            vstd::arithmetic::div_mod::lemma_small_mod(n as nat, d as nat);
        }
    } else {
        lemma_pow2_divides(d / 2, n / 2);
        let k = (n / 2) / (d / 2);
        assert(n / 2 == (d / 2) * k) by {
            vstd::arithmetic::div_mod::lemma_fundamental_div_mod(n / 2, d / 2);
        }
        assert(n == k * d) by (nonlinear_arith)
            requires
                n / 2 == (d / 2) * k,
                n % 2 == 0,
                d % 2 == 0,
        ;
        vstd::arithmetic::div_mod::lemma_mod_multiples_basic(k, d);
    }
}

/// The powers of two that the alignment rules name.
pub proof fn lemma_pow2_constants()
    ensures
        is_pow2(1),
        is_pow2(512),
        is_pow2(4096),
        is_pow2(65536),
{
    reveal(is_pow2);
    reveal_with_fuel(is_pow2, 18);
}

/// Whether `n` is a power of two.
pub fn is_power_of_two(n: usize) -> (r: bool)
    ensures
        r == is_pow2(n as int),
{
    reveal(is_pow2);
    if n == 0 {
        return false;
    }
    let mut rest: usize = n;
    while rest % 2 == 0
        invariant
            rest > 0,
            is_pow2(rest as int) == is_pow2(n as int),
        decreases rest,
    {
        reveal(is_pow2);
        rest = rest / 2;
    }
    rest == 1
}

/// The smallest power of two that is not below `n`, unless it is too large for a `usize`.
pub fn checked_next_power_of_two(n: usize) -> (r: Option<usize>)
    ensures
        match r {
            Some(p) => is_next_pow2(n as int, p as int),
            None => no_next_pow2(n as int),
        },
        r matches Some(p) ==> is_pow2(p as int) && n <= p && (p == 1 || p < 2 * n),
        r is None <==> 2 * n > usize::MAX + 1,
{
    proof {
        lemma_pow2_constants();
        reveal(is_pow2);
    }
    let mut p: usize = 1;
    while p < n
        invariant
            is_pow2(p as int),
            p == 1 || p < 2 * n,
            forall|q: int| #[trigger] is_pow2(q) && n <= q ==> p <= q,
        decreases usize::MAX - p,
    {
        proof {
            lemma_pow2_double(p as int);
            assert forall|q: int| #[trigger] is_pow2(q) && n <= q implies 2 * p <= q by {
                lemma_pow2_gap(p as int, q);
            }
        }
        if p > usize::MAX / 2 {
            return None;
        }
        p = p * 2;
    }
    proof {
        lemma_pow2_in_usize(p as int);
    }
    Some(p)
}

/// What to take for the page size where the system reports `reported`.
///
/// A power of two is taken as it is.  Anything else is rounded up to a power of two that is at
/// least 4096; where no such power fits into a `usize`, 4096 is taken.
pub fn usable_page_size(reported: usize) -> (r: usize)
    ensures
        is_pow2(r as int),
        is_pow2(reported as int) ==> r == reported,
        !is_pow2(reported as int) && no_next_pow2(reported as int) ==> r == 4096,
        !is_pow2(reported as int) && !no_next_pow2(reported as int) ==> is_next_pow2(
            max_int(reported as int, 4096),
            r as int,
        ),
        !is_pow2(reported as int) && (reported <= 4096 || 2 * reported > usize::MAX + 1) ==> r
            == 4096,
        !is_pow2(reported as int) && reported > 4096 && 2 * reported <= usize::MAX + 1 ==> reported
            < r < 2 * reported,
{
    if is_power_of_two(reported) {
        return reported;
    }
    proof {
        lemma_pow2_constants();
    }
    match checked_next_power_of_two(reported) {
        Some(p) => if p < 4096 {
            4096
        } else {
            p
        },
        None => 4096,
    }
}

/// Calls `page_size::get`, which asks the system for its page size.  Nothing is claimed of the
/// number: it is whatever the system reports.
#[verifier::external_body]
fn reported_page_size() -> (r: usize) {
    page_size::get()
}

/// The page size of this system, as far as it can be used.
pub fn system_page_size() -> (r: usize)
    ensures
        is_pow2(r as int),
{
    usable_page_size(reported_page_size())
}

} // verus!
