//! The rating engine's verified half. A rating is carried as the raw
//! IEEE-754 bit patterns of its mean and standard deviation, so that the
//! surrounding logic is a pure value computation.
//!
//! The Bayesian rater of the outside crate works on floating-point
//! numbers, which this library does not hold; the worker around the
//! library makes that one call. Everything around it is decided and
//! proved here: the rater assumes equal team sizes, so both rosters are
//! expanded to their least common multiple by cyclic repetition before
//! the call, and the returned ratings are truncated back to the original
//! team sizes afterwards.

use vstd::prelude::*;
use vstd::arithmetic::div_mod::{
    lemma_add_mod_noop, lemma_fundamental_div_mod, lemma_mod_multiples_basic,
    lemma_mul_mod_noop_left,
};

verus! {

/// IEEE-754 bits of the default rating mean, 1500.
pub const DEFAULT_RATING_MU_BITS: u64 = 0x4097_7000_0000_0000;

/// IEEE-754 bits of the default rating deviation, 500 (a third of the
/// default mean).
pub const DEFAULT_RATING_SIGMA_BITS: u64 = 0x407F_4000_0000_0000;

/// IEEE-754 bits of the rater's variance parameter β, 250 (a sixth of
/// the default mean).
pub const BETA_BITS: u64 = 0x406F_4000_0000_0000;

/// A Bayesian skill estimate: mean and standard deviation, both as raw
/// IEEE-754 bit patterns.
#[derive(Debug, Clone, Copy, PartialEq, Eq, Hash, Structural)]
pub struct Rating {
    pub mu_bits: u64,
    pub sigma_bits: u64,
}

/// The rating of a player never seen before.
pub open spec fn initial_rating() -> Rating {
    Rating { mu_bits: DEFAULT_RATING_MU_BITS, sigma_bits: DEFAULT_RATING_SIGMA_BITS }
}

impl Rating {
    /// Builds a rating from its two bit patterns.
    pub fn new(mu_bits: u64, sigma_bits: u64) -> (r: Rating)
        ensures
            r == (Rating { mu_bits, sigma_bits }),
    {
        Rating { mu_bits, sigma_bits }
    }

    /// The rating of a player never seen before.
    pub fn initial() -> (r: Rating)
        ensures
            r == initial_rating(),
    {
        Rating { mu_bits: DEFAULT_RATING_MU_BITS, sigma_bits: DEFAULT_RATING_SIGMA_BITS }
    }
}

/// The greatest common divisor, by Euclid's rule.
pub open spec fn spec_gcd(a: nat, b: nat) -> nat
    decreases b,
{
    if b == 0 {
        a
    } else {
        spec_gcd(b, a % b)
    }
}

/// The least common multiple of two counts, written as the quotient
/// form that the executable code computes.
pub open spec fn spec_lcm(a: nat, b: nat) -> nat {
    if a == 0 || b == 0 {
        0
    } else {
        (a / spec_gcd(a, b)) * b
    }
}

/// The greatest common divisor is positive and divides both arguments.
proof fn lemma_gcd_divides(a: nat, b: nat)
    requires
        a > 0 || b > 0,
    ensures
        spec_gcd(a, b) > 0,
        a % spec_gcd(a, b) == 0,
        b % spec_gcd(a, b) == 0,
    decreases b,
{
    let g = spec_gcd(a, b);
    if b == 0 {
        assert(g == a);
        assert(a % a == 0) by {
            lemma_fundamental_div_mod(a as int, a as int);
        }
    } else {
        lemma_gcd_divides(b, a % b);
        assert(g == spec_gcd(b, a % b));
        assert(b % g == 0);
        assert((a % b) % g == 0);
        assert(a % g == 0) by {
            lemma_fundamental_div_mod(a as int, b as int);
            assert(a == b * (a as int / b as int) + a % b);
            assert((b * (a as int / b as int)) % (g as int) == 0) by {
                lemma_mul_mod_noop_left(b as int, a as int / b as int, g as int);
                assert((b as int % g as int) == 0);
                assert((b as int % g as int) * (a as int / b as int) == 0);
            }
            lemma_add_mod_noop(b * (a as int / b as int), (a % b) as int, g as int);
        }
    }
}

/// The least common multiple is a multiple of both counts and at least
/// as large as each.
pub proof fn lemma_lcm_bounds(a: nat, b: nat)
    requires
        a > 0,
        b > 0,
    ensures
        spec_lcm(a, b) % a == 0,
        spec_lcm(a, b) % b == 0,
        spec_lcm(a, b) >= a,
        spec_lcm(a, b) >= b,
{
    let g = spec_gcd(a, b);
    lemma_gcd_divides(a, b);
    lemma_fundamental_div_mod(a as int, g as int);
    lemma_fundamental_div_mod(b as int, g as int);
    assert(a == g * (a / g));
    assert(b == g * (b / g));
    let m = spec_lcm(a, b);
    assert(m == (a / g) * b);
    assert(a / g >= 1);
    assert(b / g >= 1);
    assert(m >= b) by (nonlinear_arith)
        requires
            m == (a / g) * b,
            a / g >= 1,
            b > 0,
    ;
    assert(m == a * (b / g)) by (nonlinear_arith)
        requires
            m == (a / g) * b,
            a == g * (a / g),
            b == g * (b / g),
    ;
    assert(m >= a) by (nonlinear_arith)
        requires
            m == a * (b / g),
            b / g >= 1,
            a > 0,
    ;
    assert(m % b == 0) by {
        lemma_mod_multiples_basic(a as int / g as int, b as int);
    }
    assert(m % a == 0) by {
        lemma_mod_multiples_basic(b as int / g as int, a as int);
        assert(m == (b / g) * a) by (nonlinear_arith)
            requires
                m == a * (b / g),
        ;
    }
}

/// Computes the greatest common divisor of two counts.
fn gcd(a: usize, b: usize) -> (r: usize)
    ensures
        r == spec_gcd(a as nat, b as nat),
{
    let mut x: usize = a;
    let mut y: usize = b;
    while y != 0
        invariant
            spec_gcd(a as nat, b as nat) == spec_gcd(x as nat, y as nat),
        decreases y,
    {
        let t = x % y;
        x = y;
        y = t;
    }
    x
}

/// A team expanded to `n` slots by cyclic repetition.
pub open spec fn cyclic_expand(s: Seq<Rating>, n: int) -> Seq<Rating> {
    Seq::new(n as nat, |i: int| s[i % s.len() as int])
}

/// Expands a team to `n` slots by cyclic repetition.
fn expand_team(team: &Vec<Rating>, n: usize) -> (r: Vec<Rating>)
    requires
        team@.len() > 0,
    ensures
        r@ == cyclic_expand(team@, n as int),
{
    let mut out: Vec<Rating> = Vec::new();
    let mut i: usize = 0;
    while i < n
        invariant
            0 <= i <= n,
            team@.len() > 0,
            out@ =~= cyclic_expand(team@, i as int),
        decreases n - i,
    {
        out.push(team[i % team.len()]);
        i = i + 1;
        proof {
            assert(out@ =~= cyclic_expand(team@, i as int));
        }
    }
    proof {
        assert(out@ =~= cyclic_expand(team@, n as int));
    }
    out
}

/// Expands two non-empty teams to their least common multiple of sizes
/// by cyclic repetition, ready to be handed to the rater as two teams of
/// equal size.
pub fn expand_to_lcm(first: &Vec<Rating>, second: &Vec<Rating>) -> (r: (Vec<Rating>, Vec<Rating>))
    requires
        first@.len() > 0,
        second@.len() > 0,
        spec_lcm(first@.len(), second@.len()) <= usize::MAX,
    ensures
        ({
            let m = spec_lcm(first@.len(), second@.len()) as int;
            &&& r.0@ == cyclic_expand(first@, m)
            &&& r.1@ == cyclic_expand(second@, m)
            &&& r.0@.len() == m
            &&& r.1@.len() == m
            &&& m >= first@.len()
            &&& m >= second@.len()
        }),
{
    proof {
        lemma_lcm_bounds(first@.len(), second@.len());
        lemma_gcd_divides(first@.len(), second@.len());
    }
    let g = gcd(first.len(), second.len());
    let m = (first.len() / g) * second.len();
    let a = expand_team(first, m);
    let b = expand_team(second, m);
    (a, b)
}

/// Truncates two rated teams back to the original team sizes: the
/// retained ratings are those at the duplicated-slot positions below the
/// original sizes. Lists already at or below the wanted size are kept
/// whole.
pub fn truncate_rated(rated: (Vec<Rating>, Vec<Rating>), n_first: usize, n_second: usize) -> (r: (
    Vec<Rating>,
    Vec<Rating>,
))
    ensures
        r.0@ == (if n_first as int <= rated.0@.len() {
            rated.0@.take(n_first as int)
        } else {
            rated.0@
        }),
        r.1@ == (if n_second as int <= rated.1@.len() {
            rated.1@.take(n_second as int)
        } else {
            rated.1@
        }),
{
    let (mut a, mut b) = rated;
    a.truncate(n_first);
    b.truncate(n_second);
    (a, b)
}

} // verus!
