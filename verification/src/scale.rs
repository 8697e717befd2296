//! From a scaling policy and a logical size to a size in physical pixels.
//!
//! A scale factor is an exact ratio of two integers, so every size computed
//! here is exact: there is no accumulated rounding before the one rounding
//! step that yields whole pixels.

use vstd::prelude::*;
use vstd::arithmetic::div_mod::{lemma_fundamental_div_mod, lemma_fundamental_div_mod_converse, lemma_mod_bound};
use crate::error::WindowError;

verus! {

/// A scale factor, `numer / denom`.
///
/// A zero denominator stands for a factor that is not a finite number.
#[derive(Clone, Copy, Debug, PartialEq, Eq, Structural)]
pub struct ScaleFactor {
    pub numer: i64,
    pub denom: u64,
}

/// How the scale factor of a window is chosen.
#[derive(Clone, Copy, Debug, PartialEq, Eq, Structural)]
pub enum ScalePolicy {
    /// Follow the host display: use the factor that the display reports,
    /// where the platform knows one. Without a report, or with one that is
    /// not a valid factor, the factor is one.
    SystemDefault(Option<ScaleFactor>),
    /// Use this factor.
    Explicit(ScaleFactor),
}

/// A size in logical pixels.
#[derive(Clone, Copy, Debug, PartialEq, Eq, Structural)]
pub struct LogicalSize {
    pub width: u32,
    pub height: u32,
}

/// A size in physical pixels.
#[derive(Clone, Copy, Debug, PartialEq, Eq, Structural)]
pub struct PhysicalSize {
    pub width: u32,
    pub height: u32,
}

/// The factor that a policy came down to, and the physical size it gives.
#[derive(Clone, Copy, Debug, PartialEq, Eq, Structural)]
pub struct ResolvedScale {
    pub factor: ScaleFactor,
    pub physical: PhysicalSize,
}

/// The integer nearest to `p / q`, for `p >= 0` and `q > 0`. Halfway between
/// two integers, it is the one farther from zero.
pub open spec fn round_half_away(p: int, q: int) -> int {
    (2 * p + q) / (2 * q)
}

/// `logical` pixels scaled by `factor` and rounded to whole pixels, but no
/// more than a `u32` can hold.
pub open spec fn scaled_extent(logical: u32, factor: ScaleFactor) -> int {
    let exact = round_half_away(logical as int * factor.numer as int, factor.denom as int);
    if exact > u32::MAX as int {
        u32::MAX as int
    } else {
        exact
    }
}

/// The factor that `policy` stands for.
pub open spec fn effective_factor(policy: ScalePolicy) -> ScaleFactor {
    match policy {
        ScalePolicy::SystemDefault(Some(reported)) => if reported.valid() {
            reported
        } else {
            ScaleFactor { numer: 1, denom: 1 }
        },
        ScalePolicy::SystemDefault(None) => ScaleFactor { numer: 1, denom: 1 },
        ScalePolicy::Explicit(factor) => factor,
    }
}

/// What `resolve_scale` returns.
pub open spec fn resolved(policy: ScalePolicy, logical: LogicalSize) -> Result<
    ResolvedScale,
    WindowError,
> {
    let factor = effective_factor(policy);
    if factor.valid() {
        Ok(
            ResolvedScale {
                factor,
                physical: PhysicalSize {
                    width: scaled_extent(logical.width, factor) as u32,
                    height: scaled_extent(logical.height, factor) as u32,
                },
            },
        )
    } else {
        Err(WindowError::InvalidScale)
    }
}

impl ScaleFactor {
    /// A factor is valid when it is a finite number greater than zero.
    pub open spec fn valid(self) -> bool {
        self.numer > 0 && self.denom > 0
    }

    /// The factor that changes nothing.
    pub fn one() -> (f: ScaleFactor)
        ensures
            f.numer == 1,
            f.denom == 1,
    {
        ScaleFactor { numer: 1, denom: 1 }
    }

    /// Whether the factor is a finite number greater than zero.
    pub fn is_valid(&self) -> (b: bool)
        ensures
            b == self.valid(),
    {
        self.numer > 0 && self.denom > 0
    }

    /// Scales one extent and rounds it to whole pixels.
    fn scale_extent(&self, logical: u32) -> (physical: u32)
        requires
            self.valid(),
        ensures
            physical as int == scaled_extent(logical, *self),
    {
        let numer: u128 = self.numer as u128;
        let denom: u128 = self.denom as u128;
        assert(logical as int * numer as int <= 0xffff_ffff * 0x7fff_ffff_ffff_ffff) by (nonlinear_arith)
            requires
                0 <= logical as int <= 0xffff_ffff,
                0 <= numer as int <= 0x7fff_ffff_ffff_ffff,
        ;
        let product: u128 = (logical as u128) * numer;
        let rounded: u128 = (2 * product + denom) / (2 * denom);
        if rounded > u32::MAX as u128 {
            u32::MAX
        } else {
            rounded as u32
        }
    }
}

/// Resolves a scaling policy on a logical size.
///
/// The factor is the explicit one, or for the system default the one that
/// the display reports, or one where there is no valid report. An explicit
/// factor that is not valid is refused with `InvalidScale`. Otherwise each
/// extent is multiplied by the factor and rounded to the nearest whole
/// pixel, a half going up, and held to what a `u32` can hold.
pub fn resolve_scale(policy: ScalePolicy, logical: LogicalSize) -> (r: Result<
    ResolvedScale,
    WindowError,
>)
    ensures
        r == resolved(policy, logical),
{
    let factor = match policy {
        ScalePolicy::SystemDefault(Some(reported)) => if reported.is_valid() {
            reported
        } else {
            ScaleFactor::one()
        },
        ScalePolicy::SystemDefault(None) => ScaleFactor::one(),
        ScalePolicy::Explicit(factor) => factor,
    };
    if !factor.is_valid() {
        return Err(WindowError::InvalidScale);
    }
    let width = factor.scale_extent(logical.width);
    let height = factor.scale_extent(logical.height);
    Ok(ResolvedScale { factor, physical: PhysicalSize { width, height } })
}

/// Rounding gives the nearest integer: the rounded value lies less than
/// half a unit below the exact quotient `p / q` and at most half a unit
/// above it. Only when the quotient lies halfway between two integers is
/// the distance a full half, and then the rounded value is the greater one.
pub proof fn lemma_round_half_away_is_nearest(p: int, q: int)
    requires
        p >= 0,
        q > 0,
    ensures
        round_half_away(p, q) >= 0,
        2 * p - q < 2 * (round_half_away(p, q) * q) <= 2 * p + q,
{
    let r = round_half_away(p, q);
    let d = 2 * q;
    let n = 2 * p + q;
    lemma_fundamental_div_mod(n, d);
    lemma_mod_bound(n, d);
    assert(d * r == 2 * (r * q)) by (nonlinear_arith)
        requires
            d == 2 * q,
    ;
    assert(r >= 0) by (nonlinear_arith)
        requires
            d * r + d > 0,
            d > 0,
    ;
}

/// Only one integer lies that near to `p / q`: whatever meets the bounds of
/// `lemma_round_half_away_is_nearest` is the rounded value.
pub proof fn lemma_nearest_is_round_half_away(p: int, q: int, r: int)
    requires
        p >= 0,
        q > 0,
        2 * p - q < 2 * (r * q) <= 2 * p + q,
    ensures
        r == round_half_away(p, q),
{
    let d = 2 * q;
    let n = 2 * p + q;
    assert(r * d == 2 * (r * q)) by (nonlinear_arith)
        requires
            d == 2 * q,
    ;
    lemma_fundamental_div_mod_converse(n, d, r, n - r * d);
}

/// A scaled extent is the whole number of pixels nearest to `logical` times
/// the factor, a half going up, unless that is more than a `u32` can hold.
pub proof fn lemma_scaled_extent_is_nearest(logical: u32, factor: ScaleFactor)
    requires
        factor.valid(),
    ensures
        0 <= scaled_extent(logical, factor) <= u32::MAX,
        scaled_extent(logical, factor) < u32::MAX ==> 2 * (logical * factor.numer) - factor.denom
            < 2 * (scaled_extent(logical, factor) * factor.denom) <= 2 * (logical * factor.numer)
            + factor.denom,
        scaled_extent(logical, factor) == u32::MAX ==> 2 * (u32::MAX * factor.denom) <= 2 * (
        logical * factor.numer) + factor.denom,
{
    let p = logical as int * factor.numer as int;
    let q = factor.denom as int;
    assert(p >= 0) by (nonlinear_arith)
        requires
            p == logical as int * factor.numer as int,
            logical >= 0,
            factor.numer > 0,
    ;
    lemma_round_half_away_is_nearest(p, q);
    let r = round_half_away(p, q);
    if r >= u32::MAX {
        assert(u32::MAX * q <= r * q) by (nonlinear_arith)
            requires
                u32::MAX <= r,
                q > 0,
        ;
    }
}

/// A whole factor multiplies: at `n / 1` an extent of `logical` pixels
/// becomes `logical * n` pixels, as far as a `u32` can hold them.
pub proof fn lemma_whole_factor_multiplies(logical: u32, n: i64)
    requires
        n > 0,
    ensures
        scaled_extent(logical, ScaleFactor { numer: n, denom: 1 }) == if logical * n > u32::MAX {
            u32::MAX as int
        } else {
            logical * n
        },
{
    let p = logical as int * n as int;
    assert(p >= 0) by (nonlinear_arith)
        requires
            p == logical as int * n as int,
            logical >= 0,
            n > 0,
    ;
    lemma_nearest_is_round_half_away(p, 1, p);
}

/// Resolving is a function of the policy and the logical size alone: two
/// results for the same policy and size are the same result.
pub proof fn lemma_resolution_is_deterministic(
    policy: ScalePolicy,
    logical: LogicalSize,
    first: Result<ResolvedScale, WindowError>,
    second: Result<ResolvedScale, WindowError>,
)
    requires
        first == resolved(policy, logical),
        second == resolved(policy, logical),
    ensures
        first == second,
{
}

/// Resolving fails exactly on an explicit factor that is not valid, and then
/// with `InvalidScale`; a resolved factor is always valid.
pub proof fn lemma_resolution_fails_only_on_invalid_factor(policy: ScalePolicy, logical: LogicalSize)
    ensures
        resolved(policy, logical) is Err <==> (policy matches ScalePolicy::Explicit(factor)
            && !factor.valid()),
        resolved(policy, logical) is Err ==> resolved(policy, logical) == Err::<
            ResolvedScale,
            WindowError,
        >(WindowError::InvalidScale),
        resolved(policy, logical) matches Ok(scale) ==> scale.factor.valid() && scale.factor
            == effective_factor(policy),
{
}

} // verus!
