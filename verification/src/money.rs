//! Monetary amounts.
//!
//! An amount is held as the two plain values that define a `rust_decimal::Decimal`: a signed
//! mantissa of at most 96 bits and a decimal scale of at most 28 digits.  Its value is
//! `mantissa / 10^scale`.  Comparisons and arithmetic are carried out by `rust_decimal`.
use vstd::prelude::*;

verus! {

/// Largest magnitude of a mantissa (96 bits).
pub const MAX_MANTISSA: i128 = 0xFFFF_FFFF_FFFF_FFFF_FFFF_FFFFi128;

/// Largest scale (number of decimal digits after the point).
pub const MAX_SCALE: u32 = 28u32;

pub open spec fn pow10(n: nat) -> int
    decreases n,
{
    if n == 0 {
        1
    } else {
        10 * pow10((n - 1) as nat)
    }
}

pub proof fn lemma_pow10_positive(n: nat)
    ensures
        pow10(n) >= 1,
    decreases n,
{
    if n > 0 {
        lemma_pow10_positive((n - 1) as nat);
    }
}

pub proof fn lemma_pow10_add(a: nat, b: nat)
    ensures
        pow10(a + b) == pow10(a) * pow10(b),
    decreases a,
{
    if a > 0 {
        lemma_pow10_add((a - 1) as nat, b);
        assert(pow10(a + b) == 10 * pow10((a - 1 + b) as nat));
        assert(10 * (pow10((a - 1) as nat) * pow10(b)) == (10 * pow10((a - 1) as nat)) * pow10(b))
            by (nonlinear_arith);
    }
}

/// A decimal amount of money.
#[derive(Clone, Copy, Debug)]
pub struct Money {
    mantissa: i128,
    scale: u32,
}

/// The outcome of comparing two amounts.
#[derive(Clone, Copy, Debug, PartialEq, Eq, Structural)]
pub enum AmountOrder {
    Less,
    Equal,
    Greater,
}

impl Money {
    #[verifier::type_invariant]
    spec fn well_formed(self) -> bool {
        &&& -MAX_MANTISSA <= self.mantissa <= MAX_MANTISSA
        &&& self.scale <= MAX_SCALE
    }

    pub closed spec fn mantissa_of(self) -> i128 {
        self.mantissa
    }

    pub closed spec fn scale_of(self) -> u32 {
        self.scale
    }

    /// The integer numerator of the amount at scale `s` (exact when `s >= scale`).
    pub open spec fn at_scale(self, s: nat) -> int {
        self.mantissa_of() * pow10((s - self.scale_of()) as nat)
    }

    /// Makes the amount `mantissa / 10^scale`, or `None` where `rust_decimal` cannot hold it.
    pub fn new(mantissa: i128, scale: u32) -> (r: Option<Money>)
        ensures
            r is Some <==> (-MAX_MANTISSA <= mantissa <= MAX_MANTISSA && scale <= MAX_SCALE),
            r matches Some(m) ==> m.mantissa_of() == mantissa && m.scale_of() == scale,
    {
        if -MAX_MANTISSA <= mantissa && mantissa <= MAX_MANTISSA && scale <= MAX_SCALE {
            Some(Money { mantissa, scale })
        } else {
            None
        }
    }

    /// The amount zero.
    pub fn zero() -> (r: Money)
        ensures
            r.mantissa_of() == 0,
            r.scale_of() == 0,
    {
        Money { mantissa: 0, scale: 0 }
    }

    pub fn mantissa(&self) -> (r: i128)
        ensures
            r == self.mantissa_of(),
    {
        self.mantissa
    }

    pub fn scale(&self) -> (r: u32)
        ensures
            r == self.scale_of(),
    {
        self.scale
    }
}

/// Sign of `a - b` as rational numbers, by cross-multiplication.
pub open spec fn value_compare(a: Money, b: Money) -> AmountOrder {
    let left = a.mantissa_of() * pow10(b.scale_of() as nat);
    let right = b.mantissa_of() * pow10(a.scale_of() as nat);
    if left < right {
        AmountOrder::Less
    } else if left == right {
        AmountOrder::Equal
    } else {
        AmountOrder::Greater
    }
}

/// `a` and `b` denote the same number.
pub open spec fn same_value(a: Money, b: Money) -> bool {
    value_compare(a, b) == AmountOrder::Equal
}

pub open spec fn value_lt(a: Money, b: Money) -> bool {
    value_compare(a, b) == AmountOrder::Less
}

pub open spec fn value_le(a: Money, b: Money) -> bool {
    value_compare(a, b) != AmountOrder::Greater
}

pub open spec fn is_positive(a: Money) -> bool {
    a.mantissa_of() > 0
}

pub open spec fn is_zero(a: Money) -> bool {
    a.mantissa_of() == 0
}

/// The scale at which `a` and `b` are aligned before adding or subtracting.
pub open spec fn common_scale(a: Money, b: Money) -> nat {
    if a.scale_of() >= b.scale_of() {
        a.scale_of() as nat
    } else {
        b.scale_of() as nat
    }
}

/// The exact sum of `a` and `b` aligned to their common scale.
pub open spec fn exact_sum(a: Money, b: Money) -> int {
    a.at_scale(common_scale(a, b)) + b.at_scale(common_scale(a, b))
}

/// The exact difference of `a` and `b` aligned to their common scale.
pub open spec fn exact_difference(a: Money, b: Money) -> int {
    a.at_scale(common_scale(a, b)) - b.at_scale(common_scale(a, b))
}

pub open spec fn fits_mantissa(m: int) -> bool {
    -MAX_MANTISSA <= m <= MAX_MANTISSA
}

/// The mantissa and scale that `rust_decimal` reports for an optional result.
pub open spec fn option_parts(r: Option<Money>) -> Option<(i128, u32)> {
    match r {
        Some(m) => Some((m.mantissa_of(), m.scale_of())),
        None => None,
    }
}

/// What `rust_decimal::Decimal::checked_add` returns for the decimals with these parts,
/// given by its mantissa and scale.
pub uninterp spec fn decimal_checked_add(
    a_mantissa: i128,
    a_scale: u32,
    b_mantissa: i128,
    b_scale: u32,
) -> Option<(i128, u32)>;

/// What `rust_decimal::Decimal::checked_sub` returns for the decimals with these parts,
/// given by its mantissa and scale.
pub uninterp spec fn decimal_checked_sub(
    a_mantissa: i128,
    a_scale: u32,
    b_mantissa: i128,
    b_scale: u32,
) -> Option<(i128, u32)>;

/// Compares two amounts with `rust_decimal`'s `Ord::cmp`.
///
/// Trusted: `Decimal::cmp` compares the exact rational values (it rescales the operand with
/// the smaller scale and treats a rescaling that leaves 96 bits as the larger magnitude), so
/// its result is the sign of `a.mantissa * 10^b.scale - b.mantissa * 10^a.scale`.
#[verifier::external_body]
pub(crate) fn compare_amounts(a: Money, b: Money) -> (r: AmountOrder)
    ensures
        r == value_compare(a, b),
{
    let x = rust_decimal::Decimal::from_i128_with_scale(a.mantissa, a.scale);
    let y = rust_decimal::Decimal::from_i128_with_scale(b.mantissa, b.scale);
    match x.cmp(&y) {
        std::cmp::Ordering::Less => AmountOrder::Less,
        std::cmp::Ordering::Equal => AmountOrder::Equal,
        std::cmp::Ordering::Greater => AmountOrder::Greater,
    }
}

/// Adds two amounts with `rust_decimal::Decimal::checked_add`.
///
/// Trusted: the result is named `decimal_checked_add`.  From the crate's source
/// (`ops::add::add_sub_internal`): a zero left operand gives the right operand back, a zero
/// right operand gives the left one back, and otherwise, where the sum aligned to the larger
/// scale fits in 96 bits, the result is that exact sum at the larger scale.  Where it does not
/// fit, the crate rounds to a smaller scale or reports overflow; that is left to the name.
#[verifier::external_body]
pub(crate) fn checked_add_amounts(a: Money, b: Money) -> (r: Option<Money>)
    ensures
        option_parts(r) == decimal_checked_add(a.mantissa_of(), a.scale_of(), b.mantissa_of(), b.scale_of()),
        a.mantissa_of() == 0 ==> r == Some(b),
        a.mantissa_of() != 0 && b.mantissa_of() == 0 ==> r == Some(a),
        a.mantissa_of() != 0 && b.mantissa_of() != 0 && fits_mantissa(exact_sum(a, b)) ==> (r is Some
            && r->0.mantissa_of() == exact_sum(a, b) && r->0.scale_of() == common_scale(a, b)),
{
    let x = rust_decimal::Decimal::from_i128_with_scale(a.mantissa, a.scale);
    let y = rust_decimal::Decimal::from_i128_with_scale(b.mantissa, b.scale);
    x.checked_add(y).map(|d| Money { mantissa: d.mantissa(), scale: d.scale() })
}

/// Subtracts two amounts with `rust_decimal::Decimal::checked_sub`.
///
/// Trusted: the result is named `decimal_checked_sub`.  From the crate's source: a zero left
/// operand gives the negated right operand, a zero right operand gives the left one back, and
/// otherwise, where the difference aligned to the larger scale fits in 96 bits, the result is
/// that exact difference at the larger scale.  The rounding case is left to the name.
#[verifier::external_body]
pub(crate) fn checked_sub_amounts(a: Money, b: Money) -> (r: Option<Money>)
    ensures
        option_parts(r) == decimal_checked_sub(a.mantissa_of(), a.scale_of(), b.mantissa_of(), b.scale_of()),
        a.mantissa_of() == 0 ==> (r is Some && r->0.mantissa_of() == -b.mantissa_of()
            && r->0.scale_of() == b.scale_of()),
        a.mantissa_of() != 0 && b.mantissa_of() == 0 ==> r == Some(a),
        a.mantissa_of() != 0 && b.mantissa_of() != 0 && fits_mantissa(exact_difference(a, b)) ==> (r is Some
            && r->0.mantissa_of() == exact_difference(a, b) && r->0.scale_of() == common_scale(a, b)),
{
    let x = rust_decimal::Decimal::from_i128_with_scale(a.mantissa, a.scale);
    let y = rust_decimal::Decimal::from_i128_with_scale(b.mantissa, b.scale);
    x.checked_sub(y).map(|d| Money { mantissa: d.mantissa(), scale: d.scale() })
}

/// What `rust_decimal::Decimal::from_str_exact` makes of a text, given by the mantissa and
/// scale of the decimal; `None` where it reports an error.
pub uninterp spec fn decimal_text_value(text: Seq<char>) -> Option<(i128, u32)>;

/// Reads a decimal written as text with `rust_decimal::Decimal::from_str_exact`.
///
/// Trusted: the result is named `decimal_text_value`; the crate rejects a text that it cannot
/// hold without rounding, and every decimal it makes has a 96-bit mantissa and a scale of at
/// most 28.
#[verifier::external_body]
pub(crate) fn parse_exact_amount(text: &str) -> (r: Option<Money>)
    ensures
        option_parts(r) == decimal_text_value(text@),
{
    rust_decimal::Decimal::from_str_exact(text).ok().map(|d| Money { mantissa: d.mantissa(), scale: d.scale() })
}

/// Negates an amount with `rust_decimal`'s `Neg`.
///
/// Trusted: `neg` flips the sign flag and keeps the scale and the 96-bit magnitude.
#[verifier::external_body]
pub(crate) fn negate_amount(a: Money) -> (r: Money)
    ensures
        r.mantissa_of() == -a.mantissa_of(),
        r.scale_of() == a.scale_of(),
{
    let x = -rust_decimal::Decimal::from_i128_with_scale(a.mantissa, a.scale);
    Money { mantissa: x.mantissa(), scale: x.scale() }
}

/// `amount > 0`, compared with `rust_decimal`.
pub fn amount_is_positive(a: Money) -> (r: bool)
    ensures
        r == is_positive(a),
{
    let o = compare_amounts(a, Money::zero());
    proof {
        lemma_compare_zero(a);
    }
    o == AmountOrder::Greater
}

/// `amount == 0`, compared with `rust_decimal`.
pub fn amount_is_zero(a: Money) -> (r: bool)
    ensures
        r == is_zero(a),
{
    let o = compare_amounts(a, Money::zero());
    proof {
        lemma_compare_zero(a);
    }
    o == AmountOrder::Equal
}

/// Comparing with zero goes by the sign of the mantissa.
pub proof fn lemma_compare_zero(a: Money)
    ensures
        forall|z: Money|
            z.mantissa_of() == 0 && z.scale_of() == 0 ==> {
                &&& (value_compare(a, z) == AmountOrder::Greater <==> a.mantissa_of() > 0)
                &&& (value_compare(a, z) == AmountOrder::Equal <==> a.mantissa_of() == 0)
                &&& (value_compare(a, z) == AmountOrder::Less <==> a.mantissa_of() < 0)
            },
{
    lemma_pow10_positive(a.scale_of() as nat);
    assert(pow10(0) == 1);
}

/// Comparing two amounts is comparing their mantissas aligned to the common scale.
pub proof fn lemma_compare_aligned(a: Money, b: Money)
    ensures
        ({
            let s = common_scale(a, b);
            &&& (value_compare(a, b) == AmountOrder::Less <==> a.at_scale(s) < b.at_scale(s))
            &&& (value_compare(a, b) == AmountOrder::Equal <==> a.at_scale(s) == b.at_scale(s))
            &&& (value_compare(a, b) == AmountOrder::Greater <==> a.at_scale(s) > b.at_scale(s))
        }),
{
    let s = common_scale(a, b);
    let sa = a.scale_of() as nat;
    let sb = b.scale_of() as nat;
    let pa = pow10((s - sa) as nat);
    let pb = pow10((s - sb) as nat);
    let qa = pow10(sa);
    let qb = pow10(sb);
    let p = pow10(s);
    lemma_pow10_add((s - sa) as nat, sa);
    lemma_pow10_add((s - sb) as nat, sb);
    lemma_pow10_positive(sa);
    lemma_pow10_positive(sb);
    lemma_pow10_positive(s);
    let am = a.mantissa_of() as int;
    let bm = b.mantissa_of() as int;
    let left = am * qb;
    let right = bm * qa;
    let x = am * pa;
    let y = bm * pb;
    assert(p == pa * qa);
    assert(p == pb * qb);
    assert(left * p == x * (qa * qb)) by (nonlinear_arith)
        requires
            left == am * qb,
            x == am * pa,
            p == pa * qa,
    ;
    assert(right * p == y * (qa * qb)) by (nonlinear_arith)
        requires
            right == bm * qa,
            y == bm * pb,
            p == pb * qb,
    ;
    assert(qa * qb > 0) by (nonlinear_arith)
        requires
            qa >= 1,
            qb >= 1,
    ;
    assert(left < right <==> x < y) by (nonlinear_arith)
        requires
            left * p == x * (qa * qb),
            right * p == y * (qa * qb),
            p >= 1,
            qa * qb > 0,
    ;
    assert(left == right <==> x == y) by (nonlinear_arith)
        requires
            left * p == x * (qa * qb),
            right * p == y * (qa * qb),
            p >= 1,
            qa * qb > 0,
    ;
    assert(a.at_scale(s) == x);
    assert(b.at_scale(s) == y);
}

/// An amount rewritten at a larger scale keeps its value.
pub proof fn lemma_same_value_at_scale(x: Money, a: Money, s: nat)
    requires
        s >= a.scale_of(),
        x.mantissa_of() == a.at_scale(s),
        x.scale_of() == s,
    ensures
        same_value(x, a),
{
    let sa = a.scale_of() as nat;
    lemma_pow10_add((s - sa) as nat, sa);
    let am = a.mantissa_of() as int;
    let pa = pow10((s - sa) as nat);
    let qa = pow10(sa);
    let p = pow10(s);
    assert(x.mantissa_of() * qa == am * p) by (nonlinear_arith)
        requires
            x.mantissa_of() == am * pa,
            p == pa * qa,
    ;
}

/// A positive amount that is at most `b` makes `b` positive.
pub proof fn lemma_positive_below(a: Money, b: Money)
    requires
        is_positive(a),
        value_le(a, b),
    ensures
        is_positive(b),
{
    lemma_pow10_positive(a.scale_of() as nat);
    lemma_pow10_positive(b.scale_of() as nat);
    let left = a.mantissa_of() * pow10(b.scale_of() as nat);
    let right = b.mantissa_of() * pow10(a.scale_of() as nat);
    assert(left > 0) by (nonlinear_arith)
        requires
            a.mantissa_of() > 0,
            pow10(b.scale_of() as nat) >= 1,
            left == a.mantissa_of() * pow10(b.scale_of() as nat),
    ;
    assert(b.mantissa_of() > 0) by (nonlinear_arith)
        requires
            right >= left,
            left > 0,
            pow10(a.scale_of() as nat) >= 1,
            right == b.mantissa_of() * pow10(a.scale_of() as nat),
    ;
}

/// Aligning to a larger scale keeps the sign of the mantissa.
pub proof fn lemma_at_scale_sign(a: Money, s: nat)
    ensures
        a.mantissa_of() > 0 ==> a.at_scale(s) > 0,
        a.mantissa_of() == 0 ==> a.at_scale(s) == 0,
        a.mantissa_of() < 0 ==> a.at_scale(s) < 0,
{
    let p = pow10((s - a.scale_of()) as nat);
    lemma_pow10_positive((s - a.scale_of()) as nat);
    let m = a.mantissa_of() as int;
    assert(m > 0 ==> m * p > 0) by (nonlinear_arith)
        requires
            p >= 1,
    ;
    assert(m < 0 ==> m * p < 0) by (nonlinear_arith)
        requires
            p >= 1,
    ;
}

/// An exact decimal number `num / 10^scale`, with no bound on the numerator.  Adding aligns
/// both to the larger scale.
pub open spec fn exact_add(a: (int, nat), b: (int, nat)) -> (int, nat) {
    let s = if a.1 >= b.1 {
        a.1
    } else {
        b.1
    };
    (a.0 * pow10((s - a.1) as nat) + b.0 * pow10((s - b.1) as nat), s)
}

/// The exact number `-b`.
pub open spec fn exact_neg(b: (int, nat)) -> (int, nat) {
    (-b.0, b.1)
}

/// The exact number an amount denotes.
pub open spec fn exact_of(m: Money) -> (int, nat) {
    (m.mantissa_of() as int, m.scale_of() as nat)
}

/// `m` denotes the exact number `e`, written at a scale no larger than `e`'s.
pub open spec fn represents(m: Money, e: (int, nat)) -> bool {
    m.scale_of() <= e.1 && m.mantissa_of() * pow10((e.1 - m.scale_of()) as nat) == e.0
}

/// Combining `a` and `b` (`sign` is 1 to add, -1 to subtract) aligned to their common scale,
/// then scaling up to the scale of the exact combination of what they denote, gives that
/// exact combination.
proof fn lemma_aligned_combination(a: Money, e: (int, nat), b: Money, f: (int, nat), sign: int)
    requires
        represents(a, e),
        represents(b, f),
        sign == 1 || sign == -1,
    ensures
        ({
            let n = exact_add(e, (sign * f.0, f.1));
            let s = common_scale(a, b);
            &&& s <= n.1
            &&& n.0 == (a.at_scale(s) + sign * b.at_scale(s)) * pow10((n.1 - s) as nat)
            &&& a.at_scale(s) * pow10((n.1 - s) as nat) == a.mantissa_of() * pow10(
                (n.1 - a.scale_of()) as nat,
            )
            &&& b.at_scale(s) * pow10((n.1 - s) as nat) == b.mantissa_of() * pow10(
                (n.1 - b.scale_of()) as nat,
            )
        }),
{
    let n = exact_add(e, (sign * f.0, f.1));
    let big = n.1;
    let s = common_scale(a, b);
    let sa = a.scale_of() as nat;
    let sb = b.scale_of() as nat;
    let am = a.mantissa_of() as int;
    let bm = b.mantissa_of() as int;
    // a's part of the exact combination
    lemma_pow10_add((e.1 - sa) as nat, (big - e.1) as nat);
    lemma_pow10_add((s - sa) as nat, (big - s) as nat);
    let ea = pow10((e.1 - sa) as nat);
    let eb = pow10((big - e.1) as nat);
    let xa = pow10((s - sa) as nat);
    let xs = pow10((big - s) as nat);
    let full_a = pow10((big - sa) as nat);
    assert(((e.1 - sa) as nat + (big - e.1) as nat) as nat == (big - sa) as nat);
    assert(((s - sa) as nat + (big - s) as nat) as nat == (big - sa) as nat);
    assert(e.0 * eb == am * full_a) by (nonlinear_arith)
        requires
            e.0 == am * ea,
            full_a == ea * eb,
    ;
    assert(a.at_scale(s) * xs == am * full_a) by (nonlinear_arith)
        requires
            a.at_scale(s) == am * xa,
            full_a == xa * xs,
    ;
    // b's part
    lemma_pow10_add((f.1 - sb) as nat, (big - f.1) as nat);
    lemma_pow10_add((s - sb) as nat, (big - s) as nat);
    let fa = pow10((f.1 - sb) as nat);
    let fb = pow10((big - f.1) as nat);
    let yb = pow10((s - sb) as nat);
    let full_b = pow10((big - sb) as nat);
    assert(((f.1 - sb) as nat + (big - f.1) as nat) as nat == (big - sb) as nat);
    assert(((s - sb) as nat + (big - s) as nat) as nat == (big - sb) as nat);
    assert((sign * f.0) * fb == sign * (bm * full_b)) by (nonlinear_arith)
        requires
            f.0 == bm * fa,
            full_b == fa * fb,
    ;
    assert(b.at_scale(s) * xs == bm * full_b) by (nonlinear_arith)
        requires
            b.at_scale(s) == bm * yb,
            full_b == yb * xs,
    ;
    assert(n.0 == e.0 * eb + (sign * f.0) * fb);
    assert((a.at_scale(s) + sign * b.at_scale(s)) * xs == a.at_scale(s) * xs + sign * (
    b.at_scale(s) * xs)) by (nonlinear_arith);
}

/// A number whose multiple by a power of ten fits in 96 bits fits too.
proof fn lemma_fits_below_scaled(x: int, k: nat)
    requires
        fits_mantissa(x * pow10(k)),
    ensures
        fits_mantissa(x),
{
    lemma_pow10_positive(k);
    let p = pow10(k);
    assert(x >= 0 ==> x <= x * p) by (nonlinear_arith)
        requires
            p >= 1,
    ;
    assert(x < 0 ==> x * p <= x) by (nonlinear_arith)
        requires
            p >= 1,
    ;
}

/// Where the exact sum of what `a` denotes and `b` fits in 96 bits, the checked sum that
/// `checked_add_amounts` reports (by its contract) exists and denotes that exact sum.
pub proof fn lemma_checked_sum_is_exact(a: Money, e: (int, nat), b: Money, r: Option<Money>)
    requires
        represents(a, e),
        fits_mantissa(exact_add(e, exact_of(b)).0),
        a.mantissa_of() == 0 ==> r == Some(b),
        a.mantissa_of() != 0 && b.mantissa_of() == 0 ==> r == Some(a),
        a.mantissa_of() != 0 && b.mantissa_of() != 0 && fits_mantissa(exact_sum(a, b)) ==> (r is Some
            && r->0.mantissa_of() == exact_sum(a, b) && r->0.scale_of() == common_scale(a, b)),
    ensures
        r is Some,
        represents(r->0, exact_add(e, exact_of(b))),
{
    let f = exact_of(b);
    assert(pow10(0) == 1);
    assert(represents(b, f));
    lemma_aligned_combination(a, e, b, f, 1);
    assert(1 * f.0 == f.0);
    let n = exact_add(e, f);
    let s = common_scale(a, b);
    assert(exact_sum(a, b) == a.at_scale(s) + 1 * b.at_scale(s));
    lemma_fits_below_scaled(exact_sum(a, b), (n.1 - s) as nat);
    if a.mantissa_of() == 0 {
        lemma_at_scale_sign(a, s);
        assert(b.mantissa_of() * pow10((n.1 - b.scale_of()) as nat) == n.0);
    } else if b.mantissa_of() == 0 {
        lemma_at_scale_sign(b, s);
        assert(a.mantissa_of() * pow10((n.1 - a.scale_of()) as nat) == n.0);
    }
}

/// Where the exact difference of what `a` and `b` denote fits in 96 bits, the checked
/// difference that `checked_sub_amounts` reports (by its contract) exists and denotes it.
pub proof fn lemma_checked_difference_is_exact(
    a: Money,
    e: (int, nat),
    b: Money,
    f: (int, nat),
    r: Option<Money>,
)
    requires
        represents(a, e),
        represents(b, f),
        fits_mantissa(exact_add(e, exact_neg(f)).0),
        a.mantissa_of() == 0 ==> (r is Some && r->0.mantissa_of() == -b.mantissa_of()
            && r->0.scale_of() == b.scale_of()),
        a.mantissa_of() != 0 && b.mantissa_of() == 0 ==> r == Some(a),
        a.mantissa_of() != 0 && b.mantissa_of() != 0 && fits_mantissa(exact_difference(a, b))
            ==> (r is Some && r->0.mantissa_of() == exact_difference(a, b) && r->0.scale_of()
            == common_scale(a, b)),
    ensures
        r is Some,
        represents(r->0, exact_add(e, exact_neg(f))),
{
    lemma_aligned_combination(a, e, b, f, -1);
    assert(exact_neg(f) == (-1 * f.0, f.1));
    let n = exact_add(e, exact_neg(f));
    let s = common_scale(a, b);
    assert(exact_difference(a, b) == a.at_scale(s) + -1 * b.at_scale(s));
    lemma_fits_below_scaled(exact_difference(a, b), (n.1 - s) as nat);
    if a.mantissa_of() == 0 {
        lemma_at_scale_sign(a, s);
        let m = b.mantissa_of() as int;
        let p = pow10((n.1 - b.scale_of()) as nat);
        let bs = b.at_scale(s);
        let xs = pow10((n.1 - s) as nat);
        assert(n.0 == -(bs * xs)) by (nonlinear_arith)
            requires
                n.0 == (0 + -1 * bs) * xs,
        ;
        assert((-m) * p == -(m * p)) by (nonlinear_arith);
    } else if b.mantissa_of() == 0 {
        lemma_at_scale_sign(b, s);
        assert(a.mantissa_of() * pow10((n.1 - a.scale_of()) as nat) == n.0);
    }
}

} // verus!
