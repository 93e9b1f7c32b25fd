//! Decimal amounts: exact fixed-point numbers with a 96-bit mantissa and a
//! scale of at most 28 decimal places, computed by `rust_decimal`.
use vstd::prelude::*;
use rust_decimal::Decimal;

verus! {

/// `10^n`, written out for the scales an amount can carry (`n <= 28`).
pub open spec fn pow10(n: nat) -> int
    decreases n,
{
    if n == 0 {
        1int
    } else if n == 1 {
        10int
    } else if n == 2 {
        100int
    } else if n == 3 {
        1000int
    } else if n == 4 {
        10000int
    } else if n == 5 {
        100000int
    } else if n == 6 {
        1000000int
    } else if n == 7 {
        10000000int
    } else if n == 8 {
        100000000int
    } else if n == 9 {
        1000000000int
    } else if n == 10 {
        10000000000int
    } else if n == 11 {
        100000000000int
    } else if n == 12 {
        1000000000000int
    } else if n == 13 {
        10000000000000int
    } else if n == 14 {
        100000000000000int
    } else if n == 15 {
        1000000000000000int
    } else if n == 16 {
        10000000000000000int
    } else if n == 17 {
        100000000000000000int
    } else if n == 18 {
        1000000000000000000int
    } else if n == 19 {
        10000000000000000000int
    } else if n == 20 {
        100000000000000000000int
    } else if n == 21 {
        1000000000000000000000int
    } else if n == 22 {
        10000000000000000000000int
    } else if n == 23 {
        100000000000000000000000int
    } else if n == 24 {
        1000000000000000000000000int
    } else if n == 25 {
        10000000000000000000000000int
    } else if n == 26 {
        100000000000000000000000000int
    } else if n == 27 {
        1000000000000000000000000000int
    } else if n == 28 {
        10000000000000000000000000000int

    } else {
        10 * pow10((n - 1) as nat)
    }
}

/// `2^96`: every mantissa lies strictly between `-2^96` and `2^96`.
pub open spec fn mantissa_limit() -> int {
    79228162514264337593543950336int
}

/// A view of an amount: its mantissa, its scale, and whether it is a zero that carries a
/// minus sign (`Decimal` keeps a sign bit, so `-0` and `0` are written differently); the
/// number is `mantissa / 10^scale`.
pub type AmountView = (i128, u32, bool);

/// A mantissa and scale that `rust_decimal` can hold; only a zero carries a minus sign of
/// its own.
pub open spec fn view_wf(v: AmountView) -> bool {
    &&& -mantissa_limit() < v.0 < mantissa_limit()
    &&& v.1 <= 28
    &&& v.2 ==> v.0 == 0
}

/// The number an amount stands for, in units of `10^-28`.
pub open spec fn view_value(v: AmountView) -> int {
    v.0 * pow10((28 - v.1) as nat)
}

/// The mantissa of `v` brought to scale `s` (for `s` at least the scale of `v`).
pub open spec fn aligned(v: AmountView, s: u32) -> int {
    v.0 * pow10((s - v.1) as nat)
}

/// The larger of two scales.
pub open spec fn max_scale(a: AmountView, b: AmountView) -> u32 {
    if a.1 >= b.1 { a.1 } else { b.1 }
}

/// `x` fits in a 96-bit magnitude.
pub open spec fn fits96(x: int) -> bool {
    -mantissa_limit() < x < mantissa_limit()
}

/// Adding `b` to `a` (or subtracting it, when `negate`) can be done without rounding:
/// both operands and the result, brought to the larger scale, fit in 96 bits.
pub open spec fn add_is_exact(a: AmountView, b: AmountView, negate: bool) -> bool {
    let s = max_scale(a, b);
    let rhs = if negate { -aligned(b, s) } else { aligned(b, s) };
    &&& fits96(aligned(a, s))
    &&& fits96(aligned(b, s))
    &&& fits96(aligned(a, s) + rhs)
}

/// Multiplying `a` by `b` can be done without rounding: the scales add up to at most 28
/// and the product of the mantissas fits in 96 bits.
pub open spec fn mul_is_exact(a: AmountView, b: AmountView) -> bool {
    &&& a.1 + b.1 <= 28
    &&& fits96(a.0 * b.0)
}

/// `Decimal::MAX` (`2^96 - 1` whole units), in units of `10^-28`.
pub open spec fn max_units() -> int {
    792281625142643375935439503350000000000000000000000000000int
}

/// Half a whole unit, in units of `10^-28`.
pub open spec fn half_unit() -> int {
    5000000000000000000000000000int
}

/// `x` (in units of `10^-28`) rounds at scale 0 to a whole number within `Decimal`'s
/// range: its magnitude is below `Decimal::MAX + 1/2`. This is where `Decimal`'s
/// arithmetic does not overflow.
pub open spec fn no_overflow(x: int) -> bool {
    -(max_units() + half_unit()) < x < max_units() + half_unit()
}

/// `no_overflow` for a product kept scaled by `10^28` (in units of `10^-56`).
pub open spec fn no_overflow_scaled(p: int) -> bool {
    -(max_units() + half_unit()) * pow10(28) < p < (max_units() + half_unit()) * pow10(28)
}

/// One unit in the last place is at most one whole unit.
pub proof fn lemma_pow10_le(n: nat)
    requires
        n <= 28,
    ensures
        1 <= pow10(n) <= pow10(28),
{
}

/// Every amount lies within `Decimal`'s range.
pub proof fn lemma_value_bound(v: AmountView)
    requires
        view_wf(v),
    ensures
        -max_units() <= view_value(v) <= max_units(),
{
    let u = pow10((28 - v.1) as nat);
    lemma_pow10_le((28 - v.1) as nat);
    assert(pow10(28) == 10000000000000000000000000000int);
    let m = v.0 as int;
    assert(-79228162514264337593543950335int * 10000000000000000000000000000int <= m * u
        <= 79228162514264337593543950335int * 10000000000000000000000000000int) by (nonlinear_arith)
        requires
            -79228162514264337593543950335int <= m <= 79228162514264337593543950335int,
            1 <= u <= 10000000000000000000000000000int,
    ;
}

/// Rounding a number that is not negative gives one that is not negative: zero lies on
/// every scale's grid.
pub proof fn lemma_rounded_sign(c: AmountView, exact: int)
    requires
        view_wf(c),
        rounds_to(c, exact),
        exact >= 0,
    ensures
        view_value(c) >= 0,
{
    let u = pow10((28 - c.1) as nat);
    lemma_pow10_le((28 - c.1) as nat);
    let m = c.0 as int;
    assert(m * u >= 0) by (nonlinear_arith)
        requires
            u >= 1,
            -u <= 2 * (m * u - exact),
            exact >= 0,
    ;
}

/// Rounding a product that is not negative gives a number that is not negative.
pub proof fn lemma_rounded_sign_scaled(c: AmountView, p: int)
    requires
        view_wf(c),
        rounds_to_scaled(c, p),
        p >= 0,
    ensures
        view_value(c) >= 0,
{
    let u = pow10((28 - c.1) as nat);
    let t = pow10(28);
    lemma_pow10_le((28 - c.1) as nat);
    let m = c.0 as int;
    assert(m * u >= 0) by (nonlinear_arith)
        requires
            u >= 1,
            t >= 1,
            -(u * t) <= 2 * ((m * u) * t - p),
            p >= 0,
    ;
}

/// A product with a factor of at most one (such as a fee or a yield rate) does not
/// overflow.
pub proof fn lemma_small_factor(a: AmountView, b: AmountView)
    requires
        view_wf(a),
        view_wf(b),
        0 <= view_value(b) <= pow10(28),
    ensures
        no_overflow_scaled(view_value(a) * view_value(b)),
{
    lemma_value_bound(a);
    let x = view_value(a);
    let y = view_value(b);
    let t = pow10(28);
    assert(t == 10000000000000000000000000000int);
    assert(-max_units() * t <= x * y <= max_units() * t) by (nonlinear_arith)
        requires
            -max_units() <= x <= max_units(),
            0 <= y <= t,
            max_units() >= 0,
    ;
}

/// A sum `c` of `a` and `d` lies on the side of `a` that `d` points to: at or above `a`
/// when `d` is not negative, at or below it when `d` is not positive.
pub open spec fn moves_with(a: int, d: int, c: int) -> bool {
    &&& d >= 0 ==> c >= a
    &&& d <= 0 ==> c <= a
}

/// `c` is `exact` rounded to nearest: by at most half a unit in the last place of `c`.
pub open spec fn rounds_to(c: AmountView, exact: int) -> bool {
    let ulp = pow10((28 - c.1) as nat);
    -ulp <= 2 * (view_value(c) - exact) <= ulp
}

/// `c` is the product `exact_scaled / 10^28` rounded to nearest: by at most half a unit
/// in the last place of `c` (the product is kept scaled by `10^28` so that it stays an
/// integer).
pub open spec fn rounds_to_scaled(c: AmountView, exact_scaled: int) -> bool {
    let ulp = pow10((28 - c.1) as nat) * pow10(28);
    -ulp <= 2 * (view_value(c) * pow10(28) - exact_scaled) <= ulp
}

/// The exact product of two amounts whose scales add up to at most 28, in units of `10^-28`.
pub open spec fn mul_exact_value(a: AmountView, b: AmountView) -> int {
    a.0 * b.0 * pow10((28 - a.1 - b.1) as nat)
}

/// The sum (or, when `negate`, the difference) as `Decimal` writes it when no rounding is
/// needed: a zero left operand gives the right one as it is (negated in a difference,
/// unless it is zero, whose sign stays), a zero right operand gives the left one;
/// otherwise both are brought to the larger scale and their mantissas added, and a zero
/// result carries no sign.
pub open spec fn exact_sum_view(a: AmountView, b: AmountView, negate: bool) -> AmountView {
    let s = max_scale(a, b);
    let rhs = if negate { -aligned(b, s) } else { aligned(b, s) };
    if a.0 == 0 {
        ((if negate { -b.0 } else { b.0 as int }) as i128, b.1, b.2)
    } else if b.0 == 0 {
        a
    } else {
        ((aligned(a, s) + rhs) as i128, s, false)
    }
}

/// The product as `Decimal` writes it when no rounding is needed: zero (at scale 0) when
/// an operand is zero; otherwise the product of the mantissas at the sum of the scales.
pub open spec fn exact_product_view(a: AmountView, b: AmountView) -> AmountView {
    if a.0 == 0 || b.0 == 0 {
        (0i128, 0u32, false)
    } else {
        ((a.0 * b.0) as i128, (a.1 + b.1) as u32, false)
    }
}

/// The sum (or difference) when it needs no rounding, and `None` when it does.
pub open spec fn exact_sum(a: AmountView, b: AmountView, negate: bool) -> Option<AmountView> {
    if add_is_exact(a, b, negate) {
        Some(exact_sum_view(a, b, negate))
    } else {
        None
    }
}

/// The product when it needs no rounding, and `None` when it does.
pub open spec fn exact_product(a: AmountView, b: AmountView) -> Option<AmountView> {
    if mul_is_exact(a, b) {
        Some(exact_product_view(a, b))
    } else {
        None
    }
}

/// Each power of ten is ten times the one before.
pub proof fn lemma_pow10_step(n: nat)
    requires
        n < 28,
    ensures
        pow10(n + 1) == 10 * pow10(n),
{
}

/// Powers of ten multiply by adding exponents.
pub proof fn lemma_pow10_add(x: nat, y: nat)
    requires
        x + y <= 28,
    ensures
        pow10(x) * pow10(y) == pow10(x + y),
    decreases y,
{
    if y > 0 {
        lemma_pow10_add(x, (y - 1) as nat);
        lemma_pow10_step((y - 1) as nat);
        lemma_pow10_step((x + y - 1) as nat);
        let a = pow10(x);
        let b = pow10((y - 1) as nat);
        assert(a * (10 * b) == 10 * (a * b)) by (nonlinear_arith);
    }
}

/// The exact sum as `Decimal` writes it stands for the sum of the numbers.
pub proof fn lemma_exact_sum_value(a: AmountView, b: AmountView, negate: bool)
    requires
        view_wf(a),
        view_wf(b),
        add_is_exact(a, b, negate),
    ensures
        view_wf(exact_sum_view(a, b, negate)),
        view_value(exact_sum_view(a, b, negate)) == view_value(a) + (if negate {
            -view_value(b)
        } else {
            view_value(b)
        }),
{
    let s = max_scale(a, b);
    if a.0 != 0 && b.0 != 0 {
        let pa = pow10((s - a.1) as nat);
        let pb = pow10((s - b.1) as nat);
        let q = pow10((28 - s) as nat);
        lemma_pow10_add((s - a.1) as nat, (28 - s) as nat);
        lemma_pow10_add((s - b.1) as nat, (28 - s) as nat);
        let ma = a.0 as int;
        let mb = if negate { -b.0 } else { b.0 as int };
        assert((ma * pa + mb * pb) * q == ma * (pa * q) + mb * (pb * q)) by (nonlinear_arith);
        assert(-b.0 * pb == -(b.0 * pb)) by (nonlinear_arith);
        assert(-b.0 * pow10((28 - b.1) as nat) == -(b.0 * pow10((28 - b.1) as nat))) by (nonlinear_arith);
    } else if a.0 == 0 {
        let mb = if negate { -b.0 } else { b.0 as int };
        assert(mb * pow10((28 - b.1) as nat) == (if negate { -(b.0 * pow10((28 - b.1) as nat)) } else {
            b.0 * pow10((28 - b.1) as nat)
        })) by (nonlinear_arith)
            requires
                mb == (if negate { -b.0 } else { b.0 as int }),
        ;
    }
}

/// The exact product as `Decimal` writes it stands for the product of the numbers.
pub proof fn lemma_exact_product_value(a: AmountView, b: AmountView)
    requires
        view_wf(a),
        view_wf(b),
        mul_is_exact(a, b),
    ensures
        view_wf(exact_product_view(a, b)),
        view_value(exact_product_view(a, b)) == mul_exact_value(a, b),
{
    let p = pow10((28 - a.1 - b.1) as nat);
    if a.0 == 0 || b.0 == 0 {
        assert(a.0 * b.0 == 0) by (nonlinear_arith)
            requires
                a.0 == 0 || b.0 == 0,
        ;
    }
}

/// What `Decimal::checked_add` returns for the decimals with these views.
pub uninterp spec fn decimal_checked_add(a: AmountView, b: AmountView) -> Option<AmountView>;

/// What `Decimal::checked_sub` returns for the decimals with these views.
pub uninterp spec fn decimal_checked_sub(a: AmountView, b: AmountView) -> Option<AmountView>;

/// What `Decimal::checked_mul` returns for the decimals with these views.
pub uninterp spec fn decimal_checked_mul(a: AmountView, b: AmountView) -> Option<AmountView>;

/// A decimal number `mantissa / 10^scale` with `Decimal`'s sign bit, as
/// `rust_decimal::Decimal` holds it.
#[derive(Clone, Copy)]
pub struct Amount {
    mantissa: i128,
    scale: u32,
    negative: bool,
}

impl Amount {
    #[verifier::type_invariant]
    spec fn inv(self) -> bool {
        &&& view_wf((self.mantissa, self.scale, false))
        &&& self.mantissa < 0 ==> self.negative
        &&& self.mantissa > 0 ==> !self.negative
    }
}

impl View for Amount {
    type V = AmountView;

    closed spec fn view(&self) -> AmountView {
        (self.mantissa, self.scale, self.negative && self.mantissa == 0)
    }
}


impl Amount {
    /// The number an amount stands for, in units of `10^-28`.
    pub open spec fn value(self) -> int {
        view_value(self@)
    }

    /// Every amount has a mantissa below `2^96` and a scale of at most 28.
    pub fn wf_fact(&self)
        ensures
            view_wf(self@),
    {
        proof { use_type_invariant(self); }
    }

    /// `num / 10^scale`.
    pub fn new(num: i64, scale: u32) -> (r: Amount)
        requires
            scale <= 28,
        ensures
            r@ == (num as i128, scale, false),
    {
        Amount { mantissa: num as i128, scale, negative: num < 0 }
    }

    /// `num / 10^scale`, for a mantissa of at most 96 bits.
    pub fn from_i128_with_scale(num: i128, scale: u32) -> (r: Amount)
        requires
            view_wf((num, scale, false)),
        ensures
            r@ == (num, scale, false),
    {
        Amount { mantissa: num, scale, negative: num < 0 }
    }

    /// Zero with a minus sign (`-0`), with `scale` decimal places.
    pub fn negative_zero(scale: u32) -> (r: Amount)
        requires
            scale <= 28,
        ensures
            r@ == (0i128, scale, true),
    {
        Amount { mantissa: 0, scale, negative: true }
    }

    /// Whether the amount carries a minus sign: it is below zero, or a zero written `-0`.
    pub fn is_sign_negative(&self) -> (r: bool)
        ensures
            r == (self@.0 < 0 || self@.2),
    {
        proof { use_type_invariant(self); }
        self.negative
    }

    /// Zero, written with no decimal places.
    pub fn zero() -> (r: Amount)
        ensures
            r@ == (0i128, 0u32, false),
    {
        Amount { mantissa: 0, scale: 0, negative: false }
    }

    /// The mantissa.
    pub fn mantissa(&self) -> (r: i128)
        ensures
            r == self@.0,
    {
        self.mantissa
    }

    /// The number of decimal places.
    pub fn scale(&self) -> (r: u32)
        ensures
            r == self@.1,
            r <= 28,
    {
        proof { use_type_invariant(self); }
        self.scale
    }
}

/// Calls `Decimal::checked_add` on the two decimals. Claims: the result is the one named
/// by `decimal_checked_add`; there is a result exactly where the exact sum, rounded half
/// to even to a whole number, stays within `Decimal::MAX` (`no_overflow`: `add_impl` reports overflow only
/// when the sum cannot be brought within 96 bits even at scale 0); a result is the exact
/// sum rounded to nearest (half to even), so by at most half a unit in its last place
/// (`reduce_scale` and `Buf24::rescale` round only when the aligned sum overflows 96 bits); and when nothing overflows (`add_is_exact`) the result is the one
/// `exact_sum_view` writes: a zero left operand returns the right one unchanged (its
/// sign bit included) and a zero right operand the left one, otherwise the mantissas are
/// added at the larger scale and a zero result has its sign bit cleared (`from_parts`,
/// `from_parts_raw` and `Dec64::to_decimal` all clear it). The amounts go in with their
/// sign bits, and the result comes back with its own. Rounding never carries the result
/// past `a` (`moves_with`): it is done at the largest scale at which the sum fits in 96
/// bits (`Buf24::rescale` estimates no more digits than needed and drops one more at a
/// time; `reduce_scale` drops one), so either `a` lies on that scale's grid, and the
/// nearest grid point to a sum on one side of `a` is on that side too, or the sum
/// overflowed 96 bits at a scale where `a` fits, and then it lies further from zero than
/// `a` by more than half the new unit.
#[verifier::external_body]
fn decimal_add(a: Amount, b: Amount) -> (r: Option<Amount>)
    ensures
        r is Some <==> decimal_checked_add(a@, b@) is Some,
        r matches Some(c) ==> decimal_checked_add(a@, b@) == Some(c@),
        r is Some <==> no_overflow(a.value() + b.value()),
        r matches Some(c) ==> rounds_to(c@, a.value() + b.value()),
        add_is_exact(a@, b@, false) ==> r is Some,
        r matches Some(c) ==> (add_is_exact(a@, b@, false) ==> c@ == exact_sum_view(a@, b@, false)),
        r matches Some(c) ==> moves_with(a.value(), b.value(), c.value()),
{
    let mut x = Decimal::from_i128_with_scale(a.mantissa, a.scale);
    x.set_sign_negative(a.negative);
    let mut y = Decimal::from_i128_with_scale(b.mantissa, b.scale);
    y.set_sign_negative(b.negative);
    match x.checked_add(y) {
        Some(d) => Some(Amount { mantissa: d.mantissa(), scale: d.scale(), negative: d.is_sign_negative() }),
        None => None,
    }
}

/// Calls `Decimal::checked_sub` on the two decimals. Claims, as for `decimal_add` (both go
/// through `add_sub_internal`): the result is the one named by `decimal_checked_sub`; there
/// is a result exactly where the exact difference does not overflow (`no_overflow`); a result is
/// the exact difference rounded to nearest, by at most half a unit in its last place; and when nothing overflows
/// (`add_is_exact` with `b` negated) the result is the one `exact_sum_view` writes (a zero
/// left operand gives the right one negated, or unchanged where it is zero too); and the
/// result lies on the side of `a` that `-b` points to (`moves_with`, as for the sum).
#[verifier::external_body]
fn decimal_sub(a: Amount, b: Amount) -> (r: Option<Amount>)
    ensures
        r is Some <==> decimal_checked_sub(a@, b@) is Some,
        r matches Some(c) ==> decimal_checked_sub(a@, b@) == Some(c@),
        r is Some <==> no_overflow(a.value() - b.value()),
        r matches Some(c) ==> rounds_to(c@, a.value() - b.value()),
        add_is_exact(a@, b@, true) ==> r is Some,
        r matches Some(c) ==> (add_is_exact(a@, b@, true) ==> c@ == exact_sum_view(a@, b@, true)),
        r matches Some(c) ==> moves_with(a.value(), -b.value(), c.value()),
{
    let mut x = Decimal::from_i128_with_scale(a.mantissa, a.scale);
    x.set_sign_negative(a.negative);
    let mut y = Decimal::from_i128_with_scale(b.mantissa, b.scale);
    y.set_sign_negative(b.negative);
    match x.checked_sub(y) {
        Some(d) => Some(Amount { mantissa: d.mantissa(), scale: d.scale(), negative: d.is_sign_negative() }),
        None => None,
    }
}

/// Calls `Decimal::checked_mul` on the two decimals. Claims: the result is the one named
/// by `decimal_checked_mul`; there is a result exactly where the exact product does not
/// overflow (`no_overflow_scaled`: `mul_impl` reports overflow only when `Buf24::rescale`
/// cannot bring the product within 96 bits at scale 0); a result is the exact product
/// rounded to nearest (half to even, with a sticky bit), by at most half a unit in its
/// last place; and when the scales add up to at most 28 and the
/// mantissas' product fits in 96 bits (`mul_is_exact`), the result is the one
/// `exact_product_view` writes: `Decimal::ZERO` (scale 0, no sign) for a zero operand,
/// otherwise the product of the mantissas at the sum of the scales. (A product that
/// rounds to zero keeps the sign of the product in `finish_mul`; that `-0` is left to the
/// name.)
#[verifier::external_body]
fn decimal_mul(a: Amount, b: Amount) -> (r: Option<Amount>)
    ensures
        r is Some <==> decimal_checked_mul(a@, b@) is Some,
        r matches Some(c) ==> decimal_checked_mul(a@, b@) == Some(c@),
        r is Some <==> no_overflow_scaled(a.value() * b.value()),
        r matches Some(c) ==> rounds_to_scaled(c@, a.value() * b.value()),
        mul_is_exact(a@, b@) ==> r is Some,
        r matches Some(c) ==> (mul_is_exact(a@, b@) ==> c@ == exact_product_view(a@, b@)),
{
    let mut x = Decimal::from_i128_with_scale(a.mantissa, a.scale);
    x.set_sign_negative(a.negative);
    let mut y = Decimal::from_i128_with_scale(b.mantissa, b.scale);
    y.set_sign_negative(b.negative);
    match x.checked_mul(y) {
        Some(d) => Some(Amount { mantissa: d.mantissa(), scale: d.scale(), negative: d.is_sign_negative() }),
        None => None,
    }
}

/// Calls `<` on the two decimals. Claims: it compares the numbers they stand for.
#[verifier::external_body]
fn decimal_lt(a: &Amount, b: &Amount) -> (r: bool)
    ensures
        r == (a.value() < b.value()),
{
    Decimal::from_i128_with_scale(a.mantissa, a.scale) < Decimal::from_i128_with_scale(
        b.mantissa,
        b.scale,
    )
}

/// Calls `<=` on the two decimals. Claims: it compares the numbers they stand for.
#[verifier::external_body]
fn decimal_le(a: &Amount, b: &Amount) -> (r: bool)
    ensures
        r == (a.value() <= b.value()),
{
    Decimal::from_i128_with_scale(a.mantissa, a.scale) <= Decimal::from_i128_with_scale(
        b.mantissa,
        b.scale,
    )
}

impl Amount {
    /// `self + other`, as `+` on `Decimal` computes it.
    pub fn add(self, other: Amount) -> (r: Amount)
        requires
            no_overflow(self.value() + other.value()),
        ensures
            view_wf(r@),
            decimal_checked_add(self@, other@) == Some(r@),
            rounds_to(r@, self.value() + other.value()),
            exact_sum(self@, other@, false) matches Some(v) ==> r@ == v,
            add_is_exact(self@, other@, false) ==> r.value() == self.value() + other.value(),
            moves_with(self.value(), other.value(), r.value()),
    {
        proof {
            use_type_invariant(&self);
            use_type_invariant(&other);
            if add_is_exact(self@, other@, false) {
                lemma_exact_sum_value(self@, other@, false);
            }
        }
        match decimal_add(self, other) {
            Some(c) => {
                proof { use_type_invariant(&c); }
                c
            },
            None => {
                proof { assert(false); }
                Amount::zero()
            },
        }
    }
    /// `self + other`, or `None` where `Decimal::checked_add` overflows.
    pub fn checked_add(self, other: Amount) -> (r: Option<Amount>)
        ensures
            r is Some <==> decimal_checked_add(self@, other@) is Some,
            r matches Some(c) ==> decimal_checked_add(self@, other@) == Some(c@),
            r matches Some(c) ==> view_wf(c@) && rounds_to(c@, self.value() + other.value()),
            r is Some <==> no_overflow(self.value() + other.value()),
            r matches Some(c) ==> (exact_sum(self@, other@, false) matches Some(v) ==> c@ == v),
            r matches Some(c) ==> moves_with(self.value(), other.value(), c.value()),
    {
        match decimal_add(self, other) {
            Some(c) => {
                proof { use_type_invariant(&c); }
                Some(c)
            },
            None => None,
        }
    }

    /// `self - other`, or `None` where `Decimal::checked_sub` overflows.
    pub fn checked_sub(self, other: Amount) -> (r: Option<Amount>)
        ensures
            r is Some <==> decimal_checked_sub(self@, other@) is Some,
            r matches Some(c) ==> decimal_checked_sub(self@, other@) == Some(c@),
            r matches Some(c) ==> view_wf(c@) && rounds_to(c@, self.value() - other.value()),
            r is Some <==> no_overflow(self.value() - other.value()),
            r matches Some(c) ==> (exact_sum(self@, other@, true) matches Some(v) ==> c@ == v),
            r matches Some(c) ==> moves_with(self.value(), -other.value(), c.value()),
    {
        match decimal_sub(self, other) {
            Some(c) => {
                proof { use_type_invariant(&c); }
                Some(c)
            },
            None => None,
        }
    }

    /// `self * other`, or `None` where `Decimal::checked_mul` overflows.
    pub fn checked_mul(self, other: Amount) -> (r: Option<Amount>)
        ensures
            r is Some <==> decimal_checked_mul(self@, other@) is Some,
            r matches Some(c) ==> decimal_checked_mul(self@, other@) == Some(c@),
            r matches Some(c) ==> view_wf(c@) && rounds_to_scaled(c@, self.value() * other.value()),
            r is Some <==> no_overflow_scaled(self.value() * other.value()),
            r matches Some(c) ==> (exact_product(self@, other@) matches Some(v) ==> c@ == v),
    {
        match decimal_mul(self, other) {
            Some(c) => {
                proof { use_type_invariant(&c); }
                Some(c)
            },
            None => None,
        }
    }

    /// `self - other`, as `-` on `Decimal` computes it.
    pub fn sub(self, other: Amount) -> (r: Amount)
        requires
            no_overflow(self.value() - other.value()),
        ensures
            view_wf(r@),
            decimal_checked_sub(self@, other@) == Some(r@),
            rounds_to(r@, self.value() - other.value()),
            exact_sum(self@, other@, true) matches Some(v) ==> r@ == v,
            add_is_exact(self@, other@, true) ==> r.value() == self.value() - other.value(),
            moves_with(self.value(), -other.value(), r.value()),
    {
        proof {
            use_type_invariant(&self);
            use_type_invariant(&other);
            if add_is_exact(self@, other@, true) {
                lemma_exact_sum_value(self@, other@, true);
            }
        }
        match decimal_sub(self, other) {
            Some(c) => {
                proof { use_type_invariant(&c); }
                c
            },
            None => {
                proof { assert(false); }
                Amount::zero()
            },
        }
    }

    /// `self * other`, as `*` on `Decimal` computes it.
    pub fn mul(self, other: Amount) -> (r: Amount)
        requires
            no_overflow_scaled(self.value() * other.value()),
        ensures
            view_wf(r@),
            decimal_checked_mul(self@, other@) == Some(r@),
            rounds_to_scaled(r@, self.value() * other.value()),
            exact_product(self@, other@) matches Some(v) ==> r@ == v,
            mul_is_exact(self@, other@) ==> r.value() == mul_exact_value(self@, other@),
    {
        proof {
            use_type_invariant(&self);
            use_type_invariant(&other);
            if mul_is_exact(self@, other@) {
                lemma_exact_product_value(self@, other@);
            }
        }
        match decimal_mul(self, other) {
            Some(c) => {
                proof { use_type_invariant(&c); }
                c
            },
            None => {
                proof { assert(false); }
                Amount::zero()
            },
        }
    }

    /// `self < other`.
    pub fn lt(&self, other: &Amount) -> (r: bool)
        ensures
            r == (self.value() < other.value()),
    {
        decimal_lt(self, other)
    }

    /// `self <= other`.
    pub fn le(&self, other: &Amount) -> (r: bool)
        ensures
            r == (self.value() <= other.value()),
    {
        decimal_le(self, other)
    }

    /// The decimal that `text` writes, as `Decimal::from_str` reads it.
    pub fn parse(text: &str) -> (r: Option<Amount>)
        ensures
            r is Some <==> decimal_parse(text@) is Some,
            r matches Some(a) ==> decimal_parse(text@) == Some(a@),
    {
        decimal_from_str(text)
    }

    /// The decimal as `{}` prints it.
    pub fn to_text(&self) -> (r: String)
        ensures
            r@ == decimal_text(self@),
    {
        decimal_to_string(self)
    }

    /// The decimal as `{:.2}` prints it.
    pub fn to_text_2dp(&self) -> (r: String)
        ensures
            r@ == decimal_text_2dp(self@),
    {
        decimal_to_string_2dp(self)
    }
}

/// `Decimal::checked_add(a, b).unwrap()`, on views.
pub open spec fn sum_view(a: AmountView, b: AmountView) -> AmountView {
    decimal_checked_add(a, b).unwrap()
}

/// `Decimal::checked_sub(a, b).unwrap()`, on views.
pub open spec fn diff_view(a: AmountView, b: AmountView) -> AmountView {
    decimal_checked_sub(a, b).unwrap()
}

/// `Decimal::checked_mul(a, b).unwrap()`, on views.
pub open spec fn product_view(a: AmountView, b: AmountView) -> AmountView {
    decimal_checked_mul(a, b).unwrap()
}

/// What `Decimal::from_str` makes of the text: `None` where it refuses it.
pub uninterp spec fn decimal_parse(text: Seq<char>) -> Option<AmountView>;

/// Calls `Decimal::from_str`. Claims: the outcome is the one named by `decimal_parse`.
#[verifier::external_body]
fn decimal_from_str(text: &str) -> (r: Option<Amount>)
    ensures
        r is Some <==> decimal_parse(text@) is Some,
        r matches Some(a) ==> decimal_parse(text@) == Some(a@),
{
    match <Decimal as std::str::FromStr>::from_str(text) {
        Ok(d) => Some(Amount { mantissa: d.mantissa(), scale: d.scale(), negative: d.is_sign_negative() }),
        Err(_) => None,
    }
}

/// The decimal digits of `n`, most significant first; none for zero.
pub open spec fn digits(n: nat) -> Seq<char>
    decreases n,
{
    if n == 0 {
        Seq::empty()
    } else {
        digits(n / 10).push(seq!['0', '1', '2', '3', '4', '5', '6', '7', '8', '9'][(n % 10) as int])
    }
}

/// `k` zeros (none when `k` is not positive).
pub open spec fn zeros(k: int) -> Seq<char> {
    Seq::new(if k > 0 { k as nat } else { 0 }, |i: int| '0')
}

/// The digits of the mantissa's magnitude, with zeros in front so that there are at
/// least as many as decimal places.
pub open spec fn padded_digits(a: AmountView) -> Seq<char> {
    let m = if a.0 < 0 { -a.0 } else { a.0 as int };
    let d = digits(m as nat);
    zeros(a.1 - d.len()) + d
}

/// `-` for an amount that carries a minus sign (below zero, or `-0`), nothing otherwise.
pub open spec fn sign_text(a: AmountView) -> Seq<char> {
    if a.0 < 0 || a.2 { seq!['-'] } else { Seq::empty() }
}

/// The digits before the decimal point: `0` where there are none.
pub open spec fn whole_text(a: AmountView) -> Seq<char> {
    let d = padded_digits(a);
    if d.len() == a.1 { seq!['0'] } else { d.take(d.len() - a.1) }
}

/// What `Decimal`'s `Display` (`{}`) writes for the decimal with this view: the sign, the
/// whole digits, and, where there are decimal places, a point and every one of them.
pub open spec fn decimal_text(a: AmountView) -> Seq<char> {
    let d = padded_digits(a);
    if a.1 == 0 {
        sign_text(a) + whole_text(a)
    } else {
        sign_text(a) + whole_text(a) + seq!['.'] + d.skip(d.len() - a.1)
    }
}

/// What `Decimal`'s `Display` with a precision of two (`{:.2}`) writes for the decimal
/// with this view: the sign, the whole digits, a point, and the first two decimal places,
/// cut off (not rounded) and filled up with zeros.
pub open spec fn decimal_text_2dp(a: AmountView) -> Seq<char> {
    let d = padded_digits(a);
    sign_text(a) + whole_text(a) + seq!['.'] + (d.skip(d.len() - a.1) + zeros(2)).take(2)
}

/// Calls `Decimal`'s `Display` through `to_string`. Claims: the text is `decimal_text`:
/// `to_str_internal` writes the mantissa's digits, pads them with zeros up to the scale,
/// puts the point before the last `scale` of them (after a `0` where no whole digit is
/// left), writes `0` for a zero at scale 0, and `pad_integral` puts `-` in front of a
/// negative number.
#[verifier::external_body]
fn decimal_to_string(a: &Amount) -> (r: String)
    ensures
        r@ == decimal_text(a@),
{
    let mut x = Decimal::from_i128_with_scale(a.mantissa, a.scale);
    x.set_sign_negative(a.negative);
    x.to_string()
}

/// Calls `Decimal`'s `Display` with a precision of two, through `format!`. Claims: the
/// text is `decimal_text_2dp`: `to_str_internal` writes the whole digits, the point and
/// then exactly two places, the first two of the decimal digits followed by zeros where
/// there are fewer (so it cuts off, without rounding), and `pad_integral` puts `-` in
/// front of a negative number.
#[verifier::external_body]
fn decimal_to_string_2dp(a: &Amount) -> (r: String)
    ensures
        r@ == decimal_text_2dp(a@),
{
    let mut x = Decimal::from_i128_with_scale(a.mantissa, a.scale);
    x.set_sign_negative(a.negative);
    format!("{:.2}", x)
}

} // verus!
