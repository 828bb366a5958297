use vstd::prelude::*;
use vstd::string::StringExecFns;

verus! {

/// `x` is a value of `i32`.
pub open spec fn in_i32(x: int) -> bool {
    i32::MIN <= x <= i32::MAX
}

/// The absolute value of `x`.
pub open spec fn abs_int(x: int) -> int {
    if x < 0 { -x } else { x }
}

/// `n / d` rounded toward zero, as Rust's integer division does.
pub open spec fn trunc_div(n: int, d: int) -> int {
    if (n < 0) == (d < 0) {
        abs_int(n) / abs_int(d)
    } else {
        -(abs_int(n) / abs_int(d))
    }
}

/// The decimal digits of `n`, most significant first, without leading zeros.
pub open spec fn digits(n: nat) -> Seq<char>
    decreases n,
{
    let d = seq!['0', '1', '2', '3', '4', '5', '6', '7', '8', '9'][(n % 10) as int];
    if n < 10 {
        seq![d]
    } else {
        digits(n / 10).push(d)
    }
}

/// `x` written in decimal, with a leading `-` when negative.
pub open spec fn decimal(x: int) -> Seq<char> {
    if x < 0 {
        seq!['-'] + digits((-x) as nat)
    } else {
        digits(x as nat)
    }
}

/// Relies on `i32`'s `Display` (through `ToString::to_string`): decimal digits,
/// with `-` in front of a negative value.
#[verifier::external_body]
fn decimal_text(x: i32) -> (r: String)
    ensures
        r@ == decimal(x as int),
{
    x.to_string()
}

/// Why a fraction could not be built or changed.
#[derive(Debug, Clone, Copy, PartialEq, Eq, Structural)]
pub enum RationalError {
    /// A new fraction, or the result of an operation, would have a zero denominator.
    ZeroDenominator,
    /// `set_den` was asked to store a zero denominator; the fraction is unchanged.
    InvalidDenominatorMutation,
}

/// A fraction `numerator / denominator` whose denominator is never zero.
///
/// No canonical form is kept: `4/2` and `2/1` are distinct values.
#[derive(Debug, Clone, Copy, PartialEq, Eq, Structural)]
pub struct Rational {
    numerator: i32,
    denominator: i32,
}

/// Relies on `num::Zero::is_zero` for `i32`, which compares with `0`.
#[verifier::external_body]
fn is_zero(x: &i32) -> (r: bool)
    ensures
        r == (*x == 0),
{
    num::Zero::is_zero(x)
}

impl Rational {
    #[verifier::type_invariant]
    spec fn denominator_nonzero(self) -> bool {
        self.denominator != 0
    }

    /// The numerator, as a mathematical integer.
    pub closed spec fn numer(self) -> int {
        self.numerator as int
    }

    /// The denominator, as a mathematical integer.
    pub closed spec fn denom(self) -> int {
        self.denominator as int
    }

    /// The fraction with the numerator's sign flipped.
    pub closed spec fn negated(self) -> Rational {
        Rational { numerator: (-self.numerator) as i32, denominator: self.denominator }
    }

    /// The fraction with numerator and denominator swapped.
    pub closed spec fn flipped(self) -> Rational {
        Rational { numerator: self.denominator, denominator: self.numerator }
    }

    /// The denominator is not zero: what every value of this type keeps.
    pub open spec fn wf(self) -> bool {
        self.denom() != 0
    }

    /// Builds `n / d` as given, or fails when `d` is zero.
    pub fn new(n: i32, d: i32) -> (r: Result<Rational, RationalError>)
        ensures
            d == 0 ==> r == Err::<Rational, RationalError>(RationalError::ZeroDenominator),
            d != 0 ==> r is Ok && r->Ok_0.numer() == n && r->Ok_0.denom() == d,
    {
        if is_zero(&d) {
            Err(RationalError::ZeroDenominator)
        } else {
            Ok(Rational { numerator: n, denominator: d })
        }
    }

    /// `0 / 1`.
    pub fn default_i() -> (r: Rational)
        ensures
            r.numer() == 0,
            r.denom() == 1,
    {
        Rational { numerator: 0, denominator: 1 }
    }

    /// The numerator as stored.
    pub fn num(&self) -> (r: &i32)
        ensures
            *r == self.numer(),
    {
        &self.numerator
    }

    /// The denominator as stored; never zero.
    pub fn den(&self) -> (r: &i32)
        ensures
            *r == self.denom(),
            *r != 0,
    {
        proof {
            use_type_invariant(self);
        }
        &self.denominator
    }

    /// Replaces the numerator; any value is allowed.
    pub fn set_num(&mut self, num: i32)
        ensures
            final(self).numer() == num,
            final(self).denom() == old(self).denom(),
    {
        proof {
            use_type_invariant(&*self);
        }
        self.numerator = num;
    }

    /// Replaces the denominator, or leaves the fraction as it was and fails when `den` is zero.
    pub fn set_den(&mut self, den: i32) -> (r: Result<(), RationalError>)
        ensures
            den == 0 ==> r == Err::<(), RationalError>(RationalError::InvalidDenominatorMutation)
                && *final(self) == *old(self),
            den != 0 ==> r is Ok && final(self).denom() == den && final(self).numer() == old(
                self,
            ).numer(),
    {
        if is_zero(&den) {
            Err(RationalError::InvalidDenominatorMutation)
        } else {
            self.denominator = den;
            Ok(())
        }
    }

    /// The same fraction with the numerator's sign flipped; the same as unary `-`.
    pub fn opposite(&self) -> (r: Rational)
        requires
            self.numer() != i32::MIN,
        ensures
            r == self.negated(),
            r.numer() == -self.numer(),
            r.denom() == self.denom(),
    {
        core::ops::Neg::neg(*self)
    }

    /// The fraction turned upside down, or `ZeroDenominator` when the numerator is zero.
    pub fn reciprocal(&self) -> (r: Result<Rational, RationalError>)
        ensures
            self.numer() == 0 ==> r == Err::<Rational, RationalError>(
                RationalError::ZeroDenominator,
            ),
            self.numer() != 0 ==> r == Ok::<Rational, RationalError>(self.flipped()),
            self.numer() != 0 ==> r is Ok && r->Ok_0.numer() == self.denom() && r->Ok_0.denom()
                == self.numer(),
    {
        Rational::new(self.denominator, self.numerator)
    }

    /// The quotient `numerator / denominator` rounded toward zero, in a wider type
    /// so that `i32::MIN / -1` is no overflow.
    fn wide_value(&self) -> (r: i64)
        ensures
            r == trunc_div(self.numer(), self.denom()),
            -0x8000_0000 <= r <= 0x8000_0000,
    {
        proof {
            use_type_invariant(self);
        }
        let n: i64 = self.numerator as i64;
        let d: i64 = self.denominator as i64;
        let n_abs: i64 = abs(n);
        let d_abs: i64 = abs(d);
        let q: i64 = n_abs / d_abs;
        proof {
            assert(0 <= q <= n_abs) by (nonlinear_arith)
                requires
                    q == n_abs / d_abs,
                    n_abs >= 0,
                    d_abs >= 1,
            ;
        }
        if (n < 0) == (d < 0) {
            q
        } else {
            -q
        }
    }

    /// The fraction written as `numerator/denominator`, each in decimal.
    pub fn to_string(&self) -> (r: String)
        ensures
            r@ == decimal(self.numer()) + seq!['/'] + decimal(self.denom()),
    {
        let mut text = decimal_text(self.numerator);
        let slash = "/";
        proof {
            reveal_strlit("/");
        }
        text.append(slash);
        let den = decimal_text(self.denominator);
        text.append(den.as_str());
        text
    }

    /// The evaluated value: `numerator / denominator` rounded toward zero.
    pub fn get_value(&self) -> (r: i32)
        requires
            in_i32(value(*self)),
        ensures
            r == value(*self),
    {
        self.wide_value() as i32
    }

    /// Whether the evaluated values differ by less than `precision` in absolute value.
    pub fn equal(&self, r: &Rational, precision: i32) -> (b: bool)
        ensures
            b == (abs_int(value(*self) - value(*r)) < precision),
    {
        abs(self.wide_value() - r.wide_value()) < precision as i64
    }

    /// Whether this value minus `r`'s exceeds `precision`.
    pub fn greater(&self, r: &Rational, precision: i32) -> (b: bool)
        ensures
            b == (value(*self) - value(*r) > precision),
    {
        self.wide_value() - r.wide_value() > precision as i64
    }

    /// Whether this value minus `r`'s is below `precision`. With a positive
    /// `precision` this holds also for equal values and for a value above `r`'s
    /// by less than `precision`, so `less` and `greater` do not exclude each other
    /// as complements.
    pub fn less(&self, r: &Rational, precision: i32) -> (b: bool)
        ensures
            b == (value(*self) - value(*r) < precision),
    {
        self.wide_value() - r.wide_value() < precision as i64
    }

    /// Whether the evaluated value is within `precision` of zero.
    pub fn cero(&self, precision: i32) -> (b: bool)
        ensures
            b == (abs_int(value(*self)) < precision),
    {
        abs(self.wide_value()) < precision as i64
    }
}

/// The evaluated value of `a`: its quotient rounded toward zero.
pub open spec fn value(a: Rational) -> int {
    value_of(a.numer(), a.denom())
}

/// The evaluated value of the fraction `n / d`.
pub open spec fn value_of(n: int, d: int) -> int {
    trunc_div(n, d)
}

/// The absolute value of `x`.
pub fn abs(x: i64) -> (r: i64)
    requires
        x != i64::MIN,
    ensures
        r == abs_int(x as int),
{
    if x < 0 {
        -x
    } else {
        x
    }
}

/// The numerator of `a + b`: summed over a shared denominator, else cross-multiplied.
pub open spec fn sum_numer(a: Rational, b: Rational) -> int {
    if a.denom() == b.denom() {
        a.numer() + b.numer()
    } else {
        a.numer() * b.denom() + b.numer() * a.denom()
    }
}

/// The numerator of `a - b`: subtracted over a shared denominator, else cross-multiplied.
pub open spec fn diff_numer(a: Rational, b: Rational) -> int {
    if a.denom() == b.denom() {
        a.numer() - b.numer()
    } else {
        a.numer() * b.denom() - b.numer() * a.denom()
    }
}

/// The denominator of `a + b` and of `a - b`: kept when shared, else the product.
pub open spec fn common_denom(a: Rational, b: Rational) -> int {
    if a.denom() == b.denom() {
        a.denom()
    } else {
        a.denom() * b.denom()
    }
}

/// Every intermediate value of `a + b` and `a - b` fits in `i32`.
pub open spec fn cross_fits(a: Rational, b: Rational, numer: int) -> bool {
    if a.denom() == b.denom() {
        in_i32(numer)
    } else {
        in_i32(a.numer() * b.denom()) && in_i32(b.numer() * a.denom()) && in_i32(numer)
            && in_i32(a.denom() * b.denom())
    }
}

impl core::ops::Mul for Rational {
    type Output = Rational;

    /// `(a.n * b.n) / (a.d * b.d)`.
    fn mul(self, r: Rational) -> (p: Rational)
        ensures
            p.numer() == self.numer() * r.numer(),
            p.denom() == self.denom() * r.denom(),
    {
        proof {
            use_type_invariant(&self);
            use_type_invariant(&r);
            let (x, y) = (self.denominator as int, r.denominator as int);
            assert(x * y != 0) by (nonlinear_arith)
                requires
                    x != 0,
                    y != 0,
            ;
        }
        Rational {
            numerator: self.numerator * r.numerator,
            denominator: self.denominator * r.denominator,
        }
    }
}

impl vstd::std_specs::ops::MulSpecImpl for Rational {
    open spec fn obeys_mul_spec() -> bool {
        true
    }

    open spec fn mul_req(self, r: Rational) -> bool {
        in_i32(self.numer() * r.numer()) && in_i32(self.denom() * r.denom())
    }

    closed spec fn mul_spec(self, r: Rational) -> Rational {
        Rational {
            numerator: (self.numerator * r.numerator) as i32,
            denominator: (self.denominator * r.denominator) as i32,
        }
    }
}

impl core::ops::Div for Rational {
    type Output = Result<Rational, RationalError>;

    /// `(a.n * b.d) / (a.d * b.n)`, or `ZeroDenominator` when `b`'s numerator is zero.
    fn div(self, r: Rational) -> (q: Result<Rational, RationalError>)
        ensures
            r.numer() == 0 ==> q == Err::<Rational, RationalError>(
                RationalError::ZeroDenominator,
            ),
            r.numer() != 0 ==> q is Ok && q->Ok_0.numer() == self.numer() * r.denom()
                && q->Ok_0.denom() == self.denom() * r.numer(),
    {
        proof {
            use_type_invariant(&self);
        }
        if is_zero(&r.numerator) {
            return Err(RationalError::ZeroDenominator);
        }
        proof {
            let (x, y) = (self.denominator as int, r.numerator as int);
            assert(x * y != 0) by (nonlinear_arith)
                requires
                    x != 0,
                    y != 0,
            ;
        }
        Ok(
            Rational {
                numerator: self.numerator * r.denominator,
                denominator: self.denominator * r.numerator,
            },
        )
    }
}

impl vstd::std_specs::ops::DivSpecImpl for Rational {
    open spec fn obeys_div_spec() -> bool {
        true
    }

    open spec fn div_req(self, r: Rational) -> bool {
        in_i32(self.numer() * r.denom()) && in_i32(self.denom() * r.numer())
    }

    closed spec fn div_spec(self, r: Rational) -> Result<Rational, RationalError> {
        if r.numerator == 0 {
            Err(RationalError::ZeroDenominator)
        } else {
            Ok(
                Rational {
                    numerator: (self.numerator * r.denominator) as i32,
                    denominator: (self.denominator * r.numerator) as i32,
                },
            )
        }
    }
}

impl core::ops::Add for Rational {
    type Output = Rational;

    /// Adds over a shared denominator when the denominators are equal, else cross-multiplies.
    fn add(self, r: Rational) -> (s: Rational)
        ensures
            s.numer() == sum_numer(self, r),
            s.denom() == common_denom(self, r),
            self.denom() == r.denom() ==> s.denom() == self.denom() && s.numer() == self.numer()
                + r.numer(),
    {
        proof {
            use_type_invariant(&self);
            use_type_invariant(&r);
        }
        if self.denominator == r.denominator {
            Rational { numerator: self.numerator + r.numerator, denominator: self.denominator }
        } else {
            proof {
                let (x, y) = (self.denominator as int, r.denominator as int);
                assert(x * y != 0) by (nonlinear_arith)
                    requires
                        x != 0,
                        y != 0,
                ;
            }
            Rational {
                numerator: self.numerator * r.denominator + r.numerator * self.denominator,
                denominator: self.denominator * r.denominator,
            }
        }
    }
}

impl vstd::std_specs::ops::AddSpecImpl for Rational {
    open spec fn obeys_add_spec() -> bool {
        true
    }

    open spec fn add_req(self, r: Rational) -> bool {
        cross_fits(self, r, sum_numer(self, r))
    }

    closed spec fn add_spec(self, r: Rational) -> Rational {
        Rational {
            numerator: sum_numer(self, r) as i32,
            denominator: common_denom(self, r) as i32,
        }
    }
}

impl core::ops::Sub for Rational {
    type Output = Rational;

    /// Subtracts over a shared denominator when the denominators are equal, else cross-multiplies.
    fn sub(self, r: Rational) -> (s: Rational)
        ensures
            s.numer() == diff_numer(self, r),
            s.denom() == common_denom(self, r),
            self.denom() == r.denom() ==> s.denom() == self.denom() && s.numer() == self.numer()
                - r.numer(),
    {
        proof {
            use_type_invariant(&self);
            use_type_invariant(&r);
        }
        if self.denominator == r.denominator {
            Rational { numerator: self.numerator - r.numerator, denominator: self.denominator }
        } else {
            proof {
                let (x, y) = (self.denominator as int, r.denominator as int);
                assert(x * y != 0) by (nonlinear_arith)
                    requires
                        x != 0,
                        y != 0,
                ;
            }
            Rational {
                numerator: self.numerator * r.denominator - r.numerator * self.denominator,
                denominator: self.denominator * r.denominator,
            }
        }
    }
}

impl vstd::std_specs::ops::SubSpecImpl for Rational {
    open spec fn obeys_sub_spec() -> bool {
        true
    }

    open spec fn sub_req(self, r: Rational) -> bool {
        cross_fits(self, r, diff_numer(self, r))
    }

    closed spec fn sub_spec(self, r: Rational) -> Rational {
        Rational {
            numerator: diff_numer(self, r) as i32,
            denominator: common_denom(self, r) as i32,
        }
    }
}

impl core::ops::Neg for Rational {
    type Output = Rational;

    /// Flips the sign of the numerator and keeps the denominator.
    fn neg(self) -> (m: Rational)
        ensures
            m.numer() == -self.numer(),
            m.denom() == self.denom(),
    {
        proof {
            use_type_invariant(&self);
        }
        Rational { numerator: -self.numerator, denominator: self.denominator }
    }
}

impl vstd::std_specs::ops::NegSpecImpl for Rational {
    open spec fn obeys_neg_spec() -> bool {
        true
    }

    open spec fn neg_req(self) -> bool {
        self.numer() != i32::MIN
    }

    closed spec fn neg_spec(self) -> Rational {
        Rational { numerator: (-self.numerator) as i32, denominator: self.denominator }
    }
}

/// Negating a fraction twice gives it back.
pub proof fn law_opposite_twice(a: Rational)
    requires
        a.wf(),
        a.numer() != i32::MIN,
    ensures
        a.negated().numer() != i32::MIN,
        a.negated().negated() == a,
{
}

/// Taking the reciprocal twice gives the fraction back when its numerator is not zero;
/// the first reciprocal then has a non-zero numerator, so the second one succeeds too.
pub proof fn law_reciprocal_twice(a: Rational)
    requires
        a.wf(),
        a.numer() != 0,
    ensures
        a.flipped().wf(),
        a.flipped().numer() != 0,
        a.flipped().flipped() == a,
{
}

/// Dividing a whole multiple of `d` by `d` rounds to nothing: the quotient is exact.
proof fn lemma_trunc_div_exact(k: int, d: int)
    requires
        d != 0,
    ensures
        trunc_div(k * d, d) == k,
{
    let (ka, da) = (abs_int(k), abs_int(d));
    assert(abs_int(k * d) == ka * da) by (nonlinear_arith)
        requires
            ka == abs_int(k),
            da == abs_int(d),
    ;
    vstd::arithmetic::div_mod::lemma_div_by_multiple(ka, da);
    assert((k * d < 0) == ((k < 0) != (d < 0)) || k == 0) by (nonlinear_arith)
        requires
            d != 0,
    ;
    if k == 0 {
        assert(k * d == 0) by (nonlinear_arith)
            requires
                k == 0,
        ;
    }
}

/// When both fractions evaluate exactly (each numerator a whole multiple of its
/// denominator), the product evaluates to the product of the evaluated values.
pub proof fn law_whole_product_value(a: Rational, b: Rational)
    requires
        a.wf(),
        b.wf(),
        a.numer() == value(a) * a.denom(),
        b.numer() == value(b) * b.denom(),
    ensures
        value_of(a.numer() * b.numer(), a.denom() * b.denom()) == value(a) * value(b),
{
    let (ka, kb, da, db) = (value(a), value(b), a.denom(), b.denom());
    assert(a.numer() * b.numer() == (ka * kb) * (da * db)) by (nonlinear_arith)
        requires
            a.numer() == ka * da,
            b.numer() == kb * db,
    ;
    assert(da * db != 0) by (nonlinear_arith)
        requires
            da != 0,
            db != 0,
    ;
    lemma_trunc_div_exact(ka * kb, da * db);
}

} // verus!
