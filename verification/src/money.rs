//! An amount of money as a whole number of the smallest unit of a currency.

use core::ops::{Add, AddAssign, Div, DivAssign, Mul, MulAssign, Sub, SubAssign};
use vstd::prelude::*;
use vstd::std_specs::convert::FromSpecImpl;
use vstd::std_specs::ops::{AddSpecImpl, DivSpecImpl, MulSpecImpl, SubSpecImpl};

verus! {

/// The quotient of `a` by `b`, rounded toward zero. The division written
/// here rounds down where `b` is positive and up where it is negative.
pub open spec fn quotient(a: int, b: int) -> int
    recommends
        b != 0,
{
    if a >= 0 {
        a / b
    } else {
        -((-a) / b)
    }
}

/// Whether `n` is an amount that `Money` can hold.
pub open spec fn fits(n: int) -> bool {
    i64::MIN <= n <= i64::MAX
}

/// An amount of money.
#[derive(Debug, PartialEq, Eq, PartialOrd, Ord, Clone)]
pub struct Money(i64);

impl View for Money {
    type V = int;

    /// The amount.
    closed spec fn view(&self) -> int {
        self.0 as int
    }
}

impl Money {
    /// The money that holds the amount `n`.
    pub closed spec fn of(n: int) -> Money {
        Money(n as i64)
    }

    /// The amount `amount` as money.
    pub fn new(amount: i64) -> (money: Self)
        ensures
            money@ == amount,
            money == Money::of(amount as int),
    {
        Money(amount)
    }

    /// Whether the quotient of this amount by `other` can be taken and held.
    pub open spec fn divides_by(self, other: Money) -> bool {
        other@ != 0 && !(self@ == i64::MIN && other@ == -1)
    }
}

/// The amount of any money fits, and the money of that amount is the same
/// money again.
pub broadcast proof fn lemma_money_of(money: Money)
    ensures
        #[trigger] Money::of(money@) == money,
        fits(money@),
{
}

/// The money of an amount holds that amount.
pub broadcast proof fn lemma_of_view(n: int)
    requires
        fits(n),
    ensures
        #[trigger] Money::of(n)@ == n,
{
}

impl AddSpecImpl for Money {
    open spec fn obeys_add_spec() -> bool {
        true
    }

    open spec fn add_req(self, other: Money) -> bool {
        fits(self@ + other@)
    }

    open spec fn add_spec(self, other: Money) -> Money {
        Money::of(self@ + other@)
    }
}

impl Add for Money {
    type Output = Self;

    /// The sum of two amounts.
    fn add(self, other: Self) -> (sum: Self)
        ensures
            sum@ == self@ + other@,
    {
        Self::new(self.0 + other.0)
    }
}

impl SubSpecImpl for Money {
    open spec fn obeys_sub_spec() -> bool {
        true
    }

    open spec fn sub_req(self, other: Money) -> bool {
        fits(self@ - other@)
    }

    open spec fn sub_spec(self, other: Money) -> Money {
        Money::of(self@ - other@)
    }
}

impl Sub for Money {
    type Output = Self;

    /// The difference of two amounts.
    fn sub(self, other: Self) -> (difference: Self)
        ensures
            difference@ == self@ - other@,
    {
        Self::new(self.0 - other.0)
    }
}

impl MulSpecImpl for Money {
    open spec fn obeys_mul_spec() -> bool {
        true
    }

    open spec fn mul_req(self, other: Money) -> bool {
        fits(self@ * other@)
    }

    open spec fn mul_spec(self, other: Money) -> Money {
        Money::of(self@ * other@)
    }
}

impl Mul for Money {
    type Output = Self;

    /// The product of two amounts.
    fn mul(self, other: Self) -> (product: Self)
        ensures
            product@ == self@ * other@,
    {
        Self::new(self.0 * other.0)
    }
}

impl DivSpecImpl for Money {
    open spec fn obeys_div_spec() -> bool {
        true
    }

    open spec fn div_req(self, other: Money) -> bool {
        self.divides_by(other)
    }

    open spec fn div_spec(self, other: Money) -> Money {
        Money::of(quotient(self@, other@))
    }
}

impl Div for Money {
    type Output = Self;

    /// The quotient of two amounts, rounded toward zero.
    fn div(self, other: Self) -> (quotient: Self)
        ensures
            quotient@ == self::quotient(self@, other@),
    {
        proof {
            lemma_quotient_fits(self@, other@);
        }
        Self::new(self.0 / other.0)
    }
}

impl AddAssign for Money {
    /// Adds `other` to this amount.
    fn add_assign(&mut self, other: Self)
        requires
            fits(old(self)@ + other@),
        ensures
            final(self)@ == old(self)@ + other@,
    {
        self.0 += other.0
    }
}

impl SubAssign for Money {
    /// Takes `other` from this amount.
    fn sub_assign(&mut self, other: Self)
        requires
            fits(old(self)@ - other@),
        ensures
            final(self)@ == old(self)@ - other@,
    {
        self.0 -= other.0
    }
}

impl MulAssign for Money {
    /// Multiplies this amount by `other`.
    fn mul_assign(&mut self, other: Self)
        requires
            fits(old(self)@ * other@),
        ensures
            final(self)@ == old(self)@ * other@,
    {
        self.0 *= other.0
    }
}

impl DivAssign for Money {
    /// Divides this amount by `other`, rounding toward zero.
    fn div_assign(&mut self, other: Self)
        requires
            old(self).divides_by(other),
        ensures
            final(self)@ == quotient(old(self)@, other@),
    {
        proof {
            lemma_quotient_fits(self@, other@);
        }
        self.0 = self.0 / other.0
    }
}

/// A quotient that can be taken is an amount that `Money` can hold.
pub proof fn lemma_quotient_fits(a: int, b: int)
    requires
        fits(a),
        fits(b),
        b != 0,
        !(a == i64::MIN && b == -1),
    ensures
        fits(quotient(a, b)),
{
    let n = if a >= 0 {
        a
    } else {
        -a
    };
    assert(-n <= n / b <= n && (b != -1 ==> -n < n / b || n == 0)) by (nonlinear_arith)
        requires
            n >= 0,
            b != 0,
    ;
}

impl FromSpecImpl<i8> for Money {
    open spec fn obeys_from_spec() -> bool {
        true
    }

    open spec fn from_spec(amount: i8) -> Money {
        Money::of(amount as int)
    }
}

impl From<i8> for Money {
    /// The amount `amount` as money.
    fn from(amount: i8) -> (money: Self)
        ensures
            money@ == amount,
    {
        Self(amount.into())
    }
}

impl FromSpecImpl<i16> for Money {
    open spec fn obeys_from_spec() -> bool {
        true
    }

    open spec fn from_spec(amount: i16) -> Money {
        Money::of(amount as int)
    }
}

impl From<i16> for Money {
    /// The amount `amount` as money.
    fn from(amount: i16) -> (money: Self)
        ensures
            money@ == amount,
    {
        Self(amount.into())
    }
}

impl FromSpecImpl<i32> for Money {
    open spec fn obeys_from_spec() -> bool {
        true
    }

    open spec fn from_spec(amount: i32) -> Money {
        Money::of(amount as int)
    }
}

impl From<i32> for Money {
    /// The amount `amount` as money.
    fn from(amount: i32) -> (money: Self)
        ensures
            money@ == amount,
    {
        Self(amount.into())
    }
}

impl FromSpecImpl<u8> for Money {
    open spec fn obeys_from_spec() -> bool {
        true
    }

    open spec fn from_spec(amount: u8) -> Money {
        Money::of(amount as int)
    }
}

impl From<u8> for Money {
    /// The amount `amount` as money.
    fn from(amount: u8) -> (money: Self)
        ensures
            money@ == amount,
    {
        Self(amount as i64)
    }
}

impl FromSpecImpl<u16> for Money {
    open spec fn obeys_from_spec() -> bool {
        true
    }

    open spec fn from_spec(amount: u16) -> Money {
        Money::of(amount as int)
    }
}

impl From<u16> for Money {
    /// The amount `amount` as money.
    fn from(amount: u16) -> (money: Self)
        ensures
            money@ == amount,
    {
        Self(amount as i64)
    }
}

impl FromSpecImpl<u32> for Money {
    open spec fn obeys_from_spec() -> bool {
        true
    }

    open spec fn from_spec(amount: u32) -> Money {
        Money::of(amount as int)
    }
}

impl From<u32> for Money {
    /// The amount `amount` as money.
    fn from(amount: u32) -> (money: Self)
        ensures
            money@ == amount,
    {
        Self(amount as i64)
    }
}

impl FromSpecImpl<i64> for Money {
    open spec fn obeys_from_spec() -> bool {
        true
    }

    open spec fn from_spec(amount: i64) -> Money {
        Money::of(amount as int)
    }
}

impl From<i64> for Money {
    /// The amount `amount` as money.
    fn from(amount: i64) -> (money: Self)
        ensures
            money@ == amount,
    {
        Self(amount)
    }
}

/// The signed number with the 64 bits of `amount`: `amount` itself where
/// that is at most the largest signed number, else `amount` less two to the
/// sixty-fourth.
pub open spec fn reinterpreted(amount: u64) -> int {
    if amount <= i64::MAX {
        amount as int
    } else {
        amount - 0x1_0000_0000_0000_0000
    }
}

impl FromSpecImpl<u64> for Money {
    open spec fn obeys_from_spec() -> bool {
        true
    }

    open spec fn from_spec(amount: u64) -> Money {
        Money::of(reinterpreted(amount))
    }
}

impl From<u64> for Money {
    /// The amount with the bits of `amount`: an amount above the largest
    /// that money can hold comes out negative.
    fn from(amount: u64) -> (money: Self)
        ensures
            money@ == reinterpreted(amount),
    {
        let bits = #[verifier::truncate] (amount as i64);
        assert(bits == reinterpreted(amount)) by (bit_vector)
            requires
                bits == amount as i64,
        ;
        Self(bits)
    }
}

/// An amount of money in one of three currencies.
#[derive(Debug, PartialEq, Eq, PartialOrd, Ord, Clone)]
pub enum Currency {
    USD(Money),
    JPY(Money),
    RMB(Money),
}

impl Currency {
    /// The amount, whatever its currency.
    pub open spec fn amount(self) -> Money {
        match self {
            Currency::USD(amount) => amount,
            Currency::JPY(amount) => amount,
            Currency::RMB(amount) => amount,
        }
    }

    /// Whether the two amounts are in the same currency.
    pub open spec fn same_currency(self, other: Currency) -> bool {
        match (self, other) {
            (Currency::USD(_), Currency::USD(_)) => true,
            (Currency::JPY(_), Currency::JPY(_)) => true,
            (Currency::RMB(_), Currency::RMB(_)) => true,
            _ => false,
        }
    }

    /// The amount `amount` in the currency of this one.
    pub open spec fn with_amount(self, amount: Money) -> Currency {
        match self {
            Currency::USD(_) => Currency::USD(amount),
            Currency::JPY(_) => Currency::JPY(amount),
            Currency::RMB(_) => Currency::RMB(amount),
        }
    }
}

/// The character of the decimal digit `d`.
pub open spec fn digit(d: nat) -> char
    recommends
        d < 10,
{
    if d == 0 {
        '0'
    } else if d == 1 {
        '1'
    } else if d == 2 {
        '2'
    } else if d == 3 {
        '3'
    } else if d == 4 {
        '4'
    } else if d == 5 {
        '5'
    } else if d == 6 {
        '6'
    } else if d == 7 {
        '7'
    } else if d == 8 {
        '8'
    } else {
        '9'
    }
}

/// The decimal digits of `n`, the most significant first, without leading
/// zeros.
pub open spec fn digits(n: nat) -> Seq<char>
    decreases n,
{
    if n < 10 {
        seq![digit(n)]
    } else {
        digits(n / 10).push(digit(n % 10))
    }
}

/// The number `n` written in decimal, with a minus sign where it is
/// negative.
pub open spec fn decimal(n: int) -> Seq<char> {
    if n < 0 {
        seq!['-'] + digits((-n) as nat)
    } else {
        digits(n as nat)
    }
}

/// The formatting of an `i64` by `format!` with `{}`: the number in decimal,
/// as `decimal` spells it out. Not proved.
#[verifier::external_body]
fn decimal_text(amount: i64) -> (text: String)
    ensures
        text@ == decimal(amount as int),
{
    format!("{}", amount)
}

/// `String::push_str`: the characters of `suffix` come after those of
/// `text`. Not proved.
#[verifier::external_body]
fn followed_by(text: String, suffix: &str) -> (joined: String)
    ensures
        joined@ == text@ + suffix@,
{
    let mut joined = text;
    joined.push_str(suffix);
    joined
}

impl Currency {
    /// The name of the unit in which the amount is counted, after a space.
    pub open spec fn unit(self) -> Seq<char> {
        match self {
            Currency::USD(_) => " cents"@,
            Currency::JPY(_) => " yen"@,
            Currency::RMB(_) => " rmb"@,
        }
    }

    /// The amount in decimal, followed by the name of its unit.
    pub fn to_string(&self) -> (text: String)
        ensures
            text@ == decimal(self.amount()@) + self.unit(),
    {
        match self {
            Currency::USD(amount) => followed_by(decimal_text(amount.0), " cents"),
            Currency::JPY(amount) => followed_by(decimal_text(amount.0), " yen"),
            Currency::RMB(amount) => followed_by(decimal_text(amount.0), " rmb"),
        }
    }
}

impl AddSpecImpl for Currency {
    open spec fn obeys_add_spec() -> bool {
        true
    }

    open spec fn add_req(self, other: Currency) -> bool {
        self.same_currency(other) && fits(self.amount()@ + other.amount()@)
    }

    open spec fn add_spec(self, other: Currency) -> Currency {
        self.with_amount(Money::of(self.amount()@ + other.amount()@))
    }
}

impl Add for Currency {
    type Output = Self;

    /// The sum of two amounts in one currency.
    fn add(self, other: Currency) -> (sum: Currency)
        ensures
            sum.same_currency(self),
            sum.amount()@ == self.amount()@ + other.amount()@,
    {
        match (self, other) {
            (Currency::USD(a), Currency::USD(b)) => Currency::USD(a + b),
            (Currency::JPY(a), Currency::JPY(b)) => Currency::JPY(a + b),
            (Currency::RMB(a), Currency::RMB(b)) => Currency::RMB(a + b),
            (_, _) => unreached(),
        }
    }
}

impl SubSpecImpl for Currency {
    open spec fn obeys_sub_spec() -> bool {
        true
    }

    open spec fn sub_req(self, other: Currency) -> bool {
        self.same_currency(other) && fits(self.amount()@ - other.amount()@)
    }

    open spec fn sub_spec(self, other: Currency) -> Currency {
        self.with_amount(Money::of(self.amount()@ - other.amount()@))
    }
}

impl Sub for Currency {
    type Output = Self;

    /// The difference of two amounts in one currency.
    fn sub(self, other: Currency) -> (difference: Currency)
        ensures
            difference.same_currency(self),
            difference.amount()@ == self.amount()@ - other.amount()@,
    {
        match (self, other) {
            (Currency::USD(a), Currency::USD(b)) => Currency::USD(a - b),
            (Currency::JPY(a), Currency::JPY(b)) => Currency::JPY(a - b),
            (Currency::RMB(a), Currency::RMB(b)) => Currency::RMB(a - b),
            (_, _) => unreached(),
        }
    }
}

impl MulSpecImpl for Currency {
    open spec fn obeys_mul_spec() -> bool {
        true
    }

    open spec fn mul_req(self, other: Currency) -> bool {
        self.same_currency(other) && fits(self.amount()@ * other.amount()@)
    }

    open spec fn mul_spec(self, other: Currency) -> Currency {
        self.with_amount(Money::of(self.amount()@ * other.amount()@))
    }
}

impl Mul for Currency {
    type Output = Self;

    /// The product of two amounts in one currency.
    fn mul(self, other: Currency) -> (product: Currency)
        ensures
            product.same_currency(self),
            product.amount()@ == self.amount()@ * other.amount()@,
    {
        match (self, other) {
            (Currency::USD(a), Currency::USD(b)) => Currency::USD(a * b),
            (Currency::JPY(a), Currency::JPY(b)) => Currency::JPY(a * b),
            (Currency::RMB(a), Currency::RMB(b)) => Currency::RMB(a * b),
            (_, _) => unreached(),
        }
    }
}

impl DivSpecImpl for Currency {
    open spec fn obeys_div_spec() -> bool {
        true
    }

    open spec fn div_req(self, other: Currency) -> bool {
        self.same_currency(other) && self.amount().divides_by(other.amount())
    }

    open spec fn div_spec(self, other: Currency) -> Currency {
        self.with_amount(Money::of(quotient(self.amount()@, other.amount()@)))
    }
}

impl Div for Currency {
    type Output = Self;

    /// The quotient of two amounts in one currency, rounded toward zero.
    fn div(self, other: Currency) -> (quotient: Currency)
        ensures
            quotient.same_currency(self),
            quotient.amount()@ == self::quotient(self.amount()@, other.amount()@),
    {
        match (self, other) {
            (Currency::USD(a), Currency::USD(b)) => Currency::USD(a / b),
            (Currency::JPY(a), Currency::JPY(b)) => Currency::JPY(a / b),
            (Currency::RMB(a), Currency::RMB(b)) => Currency::RMB(a / b),
            (_, _) => unreached(),
        }
    }
}

} // verus!
