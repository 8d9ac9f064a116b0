use stdlib_rs::money::{Currency, Money};

#[test]
fn from_u64() {
    let num: u64 = 30;
    let res = Money::from(num);
    assert_eq!(res, Money::new(30));
}

#[test]
#[should_panic]
fn from_u64_max() {
    let num: u64 = u64::MAX;
    let res = Money::from(num);
    assert_eq!(res, Money::new(30));
}

#[test]
fn add_money() {
    let left = Money::new(10);
    let right = Money::new(10);
    let new = left + right;
    assert_eq!(new, Money::new(20));
}

#[test]
fn add_currencies() {
    let left = Currency::JPY(Money::new(10));
    let right = Currency::JPY(Money::new(10));
    let new = left + right;
    assert_eq!(new, Currency::JPY(Money::new(20)));
}

#[test]
fn money_arithmetic() {
    assert_eq!(Money::new(7) - Money::new(10), Money::new(-3));
    assert_eq!(Money::new(-4) * Money::new(6), Money::new(-24));
    assert_eq!(Money::new(7) / Money::new(2), Money::new(3));
    assert_eq!(Money::new(-7) / Money::new(2), Money::new(-3));
    assert_eq!(Money::new(7) / Money::new(-2), Money::new(-3));
    assert_eq!(Money::new(-7) / Money::new(-2), Money::new(3));
    assert_eq!(Money::new(i64::MIN + 1) / Money::new(-1), Money::new(i64::MAX));
}

#[test]
fn money_assigning_arithmetic() {
    let mut money = Money::new(10);
    money += Money::new(5);
    assert_eq!(money, Money::new(15));
    money -= Money::new(20);
    assert_eq!(money, Money::new(-5));
    money *= Money::new(-7);
    assert_eq!(money, Money::new(35));
    money /= Money::new(-4);
    assert_eq!(money, Money::new(-8));
}

#[test]
fn money_from_each_integer_type() {
    assert_eq!(Money::from(-8i8), Money::new(-8));
    assert_eq!(Money::from(i16::MIN), Money::new(-32768));
    assert_eq!(Money::from(i32::MAX), Money::new(2147483647));
    assert_eq!(Money::from(i64::MIN), Money::new(i64::MIN));
    assert_eq!(Money::from(255u8), Money::new(255));
    assert_eq!(Money::from(u16::MAX), Money::new(65535));
    assert_eq!(Money::from(u32::MAX), Money::new(4294967295));
    assert_eq!(Money::from(i64::MAX as u64), Money::new(i64::MAX));
}

#[test]
fn money_from_large_u64_wraps() {
    assert_eq!(Money::from(u64::MAX), Money::new(-1));
    assert_eq!(Money::from(1u64 << 63), Money::new(i64::MIN));
}

#[test]
fn currency_arithmetic() {
    let usd = |n: i64| Currency::USD(Money::new(n));
    let rmb = |n: i64| Currency::RMB(Money::new(n));
    assert_eq!(usd(10) - usd(25), usd(-15));
    assert_eq!(rmb(3) * rmb(4), rmb(12));
    assert_eq!(usd(-9) / usd(2), usd(-4));
    assert_eq!(rmb(1) + rmb(2), rmb(3));
    assert_ne!(usd(3), rmb(3));
}

#[test]
fn currency_to_string() {
    assert_eq!(Currency::USD(Money::new(150)).to_string(), "150 cents");
    assert_eq!(Currency::JPY(Money::new(-7)).to_string(), "-7 yen");
    assert_eq!(Currency::RMB(Money::new(0)).to_string(), "0 rmb");
    assert_eq!(
        Currency::USD(Money::new(i64::MIN)).to_string(),
        "-9223372036854775808 cents"
    );
}
