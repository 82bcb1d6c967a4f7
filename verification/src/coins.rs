//! Enums and pattern matching: coin denominations, a variant that binds a
//! value, matching on `Option`, and catch-all patterns.

use vstd::prelude::*;

verus! {

pub enum Coin {
    Penny,
    Nickel,
    Dime,
    Quarter,
}

/// The face value of a coin, in cents.
pub open spec fn coin_cents(coin: Coin) -> u8 {
    match coin {
        Coin::Penny => 1,
        Coin::Nickel => 5,
        Coin::Dime => 10,
        Coin::Quarter => 25,
    }
}

pub fn value_in_cents(coin: Coin) -> (v: u8)
    ensures
        v == coin_cents(coin),
{
    match coin {
        Coin::Penny => 1,
        Coin::Nickel => 5,
        Coin::Dime => 10,
        Coin::Quarter => 25,
    }
}

#[derive(Debug)]
pub enum UsState {
    Alabama,
    Alaska,
}

/// A quarter carries the state it was minted for; the other denominations
/// carry nothing.
pub enum CoinUsState {
    Penny,
    Nickel,
    Dime,
    Quarter(UsState),
}

/// Adds one to the number, if there is one.
pub fn plus_one(x: Option<i32>) -> (r: Option<i32>)
    requires
        x matches Some(i) ==> i < i32::MAX,
    ensures
        x is None ==> r is None,
        x matches Some(i) ==> r == Some((i + 1) as i32),
{
    match x {
        None => None,
        Some(i) => Some(i + 1),
    }
}

/// A match may end in a binding that covers every remaining value.
pub fn catch_all() {
    let dice_roll: i32 = 9;
    match dice_roll {
        3 => (),
        7 => (),
        _other => (),
    }
}

/// Or in `_`, when the remaining value itself is not needed.
pub fn catch_all2() {
    let dice_roll: i32 = 3;
    match dice_roll {
        3 => (),
        7 => (),
        _ => (),
    }
}

} // verus!
