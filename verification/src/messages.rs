//! One enum with four differently shaped variants, next to the four
//! standalone structs it replaces.

use vstd::prelude::*;
use vstd::string::StringExecFns;

verus! {

/// A message in one of four shapes: no data, named fields, one string, or
/// three numbers.
pub enum Message {
    Quit,
    Move { x: i32, y: i32 },
    Write(String),
    ChangeColor(i32, i32, i32),
}

impl Message {
    pub fn call(&self) {
    }
}

// Written as separate types, the four shapes would be a unit struct, a
// field struct, and two tuple structs — with no single type a function
// could take to accept any of them.
pub struct QuitMessage;

pub struct MoveMessage {
    pub x: i32,
    pub y: i32,
}

pub struct WriteMessage(pub String);

pub struct ChangeColorMessage(pub i32, pub i32, pub i32);

/// Builds a message and calls a method on it.
pub fn enum_variety() {
    let m = Message::Write(String::from_str("hello"));
    m.call();
}

} // verus!
