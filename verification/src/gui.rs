//! A common behaviour shared across component types: a screen draws each
//! of its components through the `Draw` trait, once over trait objects of
//! mixed concrete types, once over a single generic component type.

use vstd::prelude::*;
use vstd::string::StringExecFns;

verus! {

/// What every drawable component offers.
pub trait Draw {
    fn draw(&self);
}

/// A screen over trait objects: components of different concrete types
/// stand side by side in one vector.
pub struct Screen {
    pub components: Vec<Box<dyn Draw>>,
}

impl Screen {
    /// Draws every component in order.
    pub fn run(&self) {
        let mut i: usize = 0;
        while i < self.components.len()
            invariant
                i <= self.components@.len(),
            decreases self.components@.len() - i,
        {
            self.components[i].draw();
            i += 1;
        }
    }
}

/// A screen over one generic component type: every component has the same
/// concrete type, fixed when the screen's type is chosen.
pub struct Screen2<T: Draw> {
    pub components: Vec<T>,
}

impl<T> Screen2<T> where T: Draw {
    /// Draws every component in order.
    pub fn run(&self) {
        let mut i: usize = 0;
        while i < self.components.len()
            invariant
                i <= self.components@.len(),
            decreases self.components@.len() - i,
        {
            self.components[i].draw();
            i += 1;
        }
    }
}

pub struct Button {
    pub width: u32,
    pub height: u32,
    pub label: String,
}

impl Draw for Button {
    fn draw(&self) {
    }
}

pub struct SelectBox {
    width: u32,
    height: u32,
    options: Vec<String>,
}

impl Draw for SelectBox {
    fn draw(&self) {
    }
}

/// A screen holding two components of different types behind the same
/// trait object type.
pub fn screen_example() {
    let mut options: Vec<String> = Vec::new();
    options.push(String::from_str("Yes"));
    options.push(String::from_str("Maybe"));
    options.push(String::from_str("No"));
    let select_box = SelectBox { width: 75, height: 10, options };
    let button = Button { width: 50, height: 50, label: String::from_str("OK") };
    let mut components: Vec<Box<dyn Draw>> = Vec::new();
    components.push(Box::new(select_box));
    components.push(Box::new(button));
    let screen = Screen { components };
    screen.run();
}

} // verus!
