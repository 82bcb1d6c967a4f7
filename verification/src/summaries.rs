//! Traits with default methods: summaries of articles and tweets.  One
//! trait offers a ready-made summary that implementors may replace; the
//! other derives its summary from a single required method.

use vstd::prelude::*;
use vstd::string::StringExecFns;

verus! {

/// A summary with a default wording for types that provide nothing more;
/// an implementor that overrides it states its own wording in its own
/// `ensures`.
pub trait Summary1 {
    fn summarize(&self) -> (r: String)
        default_ensures
            r@ == "(Read more...)"@,
    {
        String::from_str("(Read more...)")
    }
}

/// A summary built around the author: implementors only say who wrote the
/// piece, and the default summary phrases the rest.
pub trait Summary2 {
    /// Who wrote the piece.
    spec fn spec_author(&self) -> Seq<char>;

    fn summarize_author(&self) -> (r: String)
        ensures
            r@ == self.spec_author(),
    ;

    fn summarize(&self) -> (r: String)
        ensures
            r@ == "Read more from "@ + self.spec_author(),
    {
        let mut s = String::from_str("Read more from ");
        let author = self.summarize_author();
        s.append(author.as_str());
        s
    }
}

pub struct NewsArticle1 {
    pub headline: String,
    pub location: String,
    pub author: String,
    pub content: String,
}

impl Summary1 for NewsArticle1 {
    fn summarize(&self) -> (r: String)
        ensures
            r@ == self.headline@ + ", by "@ + self.author@ + " "@ + self.location@,
    {
        let mut s = self.headline.clone();
        s.append(", by ");
        s.append(self.author.as_str());
        s.append(" ");
        s.append(self.location.as_str());
        s
    }
}

pub struct NewsArticle2 {
    pub headline: String,
    pub location: String,
    pub author: String,
    pub content: String,
}

impl Summary2 for NewsArticle2 {
    open spec fn spec_author(&self) -> Seq<char> {
        "@"@ + self.author@
    }

    fn summarize_author(&self) -> (r: String) {
        let mut s = String::from_str("@");
        s.append(self.author.as_str());
        s
    }
}

pub struct Tweet1 {
    pub username: String,
    pub content: String,
    pub reply: bool,
    pub retweet: bool,
}

impl Summary1 for Tweet1 {
    fn summarize(&self) -> (r: String)
        ensures
            r@ == self.username@ + ": "@ + self.content@,
    {
        let mut s = self.username.clone();
        s.append(": ");
        s.append(self.content.as_str());
        s
    }
}

// Multiple trait bounds with the `+` syntax, in both the `impl Trait` and
// the explicit type-parameter form.
pub fn notify3(_item: &(impl Summary2 + core::fmt::Display)) {
}

pub fn notify4<T: Summary2 + core::fmt::Display>(_item: &T) {
}

// Trait bounds spelled out in a `where` clause.
fn example1<T, U>(_t: &T, _u: &U) -> i32 where
    T: core::fmt::Display + Clone,
    U: Clone + core::fmt::Display,
 {
    0
}

/// A function may return some type that implements a trait without naming
/// the type, as long as every return site agrees on it.
pub fn returns_summary() -> (r: impl Summary2)
    ensures
        r.spec_author() == "@"@ + "Virat Kohli"@,
{
    NewsArticle2 {
        headline: String::from_str("India wins world cup!"),
        location: String::from_str("Mumbai, India"),
        author: String::from_str("Virat Kohli"),
        content: String::from_str("India once again wins the World Cup in 2025!..."),
    }
}

/// A pair of values of one type.
pub struct Pair<T> {
    pub x: T,
    pub y: T,
}

impl<T> Pair<T> {
    pub fn new(x: T, y: T) -> (p: Self)
        ensures
            p.x == x,
            p.y == y,
    {
        Self { x, y }
    }
}

} // verus!
