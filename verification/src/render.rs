//! Text rendering of values that can appear in an annotation.
//!
//! Verified code cannot use `core::fmt`, so the crate carries its own
//! rendering trait: a type says in spec what its text is, and `render`
//! produces exactly that text.

use vstd::prelude::*;

verus! {

/// The canonical text of one labeled annotation line: a newline, the label
/// and the info, laid out as `"\n-with {label}: {info}"`.
pub open spec fn annotation_line(label: Seq<char>, info: Seq<char>) -> Seq<char> {
    "\n-with "@ + label + ": "@ + info
}

/// The canonical text of a labeled annotation wrapper: the source's text
/// followed by one annotation line.
pub open spec fn annotation_text(source: Seq<char>, label: Seq<char>, info: Seq<char>) -> Seq<
    char,
> {
    source + annotation_line(label, info)
}

/// The canonical text of a label-less annotation wrapper: the source's text
/// followed by `"\nInfo: {info}"`.
pub open spec fn info_text(source: Seq<char>, info: Seq<char>) -> Seq<char> {
    source + "\nInfo: "@ + info
}

/// A value that can be rendered as text, with the text pinned down in spec.
///
/// This plays the role `Display` plays for unverified code: `text` says
/// what the rendering is, and `render` is proved to produce it.
pub trait Render {
    /// The text this value renders as.
    spec fn text(&self) -> Seq<char>;

    /// Produce the rendering as an owned string.
    fn render(&self) -> (s: String)
        ensures
            s@ == self.text(),
    ;
}

impl Render for String {
    open spec fn text(&self) -> Seq<char> {
        self@
    }

    fn render(&self) -> (s: String)
        ensures
            s@ == self.text(),
    {
        self.clone()
    }
}

impl Render for &str {
    open spec fn text(&self) -> Seq<char> {
        (*self)@
    }

    fn render(&self) -> (s: String)
        ensures
            s@ == self.text(),
    {
        (*self).to_owned()
    }
}

impl Render for u64 {
    open spec fn text(&self) -> Seq<char> {
        decimal_digits(*self as nat)
    }

    fn render(&self) -> (s: String)
        ensures
            s@ == self.text(),
    {
        u64_to_decimal(*self)
    }
}

/// The character for a single decimal digit.
pub open spec fn digit_char(d: nat) -> char {
    if d == 0 {
        '0'
    } else if d == 1 {
        '1'
    } else if d == 2 {
        '2'
    } else if d == 3 {
        '3'
    } else if d == 4 {
        '4'
    } else if d == 5 {
        '5'
    } else if d == 6 {
        '6'
    } else if d == 7 {
        '7'
    } else if d == 8 {
        '8'
    } else {
        '9'
    }
}

/// The decimal rendering of a natural number: most significant digit first,
/// no leading zeros except for the number zero itself.
pub open spec fn decimal_digits(n: nat) -> Seq<char>
    decreases n,
{
    if n < 10 {
        seq![digit_char(n)]
    } else {
        decimal_digits(n / 10) + seq![digit_char(n % 10)]
    }
}

/// The string literal for a single decimal digit.
fn digit_str(d: u64) -> (s: &'static str)
    requires
        d < 10,
    ensures
        s@ == seq![digit_char(d as nat)],
{
    proof {
        reveal_strlit("0");
        reveal_strlit("1");
        reveal_strlit("2");
        reveal_strlit("3");
        reveal_strlit("4");
        reveal_strlit("5");
        reveal_strlit("6");
        reveal_strlit("7");
        reveal_strlit("8");
        reveal_strlit("9");
    }
    if d == 0 {
        "0"
    } else if d == 1 {
        "1"
    } else if d == 2 {
        "2"
    } else if d == 3 {
        "3"
    } else if d == 4 {
        "4"
    } else if d == 5 {
        "5"
    } else if d == 6 {
        "6"
    } else if d == 7 {
        "7"
    } else if d == 8 {
        "8"
    } else {
        "9"
    }
}

/// Render a `u64` in decimal, most significant digit first.
pub fn u64_to_decimal(n: u64) -> (s: String)
    ensures
        s@ == decimal_digits(n as nat),
    decreases n,
{
    if n < 10 {
        digit_str(n).to_owned()
    } else {
        let mut s = u64_to_decimal(n / 10);
        s.append(digit_str(n % 10));
        assert(s@ =~= decimal_digits(n as nat));
        s
    }
}

} // verus!
