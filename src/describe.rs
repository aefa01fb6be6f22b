use vstd::prelude::*;
use vstd::string::StringExecFns;

use crate::dtype::Dtype;

verus! {

/// The decimal digit `d` (below ten) as a character.
pub open spec fn digit_char(d: int) -> char {
    if d == 0 { '0' }
    else if d == 1 { '1' }
    else if d == 2 { '2' }
    else if d == 3 { '3' }
    else if d == 4 { '4' }
    else if d == 5 { '5' }
    else if d == 6 { '6' }
    else if d == 7 { '7' }
    else if d == 8 { '8' }
    else { '9' }
}

/// The decimal digits of `n`, most significant first, without leading zeros.
pub open spec fn digits(n: nat) -> Seq<char>
    decreases n,
{
    if n < 10 {
        seq![digit_char(n as int)]
    } else {
        digits(n / 10).push(digit_char((n % 10) as int))
    }
}

/// The decimal text of `v`: a minus sign for a negative number, then its
/// digits.
pub open spec fn decimal_text(v: int) -> Seq<char> {
    if v < 0 {
        seq!['-'] + digits((-v) as nat)
    } else {
        digits(v as nat)
    }
}

/// Relies on the `Display` impl of `i64` (through `to_string`), which writes
/// the number in decimal with a leading minus sign when it is negative.
#[verifier::external_body]
fn decimal(v: i64) -> (r: String)
    ensures
        r@ == decimal_text(v as int),
{
    v.to_string()
}

/// What a node's description shows as its value: the reply of the query
/// its type calls for, or nothing.
pub enum Shown {
    /// A node whose type carries no value shown here, or whose query failed.
    Nothing,
    /// An integer node's value.
    Int(i64),
    /// A text: a string node's value, or a number written by the caller.
    Text(String),
    /// A vector node's `(x, y)`.
    Vector(i32, i32),
    /// An array node's number of children.
    Children(u32),
    /// An image node's width, height and number of children.
    Picture(u32, u32, u32),
}

/// The text a description shows for a value.
pub open spec fn shown_text(v: &Shown) -> Seq<char> {
    match v {
        Shown::Nothing => Seq::empty(),
        Shown::Int(i) => decimal_text(*i as int),
        Shown::Text(s) => s@,
        Shown::Vector(x, y) => "vec("@ + decimal_text(*x as int) + ", "@ + decimal_text(*y as int)
            + ")"@,
        Shown::Children(n) => "child num="@ + decimal_text(*n as int),
        Shown::Picture(w, h, n) => "dim:"@ + decimal_text(*w as int) + "x"@ + decimal_text(
            *h as int,
        ) + ",child num="@ + decimal_text(*n as int),
    }
}

/// The text a description shows for a value.
pub fn value_text(v: &Shown) -> (r: String)
    ensures
        r@ == shown_text(v),
{
    match v {
        Shown::Nothing => String::new(),
        Shown::Int(i) => decimal(*i),
        Shown::Text(s) => s.clone(),
        Shown::Vector(x, y) => {
            let mut s = String::from_str("vec(");
            s.append(decimal(*x as i64).as_str());
            s.append(", ");
            s.append(decimal(*y as i64).as_str());
            s.append(")");
            s
        },
        Shown::Children(n) => {
            let mut s = String::from_str("child num=");
            s.append(decimal(*n as i64).as_str());
            s
        },
        Shown::Picture(w, h, n) => {
            let mut s = String::from_str("dim:");
            s.append(decimal(*w as i64).as_str());
            s.append("x");
            s.append(decimal(*h as i64).as_str());
            s.append(",child num=");
            s.append(decimal(*n as i64).as_str());
            s
        },
    }
}

/// The one-line description of a node: its diagnostic path, its type's name
/// (`Error` when the tag is unknown) and its value.
pub open spec fn description(path: Option<Seq<char>>, tag: Option<Dtype>, value: Seq<char>) -> Seq<
    char,
> {
    let p = match path {
        Some(p) => p,
        None => Seq::empty(),
    };
    let t = match tag {
        Some(t) => t.spec_to_str(),
        None => "Error"@,
    };
    "WzNode Path["@ + p + "] Type["@ + t + "] Value["@ + value + "]"@
}

/// Describes a node from its diagnostic path, its type tag and its value.
pub fn describe(path: Option<&str>, tag: Option<Dtype>, value: &Shown) -> (r: String)
    ensures
        r@ == description(
            match path {
                Some(p) => Some(p@),
                None => None,
            },
            tag,
            shown_text(value),
        ),
{
    let mut s = String::from_str("WzNode Path[");
    match path {
        Some(p) => s.append(p),
        None => {},
    }
    s.append("] Type[");
    match tag {
        Some(t) => s.append(t.to_str()),
        None => s.append("Error"),
    }
    s.append("] Value[");
    s.append(value_text(value).as_str());
    s.append("]");
    s
}

} // verus!
