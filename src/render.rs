//! Diagnostic text in the shape of Rust's `Debug` output: quoted strings,
//! optional values, lists and integers.
use vstd::prelude::*;

use std::path::PathBuf;
use vstd::string::StringExecFns;

verus! {

/// What `Debug` prints for a string: quoted, with escapes.
pub uninterp spec fn str_debug(s: Seq<char>) -> Seq<char>;

/// What `Debug` prints for a path.
pub uninterp spec fn path_debug(p: PathBuf) -> Seq<char>;

/// Relies on `<str as Debug>::fmt`: the quoted, escaped form of the text,
/// which depends on the text alone.
#[verifier::external_body]
pub(crate) fn quoted(s: &str) -> (r: String)
    ensures
        r@ == str_debug(s@),
{
    format!("{:?}", s)
}

/// Relies on `<PathBuf as Debug>::fmt`: the quoted form of the path, which
/// depends on the path alone.
#[verifier::external_body]
pub(crate) fn quoted_path(p: &PathBuf) -> (r: String)
    ensures
        r@ == path_debug(*p),
{
    format!("{:?}", p)
}

/// The decimal digits of `n`, most significant first.
pub open spec fn digits(n: nat) -> Seq<char>
    decreases n,
{
    if n < 10 {
        seq![seq!['0', '1', '2', '3', '4', '5', '6', '7', '8', '9'][n as int]]
    } else {
        digits(n / 10) + seq![seq!['0', '1', '2', '3', '4', '5', '6', '7', '8', '9'][(n % 10) as int]]
    }
}

/// `n` in decimal, with a leading minus sign when it is negative.
pub open spec fn decimal(n: int) -> Seq<char> {
    if n < 0 {
        seq!['-'] + digits((-n) as nat)
    } else {
        digits(n as nat)
    }
}

/// The character of one decimal digit.
fn digit_text(d: u64) -> (r: &'static str)
    requires
        d < 10,
    ensures
        r@ == seq![seq!['0', '1', '2', '3', '4', '5', '6', '7', '8', '9'][d as int]],
{
    if d == 0 {
        proof { reveal_strlit("0"); }
        "0"
    } else if d == 1 {
        proof { reveal_strlit("1"); }
        "1"
    } else if d == 2 {
        proof { reveal_strlit("2"); }
        "2"
    } else if d == 3 {
        proof { reveal_strlit("3"); }
        "3"
    } else if d == 4 {
        proof { reveal_strlit("4"); }
        "4"
    } else if d == 5 {
        proof { reveal_strlit("5"); }
        "5"
    } else if d == 6 {
        proof { reveal_strlit("6"); }
        "6"
    } else if d == 7 {
        proof { reveal_strlit("7"); }
        "7"
    } else if d == 8 {
        proof { reveal_strlit("8"); }
        "8"
    } else {
        proof { reveal_strlit("9"); }
        "9"
    }
}

/// The decimal digits of `n`.
fn digits_text(n: u64) -> (r: String)
    ensures
        r@ == digits(n as nat),
    decreases n,
{
    if n < 10 {
        digit_text(n).to_owned()
    } else {
        let mut r = digits_text(n / 10);
        r.append(digit_text(n % 10));
        r
    }
}

/// `n` in decimal, with a leading minus sign when it is negative.
pub(crate) fn decimal_text(n: i64) -> (r: String)
    ensures
        r@ == decimal(n as int),
{
    if n < 0 {
        let m: u64 = (0i128 - (n as i128)) as u64;
        let mut r = "-".to_owned();
        let d = digits_text(m);
        r.append(d.as_str());
        proof { reveal_strlit("-"); }
        r
    } else {
        digits_text(n as u64)
    }
}

/// `Debug` text of an optional string.
pub open spec fn opt_str_debug(t: Option<String>) -> Seq<char> {
    match t {
        Some(s) => "Some("@ + str_debug(s@) + ")"@,
        None => "None"@,
    }
}

/// `Debug` text of an optional path.
pub open spec fn opt_path_debug(p: Option<PathBuf>) -> Seq<char> {
    match p {
        Some(q) => "Some("@ + path_debug(q) + ")"@,
        None => "None"@,
    }
}

/// The items, separated by `", "`.
pub open spec fn separated(items: Seq<Seq<char>>) -> Seq<char>
    decreases items.len(),
{
    if items.len() == 0 {
        Seq::empty()
    } else if items.len() == 1 {
        items[0]
    } else {
        separated(items.drop_last()) + ", "@ + items.last()
    }
}

/// `Debug` text of a list whose items print as `items`.
pub open spec fn list_debug(items: Seq<Seq<char>>) -> Seq<char> {
    "["@ + separated(items) + "]"@
}

pub(crate) fn opt_text(t: &Option<String>) -> (r: String)
    ensures
        r@ == opt_str_debug(*t),
{
    match t {
        Some(s) => {
            let mut r = "Some(".to_owned();
            let q = quoted(s.as_str());
            r.append(q.as_str());
            r.append(")");
            r
        },
        None => "None".to_owned(),
    }
}

pub(crate) fn opt_path(p: &Option<PathBuf>) -> (r: String)
    ensures
        r@ == opt_path_debug(*p),
{
    match p {
        Some(q) => {
            let mut r = "Some(".to_owned();
            let t = quoted_path(q);
            r.append(t.as_str());
            r.append(")");
            r
        },
        None => "None".to_owned(),
    }
}

/// The texts as a `Debug` list: in brackets, separated by `", "`.
pub(crate) fn join_list(items: &Vec<String>) -> (r: String)
    ensures
        r@ == list_debug(items@.map_values(|s: String| s@)),
{
    let ghost all = items@.map_values(|s: String| s@);
    let mut body = String::new();
    let mut i: usize = 0;
    while i < items.len()
        invariant
            i <= items@.len(),
            all == items@.map_values(|s: String| s@),
            body@ == separated(all.take(i as int)),
        decreases items@.len() - i,
    {
        proof {
            assert(all.take(i + 1).drop_last() =~= all.take(i as int));
            assert(all.take(i + 1).last() == items@[i as int]@);
        }
        if i > 0 {
            body.append(", ");
        } else {
            assert(body@ =~= Seq::<char>::empty());
            assert(all.take(1) =~= seq![items@[0]@]);
        }
        body.append(items[i].as_str());
        i = i + 1;
    }
    assert(all.take(items@.len() as int) =~= all);
    let mut r = "[".to_owned();
    r.append(body.as_str());
    r.append("]");
    r
}

} // verus!
