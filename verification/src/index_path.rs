//! Where a dated file is linked: `<root>/<year>/<month>/<day>/<name>`.

use crate::calendar::ParsedDate;
use vstd::prelude::*;
use vstd::string::*;

verus! {

/// The character of a digit `d < 10`.
pub open spec fn digit_char(d: nat) -> char {
    if d == 0 {
        '0'
    } else if d == 1 {
        '1'
    } else if d == 2 {
        '2'
    } else if d == 3 {
        '3'
    } else if d == 4 {
        '4'
    } else if d == 5 {
        '5'
    } else if d == 6 {
        '6'
    } else if d == 7 {
        '7'
    } else if d == 8 {
        '8'
    } else {
        '9'
    }
}

/// A number in decimal, without sign or leading zeros.
pub open spec fn decimal(n: nat) -> Seq<char>
    decreases n,
{
    if n < 10 {
        seq![digit_char(n)]
    } else {
        decimal(n / 10).push(digit_char(n % 10))
    }
}

/// `base` extended by one segment: a `/` is put between the two unless
/// `base` is empty or already ends in one.
pub open spec fn joined(base: Seq<char>, segment: Seq<char>) -> Seq<char> {
    if base.len() == 0 || base.last() == '/' {
        base + segment
    } else {
        base + seq!['/'] + segment
    }
}

/// The directory of a date under `root`: year, month and day as nested
/// segments, each in decimal without padding.
pub open spec fn date_directory(root: Seq<char>, date: (int, int, int)) -> Seq<char> {
    joined(
        joined(joined(root, decimal(date.0 as nat)), decimal(date.1 as nat)),
        decimal(date.2 as nat),
    )
}

/// The path of the entry called `name` for a date under `root`.
pub open spec fn entry_path(root: Seq<char>, date: (int, int, int), name: Seq<char>) -> Seq<char> {
    joined(date_directory(root, date), name)
}

/// The final component of a path as `std::path::Path::file_name` gives it,
/// in the path syntax of the platform the crate is built for; `None` where
/// the path has none or it is no text.
pub uninterp spec fn file_name_text(path: Seq<char>) -> Option<Seq<char>>;

/// `std::path::Path::file_name` on the path written in `path`, the name
/// handed back as text. Trusted: the result is the one that
/// `file_name_text` names.
#[verifier::external_body]
fn file_name_of(path: &str) -> (r: Option<String>)
    ensures
        r is Some <==> file_name_text(path@) is Some,
        r is Some ==> r->Some_0@ == file_name_text(path@)->Some_0,
{
    std::path::Path::new(path).file_name().and_then(|name| name.to_str()).map(
        |name| String::from(name),
    )
}

fn digit_text(d: u32) -> (r: &'static str)
    requires
        d < 10,
    ensures
        r@ == seq![digit_char(d as nat)],
{
    proof {
        reveal_strlit("0");
        reveal_strlit("1");
        reveal_strlit("2");
        reveal_strlit("3");
        reveal_strlit("4");
        reveal_strlit("5");
        reveal_strlit("6");
        reveal_strlit("7");
        reveal_strlit("8");
        reveal_strlit("9");
    }
    let r: &'static str = if d == 0 {
        "0"
    } else if d == 1 {
        "1"
    } else if d == 2 {
        "2"
    } else if d == 3 {
        "3"
    } else if d == 4 {
        "4"
    } else if d == 5 {
        "5"
    } else if d == 6 {
        "6"
    } else if d == 7 {
        "7"
    } else if d == 8 {
        "8"
    } else {
        "9"
    };
    assert(r@ =~= seq![digit_char(d as nat)]);
    r
}

/// Writes a number in decimal.
pub fn decimal_text(n: u32) -> (r: String)
    ensures
        r@ == decimal(n as nat),
    decreases n,
{
    if n < 10 {
        String::from_str(digit_text(n))
    } else {
        let mut text: String = decimal_text(n / 10);
        text.append(digit_text(n % 10));
        assert(text@ =~= decimal(n as nat));
        text
    }
}

/// Extends `base` by one segment.
pub fn push_segment(base: &mut String, segment: &str)
    ensures
        final(base)@ == joined(old(base)@, segment@),
{
    let n: usize = base.as_str().unicode_len();
    if n > 0 && base.as_str().get_char(n - 1) != '/' {
        proof {
            reveal_strlit("/");
        }
        base.append("/");
        assert(base@ =~= old(base)@ + seq!['/']);
    }
    base.append(segment);
}

/// The directory of `date` under `root`.
pub fn directory_for(root: &str, date: ParsedDate) -> (r: String)
    ensures
        r@ == date_directory(root@, date.ymd()),
{
    let mut dir: String = String::from_str(root);
    let year: String = decimal_text(date.year);
    push_segment(&mut dir, year.as_str());
    let month: String = decimal_text(date.month);
    push_segment(&mut dir, month.as_str());
    let day: String = decimal_text(date.day);
    push_segment(&mut dir, day.as_str());
    dir
}

/// The entry path for a file whose name is already known.
pub fn index_entry(root: &str, date: ParsedDate, name: &str) -> (r: String)
    ensures
        r@ == entry_path(root@, date.ymd(), name@),
{
    let mut entry: String = directory_for(root, date);
    push_segment(&mut entry, name);
    entry
}

/// The entry path for the file at `path`: its final component under the
/// date's directory, or nothing where the path has no final component.
pub fn target_path(target: &str, date: ParsedDate, path: &str) -> (r: Option<String>)
    ensures
        r is Some <==> file_name_text(path@) is Some,
        r is Some ==> r->Some_0@ == entry_path(
            target@,
            date.ymd(),
            file_name_text(path@)->Some_0,
        ),
{
    match file_name_of(path) {
        Some(name) => Some(index_entry(target, date, name.as_str())),
        None => None,
    }
}

/// The date's directory never ends in a separator, so an entry is always
/// the directory, one `/`, and the name.
pub proof fn lemma_entry_is_directory_slash_name(
    root: Seq<char>,
    date: (int, int, int),
    name: Seq<char>,
)
    requires
        date.2 >= 0,
    ensures
        entry_path(root, date, name) == date_directory(root, date) + seq!['/'] + name,
{
    let day = decimal(date.2 as nat);
    lemma_decimal_is_digits(date.2 as nat);
    let above = joined(joined(root, decimal(date.0 as nat)), decimal(date.1 as nat));
    let dir = joined(above, day);
    assert(dir.last() == day.last());
}

/// A decimal numeral is not empty and holds digits only.
pub proof fn lemma_decimal_is_digits(n: nat)
    ensures
        decimal(n).len() >= 1,
        forall|i: int| 0 <= i < decimal(n).len() ==> crate::calendar::is_digit(#[trigger] decimal(n)[i]),
    decreases n,
{
    if n >= 10 {
        lemma_decimal_is_digits(n / 10);
    }
}

} // verus!
