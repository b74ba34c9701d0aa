//! Text building blocks: decimal numerals, joined lists, appended pieces.

use vstd::prelude::*;
use vstd::string::StringExecFns;

verus! {

/// The character that writes the digit `d`.
pub open spec fn digit_char(d: nat) -> char {
    if d == 0 {
        '0'
    } else if d == 1 {
        '1'
    } else if d == 2 {
        '2'
    } else if d == 3 {
        '3'
    } else if d == 4 {
        '4'
    } else if d == 5 {
        '5'
    } else if d == 6 {
        '6'
    } else if d == 7 {
        '7'
    } else if d == 8 {
        '8'
    } else {
        '9'
    }
}

/// The decimal numeral of `n`: most significant digit first, no sign, no
/// leading zero except for zero itself.
pub open spec fn decimal(n: nat) -> Seq<char>
    decreases n,
{
    if n < 10 {
        seq![digit_char(n)]
    } else {
        decimal(n / 10).push(digit_char(n % 10))
    }
}

/// The items of `items` in order, with `sep` between neighbours.
pub open spec fn joined(items: Seq<Seq<char>>, sep: Seq<char>) -> Seq<char>
    decreases items.len(),
{
    if items.len() == 0 {
        Seq::empty()
    } else if items.len() == 1 {
        items[0]
    } else {
        joined(items.drop_last(), sep) + sep + items.last()
    }
}

/// The views of the strings of a vector, in order.
pub open spec fn views(items: Seq<String>) -> Seq<Seq<char>> {
    Seq::new(items.len(), |i: int| items[i]@)
}

/// The view of an optional string.
pub open spec fn opt_view(s: Option<String>) -> Option<Seq<char>> {
    match s {
        Some(t) => Some(t@),
        None => None,
    }
}

/// The view of an optional borrowed text.
pub open spec fn opt_str_view(s: Option<&str>) -> Option<Seq<char>> {
    match s {
        Some(t) => Some(t@),
        None => None,
    }
}

/// The view of an optional list of strings.
pub open spec fn opt_views(s: Option<Vec<String>>) -> Option<Seq<Seq<char>>> {
    match s {
        Some(v) => Some(views(v@)),
        None => None,
    }
}

fn digit_text(d: usize) -> (s: &'static str)
    requires
        d < 10,
    ensures
        s@ == seq![digit_char(d as nat)],
{
    proof {
        reveal_strlit("0");
        reveal_strlit("1");
        reveal_strlit("2");
        reveal_strlit("3");
        reveal_strlit("4");
        reveal_strlit("5");
        reveal_strlit("6");
        reveal_strlit("7");
        reveal_strlit("8");
        reveal_strlit("9");
    }
    let s = if d == 0 {
        "0"
    } else if d == 1 {
        "1"
    } else if d == 2 {
        "2"
    } else if d == 3 {
        "3"
    } else if d == 4 {
        "4"
    } else if d == 5 {
        "5"
    } else if d == 6 {
        "6"
    } else if d == 7 {
        "7"
    } else if d == 8 {
        "8"
    } else {
        "9"
    };
    assert(s@ =~= seq![digit_char(d as nat)]);
    s
}

/// Writes `n` as a decimal numeral.
pub fn decimal_text_u64(n: u64) -> (s: String)
    ensures
        s@ == decimal(n as nat),
    decreases n,
{
    let unit = digit_text((n % 10) as usize);
    if n < 10 {
        unit.to_owned()
    } else {
        let mut s = decimal_text_u64(n / 10);
        s.append(unit);
        assert(s@ =~= decimal((n / 10) as nat).push(digit_char((n % 10) as nat)));
        s
    }
}

/// Writes `n` as a decimal numeral.
pub fn decimal_text(n: usize) -> (s: String)
    ensures
        s@ == decimal(n as nat),
{
    decimal_text_u64(n as u64)
}

/// `count` zeros.
pub open spec fn zeros(count: nat) -> Seq<char> {
    Seq::new(count, |i: int| '0')
}

/// The decimal numeral of `n`, filled with zeros from the left to
/// `width` characters where it is shorter. A negative number begins
/// with its sign, which counts towards the width.
pub open spec fn zero_padded(n: int, width: nat) -> Seq<char> {
    if n >= 0 {
        let digits = decimal(n as nat);
        zeros(missing(width, digits.len())) + digits
    } else {
        let digits = decimal((-n) as nat);
        seq!['-'] + zeros(missing(missing(width, 1), digits.len())) + digits
    }
}

/// By how much `have` falls short of `want`.
pub open spec fn missing(want: nat, have: nat) -> nat {
    if want > have {
        (want - have) as nat
    } else {
        0
    }
}

/// Writes `count` zeros.
pub fn zeros_text(count: usize) -> (s: String)
    ensures
        s@ == zeros(count as nat),
{
    let mut s = String::new();
    let mut i: usize = 0;
    proof {
        reveal_strlit("0");
    }
    while i < count
        invariant
            i <= count,
            s@ == zeros(i as nat),
            "0"@ == seq!['0'],
        decreases count - i,
    {
        s.append("0");
        assert(s@ =~= zeros((i + 1) as nat));
        i = i + 1;
    }
    s
}

/// Writes the number of magnitude `magnitude`, negative if `negative`
/// says so and the magnitude is not zero, filled with zeros to `width`.
pub fn zero_padded_text(negative: bool, magnitude: u64, width: usize) -> (s: String)
    ensures
        s@ == zero_padded(
            if negative {
                -(magnitude as int)
            } else {
                magnitude as int
            },
            width as nat,
        ),
{
    let digits = decimal_text_u64(magnitude);
    let len = digits.as_str().unicode_len();
    if negative && magnitude > 0 {
        proof {
            reveal_strlit("-");
        }
        let room: usize = if width >= 1 {
            width - 1
        } else {
            0
        };
        let fill: usize = if room > len {
            room - len
        } else {
            0
        };
        let mut s = "-".to_owned();
        s.append(zeros_text(fill).as_str());
        s.append(digits.as_str());
        assert(s@ =~= seq!['-'] + zeros(fill as nat) + digits@);
        s
    } else {
        let fill: usize = if width > len {
            width - len
        } else {
            0
        };
        let mut s = zeros_text(fill);
        s.append(digits.as_str());
        s
    }
}

/// `first` followed by `second`.
pub fn concat2(first: &str, second: &str) -> (s: String)
    ensures
        s@ == first@ + second@,
{
    let mut s = first.to_owned();
    s.append(second);
    s
}

/// `first`, `second` and `third`, one after the other.
pub fn concat3(first: &str, second: &str, third: &str) -> (s: String)
    ensures
        s@ == first@ + second@ + third@,
{
    let mut s = first.to_owned();
    s.append(second);
    s.append(third);
    s
}

/// Joins the strings of `items` with `sep` between neighbours.
pub fn join_text(items: &Vec<String>, sep: &str) -> (s: String)
    ensures
        s@ == joined(views(items@), sep@),
{
    let mut s = String::new();
    let mut i: usize = 0;
    while i < items.len()
        invariant
            i <= items.len(),
            s@ == joined(views(items@).take(i as int), sep@),
        decreases items.len() - i,
    {
        let ghost before = views(items@).take(i as int);
        let ghost after = views(items@).take(i + 1);
        assert(after.drop_last() =~= before);
        assert(after.last() == items@[i as int]@);
        if i > 0 {
            s.append(sep);
        } else {
            assert(before =~= Seq::<Seq<char>>::empty());
            assert(s@ + items@[i as int]@ =~= items@[i as int]@);
        }
        s.append(items[i].as_str());
        i = i + 1;
    }
    assert(views(items@).take(i as int) =~= views(items@));
    s
}

/// A copy of a vector of strings.
pub fn clone_strings(items: &Vec<String>) -> (copy: Vec<String>)
    ensures
        views(copy@) == views(items@),
{
    let mut copy: Vec<String> = Vec::new();
    let mut i: usize = 0;
    while i < items.len()
        invariant
            i <= items.len(),
            copy@.len() == i,
            forall|k: int| 0 <= k < i ==> copy@[k]@ == items@[k]@,
        decreases items.len() - i,
    {
        copy.push(items[i].clone());
        i = i + 1;
    }
    assert(views(copy@) =~= views(items@));
    copy
}

/// A copy of an optional list of strings.
pub fn clone_opt_strings(s: &Option<Vec<String>>) -> (copy: Option<Vec<String>>)
    ensures
        opt_views(copy) == opt_views(*s),
{
    match s {
        Some(v) => Some(clone_strings(v)),
        None => None,
    }
}

/// A copy of an optional string.
pub fn clone_opt_string(s: &Option<String>) -> (copy: Option<String>)
    ensures
        opt_view(copy) == opt_view(*s),
{
    match s {
        Some(t) => Some(t.clone()),
        None => None,
    }
}

/// `Path::file_name` of `std::path` on the path written in `path`, as text:
/// the last component of the path, if it has one. What counts as a
/// component depends on the platform, so nothing is claimed of the result.
#[verifier::external_body]
pub(crate) fn file_name_of(path: &str) -> (name: Option<String>) {
    std::path::Path::new(path).file_name().and_then(|n| n.to_str()).map(|n| n.to_string())
}

/// Whether two texts hold the same characters.
pub fn same_text(a: &str, b: &str) -> (same: bool)
    ensures
        same == (a@ == b@),
{
    let x = a.to_owned();
    let y = b.to_owned();
    x == y
}

/// Whether `text` begins with `prefix`.
pub fn starts_with(text: &str, prefix: &str) -> (b: bool)
    ensures
        b == prefix@.is_prefix_of(text@),
{
    let n = prefix.unicode_len();
    if text.unicode_len() < n {
        return false;
    }
    let mut i: usize = 0;
    while i < n
        invariant
            i <= n,
            n == prefix@.len(),
            n <= text@.len(),
            forall|k: int| 0 <= k < i ==> text@[k] == prefix@[k],
        decreases n - i,
    {
        if text.get_char(i) != prefix.get_char(i) {
            assert(text@.subrange(0, n as int)[i as int] != prefix@[i as int]);
            return false;
        }
        i = i + 1;
    }
    assert(text@.subrange(0, n as int) =~= prefix@);
    true
}

} // verus!
