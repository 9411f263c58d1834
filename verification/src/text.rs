//! Small verified text helpers: decimal rendering and copies of string lists.

use vstd::prelude::*;
use vstd::string::*;

verus! {

/// The character of a decimal digit.
pub open spec fn digit_char(d: nat) -> char {
    if d == 0 {
        '0'
    } else if d == 1 {
        '1'
    } else if d == 2 {
        '2'
    } else if d == 3 {
        '3'
    } else if d == 4 {
        '4'
    } else if d == 5 {
        '5'
    } else if d == 6 {
        '6'
    } else if d == 7 {
        '7'
    } else if d == 8 {
        '8'
    } else {
        '9'
    }
}

/// Decimal notation of `n`, most significant digit first, without padding.
pub open spec fn decimal(n: nat) -> Seq<char>
    decreases n,
{
    if n < 10 {
        seq![digit_char(n)]
    } else {
        decimal(n / 10) + seq![digit_char(n % 10)]
    }
}

/// Views of the strings of a list, in order.
pub open spec fn texts(list: Seq<String>) -> Seq<Seq<char>> {
    list.map_values(|s: String| s@)
}

/// Two words separated by one space.
pub open spec fn spaced(first: Seq<char>, second: Seq<char>) -> Seq<char> {
    first + seq![' '] + second
}

fn digit_str(d: u8) -> (s: &'static str)
    requires
        d < 10,
    ensures
        s@ == seq![digit_char(d as nat)],
{
    proof {
        reveal_strlit("0");
        reveal_strlit("1");
        reveal_strlit("2");
        reveal_strlit("3");
        reveal_strlit("4");
        reveal_strlit("5");
        reveal_strlit("6");
        reveal_strlit("7");
        reveal_strlit("8");
        reveal_strlit("9");
    }
    let s = match d {
        0 => "0",
        1 => "1",
        2 => "2",
        3 => "3",
        4 => "4",
        5 => "5",
        6 => "6",
        7 => "7",
        8 => "8",
        _ => "9",
    };
    assert(s@ =~= seq![digit_char(d as nat)]);
    s
}

/// Appends the decimal notation of `n` to `out`.
pub fn push_decimal(out: &mut String, n: u128)
    ensures
        final(out)@ == old(out)@ + decimal(n as nat),
    decreases n,
{
    if n >= 10 {
        push_decimal(out, n / 10);
    }
    let d: u8 = (n % 10) as u8;
    out.append(digit_str(d));
    proof {
        if n >= 10 {
            let high = decimal((n / 10) as nat);
            assert(out@ =~= old(out)@ + (high + seq![digit_char((n % 10) as nat)]));
        }
    }
}

/// The decimal notation of `n` as a string.
pub fn decimal_string(n: u128) -> (s: String)
    ensures
        s@ == decimal(n as nat),
{
    let mut s = String::new();
    push_decimal(&mut s, n);
    assert(s@ =~= decimal(n as nat));
    s
}

/// `first`, a space, then `second`.
pub fn join_spaced(first: &str, second: &str) -> (s: String)
    ensures
        s@ == spaced(first@, second@),
{
    proof {
        reveal_strlit(" ");
    }
    let mut s = String::from_str(first);
    s.append(" ");
    s.append(second);
    assert(s@ =~= spaced(first@, second@));
    s
}

/// An independent copy of a list of strings.
pub fn copy_texts(list: &Vec<String>) -> (copy: Vec<String>)
    ensures
        texts(copy@) == texts(list@),
{
    let mut copy: Vec<String> = Vec::new();
    let mut i: usize = 0;
    while i < list.len()
        invariant
            i <= list.len(),
            copy.len() == i,
            forall|j: int| 0 <= j < i ==> copy@[j]@ == list@[j]@,
        decreases list.len() - i,
    {
        copy.push(list[i].clone());
        i = i + 1;
    }
    assert(texts(copy@) =~= texts(list@));
    copy
}

/// The lower-case form of an ASCII capital; any other character itself.
pub open spec fn lower(c: char) -> char {
    if 'A' <= c <= 'Z' {
        ((c as u8) + 32) as char
    } else {
        c
    }
}

/// `s` with every ASCII capital in lower case.
pub open spec fn folded(s: Seq<char>) -> Seq<char> {
    s.map_values(|c: char| lower(c))
}

/// Whether two texts are equal up to the case of ASCII letters.
pub open spec fn same_ignoring_case(a: Seq<char>, b: Seq<char>) -> bool {
    folded(a) == folded(b)
}

/// Decides [`lower`].
pub fn to_lower(c: char) -> (l: char)
    ensures
        l == lower(c),
{
    if 'A' <= c && c <= 'Z' {
        ((c as u8) + 32) as char
    } else {
        c
    }
}

/// Decides [`same_ignoring_case`].
pub fn eq_ignoring_case(a: &str, b: &str) -> (same: bool)
    ensures
        same == same_ignoring_case(a@, b@),
{
    let n = a.unicode_len();
    if n != b.unicode_len() {
        assert(folded(a@).len() != folded(b@).len());
        return false;
    }
    let mut i: usize = 0;
    while i < n
        invariant
            i <= n,
            n == a@.len(),
            n == b@.len(),
            forall|j: int| 0 <= j < i ==> lower(a@[j]) == lower(b@[j]),
        decreases n - i,
    {
        if to_lower(a.get_char(i)) != to_lower(b.get_char(i)) {
            assert(folded(a@)[i as int] != folded(b@)[i as int]);
            return false;
        }
        i = i + 1;
    }
    assert(folded(a@) =~= folded(b@));
    true
}

} // verus!
