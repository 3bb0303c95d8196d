//! Text helpers shared by the option renderers.
use vstd::prelude::*;

verus! {

/// The ASCII digit for `d`, which is below ten.
pub open spec fn digit_char(d: nat) -> char {
    if d == 0 {
        '0'
    } else if d == 1 {
        '1'
    } else if d == 2 {
        '2'
    } else if d == 3 {
        '3'
    } else if d == 4 {
        '4'
    } else if d == 5 {
        '5'
    } else if d == 6 {
        '6'
    } else if d == 7 {
        '7'
    } else if d == 8 {
        '8'
    } else {
        '9'
    }
}

/// The decimal notation of `n`: no sign, no leading zeros, `"0"` for zero.
pub open spec fn decimal(n: nat) -> Seq<char>
    decreases n,
{
    if n < 10 {
        seq![digit_char(n)]
    } else {
        decimal(n / 10) + seq![digit_char(n % 10)]
    }
}

fn digit_str(d: usize) -> (r: &'static str)
    requires
        d < 10,
    ensures
        r@ == seq![digit_char(d as nat)],
{
    proof {
        reveal_strlit("0");
        reveal_strlit("1");
        reveal_strlit("2");
        reveal_strlit("3");
        reveal_strlit("4");
        reveal_strlit("5");
        reveal_strlit("6");
        reveal_strlit("7");
        reveal_strlit("8");
        reveal_strlit("9");
    }
    let r = match d {
        0 => "0",
        1 => "1",
        2 => "2",
        3 => "3",
        4 => "4",
        5 => "5",
        6 => "6",
        7 => "7",
        8 => "8",
        _ => "9",
    };
    assert(r@ =~= seq![digit_char(d as nat)]);
    r
}

/// Appends the decimal notation of `n` to `s`.
pub(crate) fn push_decimal(s: &mut String, n: usize)
    ensures
        final(s)@ == old(s)@ + decimal(n as nat),
    decreases n,
{
    if n < 10 {
        s.append(digit_str(n));
    } else {
        push_decimal(s, n / 10);
        s.append(digit_str(n % 10));
        assert(final(s)@ =~= old(s)@ + decimal(n as nat));
    }
}

/// The text of each string of `v`, in order.
pub open spec fn strings_view(v: Seq<String>) -> Seq<Seq<char>> {
    v.map_values(|s: String| s@)
}

/// One `,key=value` setting of a comma-separated option value.
pub open spec fn setting(key: Seq<char>, value: Seq<char>) -> Seq<char> {
    seq![','] + key + seq!['='] + value
}

/// Appends the setting `,key=value` to `s`.
pub(crate) fn push_setting(s: &mut String, key: &str, value: &str)
    ensures
        final(s)@ == old(s)@ + setting(key@, value@),
{
    proof {
        reveal_strlit(",");
        reveal_strlit("=");
    }
    s.append(",");
    s.append(key);
    s.append("=");
    s.append(value);
    assert(final(s)@ =~= old(s)@ + setting(key@, value@));
}

/// Appends the setting `,key=<n in decimal>` to `s`.
pub(crate) fn push_number_setting(s: &mut String, key: &str, n: usize)
    ensures
        final(s)@ == old(s)@ + setting(key@, decimal(n as nat)),
{
    proof {
        reveal_strlit(",");
        reveal_strlit("=");
    }
    s.append(",");
    s.append(key);
    s.append("=");
    push_decimal(s, n);
    assert(final(s)@ =~= old(s)@ + setting(key@, decimal(n as nat)));
}

/// A vector that holds the two strings `a` and `b`, in that order.
pub(crate) fn pair(a: String, b: String) -> (r: Vec<String>)
    ensures
        strings_view(r@) == seq![a@, b@],
{
    let mut r: Vec<String> = Vec::new();
    r.push(a);
    r.push(b);
    assert(strings_view(r@) =~= seq![a@, b@]);
    r
}

/// A vector that holds the one string `a`.
pub(crate) fn single(a: String) -> (r: Vec<String>)
    ensures
        strings_view(r@) == seq![a@],
{
    let mut r: Vec<String> = Vec::new();
    r.push(a);
    assert(strings_view(r@) =~= seq![a@]);
    r
}

} // verus!
