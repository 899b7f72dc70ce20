//! Text helpers: decimal and hexadecimal numerals, separated lists, and the
//! few string operations the rest of the crate builds messages with.

use vstd::prelude::*;

verus! {

/// The character that stands for a digit below sixteen.
pub open spec fn digit_char(d: nat) -> char {
    if d == 0 {
        '0'
    } else if d == 1 {
        '1'
    } else if d == 2 {
        '2'
    } else if d == 3 {
        '3'
    } else if d == 4 {
        '4'
    } else if d == 5 {
        '5'
    } else if d == 6 {
        '6'
    } else if d == 7 {
        '7'
    } else if d == 8 {
        '8'
    } else if d == 9 {
        '9'
    } else if d == 10 {
        'a'
    } else if d == 11 {
        'b'
    } else if d == 12 {
        'c'
    } else if d == 13 {
        'd'
    } else if d == 14 {
        'e'
    } else {
        'f'
    }
}

/// The decimal numeral of `n`, most significant digit first, without
/// leading zeros; zero is written `0`.
pub open spec fn dec_string(n: nat) -> Seq<char>
    decreases n,
{
    if n < 10 {
        seq![digit_char(n)]
    } else {
        dec_string(n / 10).push(digit_char(n % 10))
    }
}

/// The lower-case hexadecimal numeral of `n`, without leading zeros.
pub open spec fn hex_string(n: nat) -> Seq<char>
    decreases n,
{
    if n < 16 {
        seq![digit_char(n)]
    } else {
        hex_string(n / 16).push(digit_char(n % 16))
    }
}

/// The items of a list written one after the other with `sep` between
/// neighbours.
pub open spec fn join(items: Seq<Seq<char>>, sep: Seq<char>) -> Seq<char>
    decreases items.len(),
{
    if items.len() == 0 {
        Seq::empty()
    } else if items.len() == 1 {
        items[0]
    } else {
        join(items.drop_last(), sep) + sep + items.last()
    }
}

/// Whether two texts hold the same characters.
pub(crate) fn str_eq(a: &str, b: &str) -> (r: bool)
    ensures
        r == (a@ == b@),
{
    a.to_owned() == b.to_owned()
}

/// One digit as text.
pub fn digit_str(d: u8) -> (r: &'static str)
    requires
        d < 16,
    ensures
        r@ == seq![digit_char(d as nat)],
{
    proof {
        reveal_strlit("0");
        reveal_strlit("1");
        reveal_strlit("2");
        reveal_strlit("3");
        reveal_strlit("4");
        reveal_strlit("5");
        reveal_strlit("6");
        reveal_strlit("7");
        reveal_strlit("8");
        reveal_strlit("9");
        reveal_strlit("a");
        reveal_strlit("b");
        reveal_strlit("c");
        reveal_strlit("d");
        reveal_strlit("e");
        reveal_strlit("f");
    }
    let r = match d {
        0 => "0",
        1 => "1",
        2 => "2",
        3 => "3",
        4 => "4",
        5 => "5",
        6 => "6",
        7 => "7",
        8 => "8",
        9 => "9",
        10 => "a",
        11 => "b",
        12 => "c",
        13 => "d",
        14 => "e",
        _ => "f",
    };
    assert(r@ =~= seq![digit_char(d as nat)]);
    r
}

/// The decimal numeral of a `u128`.
pub fn u128_to_dec(n: u128) -> (r: String)
    ensures
        r@ == dec_string(n as nat),
    decreases n,
{
    if n < 10 {
        String::from_str(digit_str(n as u8))
    } else {
        let mut s = u128_to_dec(n / 10);
        let d = digit_str((n % 10) as u8);
        s.append(d);
        assert(s@ =~= dec_string(n as nat / 10).push(digit_char(n as nat % 10)));
        s
    }
}

/// The decimal numeral of a `usize`.
pub fn usize_to_dec(n: usize) -> (r: String)
    ensures
        r@ == dec_string(n as nat),
{
    u128_to_dec(n as u128)
}

/// The decimal numeral of a `u64`.
pub fn u64_to_dec(n: u64) -> (r: String)
    ensures
        r@ == dec_string(n as nat),
{
    u128_to_dec(n as u128)
}

/// The hexadecimal numeral of a `u128`.
pub fn u128_to_hex(n: u128) -> (r: String)
    ensures
        r@ == hex_string(n as nat),
    decreases n,
{
    if n < 16 {
        String::from_str(digit_str(n as u8))
    } else {
        let mut s = u128_to_hex(n / 16);
        let d = digit_str((n % 16) as u8);
        s.append(d);
        assert(s@ =~= hex_string(n as nat / 16).push(digit_char(n as nat % 16)));
        s
    }
}

/// `true` or `false`.
pub open spec fn bool_string(b: bool) -> Seq<char> {
    if b {
        "true"@
    } else {
        "false"@
    }
}

/// `true` or `false` as text.
pub fn bool_to_string(b: bool) -> (r: String)
    ensures
        r@ == bool_string(b),
{
    if b {
        String::from_str("true")
    } else {
        String::from_str("false")
    }
}

/// Appends one more item to a separated list that already holds `count`
/// items.
pub(crate) fn push_joined(
    out: &mut String,
    count: usize,
    sep: &str,
    item: &str,
    Ghost(items): Ghost<Seq<Seq<char>>>,
)
    requires
        items.len() == count + 1,
        item@ == items.last(),
        old(out)@ == join(items.drop_last(), sep@),
    ensures
        final(out)@ == join(items, sep@),
{
    if count > 0 {
        out.append(sep);
    }
    out.append(item);
    proof {
        if count == 0 {
            assert(join(items.drop_last(), sep@) =~= Seq::<char>::empty());
            assert(final(out)@ =~= items[0]);
        }
    }
}

/// The text `s` written `n` times.
pub open spec fn repeated(s: Seq<char>, n: nat) -> Seq<char>
    decreases n,
{
    if n == 0 {
        Seq::empty()
    } else {
        repeated(s, (n - 1) as nat) + s
    }
}

/// The text `s` written `n` times.
pub fn repeat(s: &str, n: usize) -> (r: String)
    ensures
        r@ == repeated(s@, n as nat),
{
    let mut out = String::new();
    let mut i: usize = 0;
    assert(out@ =~= repeated(s@, 0));
    while i < n
        invariant
            i <= n,
            out@ == repeated(s@, i as nat),
        decreases n - i,
    {
        out.append(s);
        i += 1;
    }
    out
}

} // verus!
