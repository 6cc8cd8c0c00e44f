//! Decimal rendering of integers and small helpers for building text.

use vstd::prelude::*;
use vstd::string::{StrSliceExecFns, StringExecFns};

verus! {

/// The character that stands for the decimal digit `d`.
pub open spec fn digit_char(d: int) -> char {
    if d == 0 {
        '0'
    } else if d == 1 {
        '1'
    } else if d == 2 {
        '2'
    } else if d == 3 {
        '3'
    } else if d == 4 {
        '4'
    } else if d == 5 {
        '5'
    } else if d == 6 {
        '6'
    } else if d == 7 {
        '7'
    } else if d == 8 {
        '8'
    } else {
        '9'
    }
}

/// The decimal digits of a natural number, most significant first, without
/// leading zeros; zero is the single digit `0`.
pub open spec fn decimal_nat(n: nat) -> Seq<char>
    decreases n,
{
    if n < 10 {
        seq![digit_char(n as int)]
    } else {
        decimal_nat(n / 10).push(digit_char((n % 10) as int))
    }
}

/// The decimal text of an integer: a minus sign for negative numbers, then the
/// digits of its magnitude.
pub open spec fn decimal(n: int) -> Seq<char> {
    if n < 0 {
        seq!['-'] + decimal_nat((-n) as nat)
    } else {
        decimal_nat(n as nat)
    }
}

fn digit_str(d: u8) -> (s: &'static str)
    requires
        d < 10,
    ensures
        s@ == seq![digit_char(d as int)],
{
    proof {
        reveal_strlit("0");
        reveal_strlit("1");
        reveal_strlit("2");
        reveal_strlit("3");
        reveal_strlit("4");
        reveal_strlit("5");
        reveal_strlit("6");
        reveal_strlit("7");
        reveal_strlit("8");
        reveal_strlit("9");
    }
    let s = if d == 0 {
        "0"
    } else if d == 1 {
        "1"
    } else if d == 2 {
        "2"
    } else if d == 3 {
        "3"
    } else if d == 4 {
        "4"
    } else if d == 5 {
        "5"
    } else if d == 6 {
        "6"
    } else if d == 7 {
        "7"
    } else if d == 8 {
        "8"
    } else {
        "9"
    };
    s
}

/// Appends the decimal digits of `n` to `out`.
pub fn push_decimal_nat(out: &mut String, n: u128)
    ensures
        final(out)@ == old(out)@ + decimal_nat(n as nat),
    decreases n,
{
    if n >= 10 {
        push_decimal_nat(out, n / 10);
    }
    let d: u8 = (n % 10) as u8;
    out.append(digit_str(d));
}

/// Appends the decimal text of `n` to `out`.
pub fn push_decimal(out: &mut String, n: i128)
    ensures
        final(out)@ == old(out)@ + decimal(n as int),
{
    if n < 0 {
        proof {
            reveal_strlit("-");
        }
        out.append("-");
        let magnitude: u128 = (-(n + 1)) as u128 + 1;
        push_decimal_nat(out, magnitude);
    } else {
        push_decimal_nat(out, n as u128);
    }
}

/// The decimal text of `n` as a new string.
pub fn decimal_string(n: i128) -> (s: String)
    ensures
        s@ == decimal(n as int),
{
    let mut s = String::new();
    push_decimal(&mut s, n);
    s
}

/// The texts that a list of strings holds, in order.
pub open spec fn lines(items: Seq<String>) -> Seq<Seq<char>> {
    Seq::new(items.len(), |i: int| items[i]@)
}

/// Every item preceded by `lead` and followed by `trail`, one after another.
pub open spec fn framed(items: Seq<Seq<char>>, lead: Seq<char>, trail: Seq<char>) -> Seq<char>
    decreases items.len(),
{
    if items.len() == 0 {
        Seq::empty()
    } else {
        framed(items.drop_last(), lead, trail) + lead + items.last() + trail
    }
}

/// Appends every item of `items`, each preceded by `lead` and followed by
/// `trail`.
pub fn push_framed(out: &mut String, items: &Vec<String>, lead: &str, trail: &str)
    ensures
        final(out)@ == old(out)@ + framed(lines(items@), lead@, trail@),
{
    let n = items.len();
    let mut i: usize = 0;
    while i < n
        invariant
            n == items@.len(),
            0 <= i <= n,
            out@ == old(out)@ + framed(lines(items@).take(i as int), lead@, trail@),
        decreases n - i,
    {
        out.append(lead);
        out.append(items[i].as_str());
        out.append(trail);
        assert(lines(items@).take(i as int + 1).drop_last() =~= lines(items@).take(i as int));
        i += 1;
    }
    assert(lines(items@).take(n as int) =~= lines(items@));
}

/// Whether a character is white space: one of the characters that Unicode
/// gives the property `White_Space`.
pub open spec fn is_space(c: char) -> bool {
    let code = c as u32;
    ||| 0x09 <= code <= 0x0d
    ||| code == 0x20
    ||| code == 0x85
    ||| code == 0xa0
    ||| code == 0x1680
    ||| 0x2000 <= code <= 0x200a
    ||| code == 0x2028
    ||| code == 0x2029
    ||| code == 0x202f
    ||| code == 0x205f
    ||| code == 0x3000
}

/// The pieces that a text falls into when it is cut at every white-space
/// character. There is one piece more than there are such characters, and a
/// piece is empty where two of them meet or one stands at an end.
pub open spec fn words(text: Seq<char>) -> Seq<Seq<char>>
    decreases text.len(),
{
    if text.len() == 0 {
        seq![Seq::empty()]
    } else if is_space(text.last()) {
        words(text.drop_last()).push(Seq::empty())
    } else {
        let before = words(text.drop_last());
        before.drop_last().push(before.last().push(text.last()))
    }
}

/// Whether `c` is white space.
pub fn space(c: char) -> (yes: bool)
    ensures
        yes == is_space(c),
{
    let code = c as u32;
    (0x09 <= code && code <= 0x0d) || code == 0x20 || code == 0x85 || code == 0xa0 || code
        == 0x1680 || (0x2000 <= code && code <= 0x200a) || code == 0x2028 || code == 0x2029
        || code == 0x202f || code == 0x205f || code == 0x3000
}

/// Cuts a command line into the program and its arguments: the pieces between
/// its white-space characters, empty ones included.
pub fn split_words(line: &str) -> (pieces: Vec<String>)
    ensures
        lines(pieces@) == words(line@),
        pieces@.len() >= 1,
{
    let n = line.unicode_len();
    let mut pieces: Vec<String> = Vec::new();
    let mut start: usize = 0;
    let mut i: usize = 0;
    assert(line@.subrange(0, 0) =~= Seq::<char>::empty());
    while i < n
        invariant
            n == line@.len(),
            0 <= start <= i <= n,
            words(line@.take(i as int)) == lines(pieces@).push(
                line@.subrange(start as int, i as int),
            ),
        decreases n - i,
    {
        let c = line.get_char(i);
        assert(line@.take(i as int + 1).drop_last() =~= line@.take(i as int));
        let ghost word = line@.subrange(start as int, i as int);
        if space(c) {
            let piece = line.substring_char(start, i).to_owned();
            pieces.push(piece);
            start = i + 1;
        }
        i += 1;
        proof {
            if is_space(c) {
                assert(line@.subrange(start as int, i as int) =~= Seq::<char>::empty());
            } else {
                assert(word.push(c) =~= line@.subrange(start as int, i as int));
            }
        }
    }
    assert(line@.take(n as int) =~= line@);
    let piece = line.substring_char(start, n).to_owned();
    pieces.push(piece);
    pieces
}

} // verus!
