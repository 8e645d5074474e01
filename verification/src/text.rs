//! Rendering of numbers and bytes as text.

use vstd::prelude::*;

use vstd::utf8::{encode_utf8, encode_utf8_decode_utf8};

verus! {

/// The character for a decimal digit.
pub open spec fn digit_char(d: nat) -> char {
    if d == 0 {
        '0'
    } else if d == 1 {
        '1'
    } else if d == 2 {
        '2'
    } else if d == 3 {
        '3'
    } else if d == 4 {
        '4'
    } else if d == 5 {
        '5'
    } else if d == 6 {
        '6'
    } else if d == 7 {
        '7'
    } else if d == 8 {
        '8'
    } else {
        '9'
    }
}

/// The decimal numeral of a natural number, without leading zeros.
pub open spec fn decimal(n: nat) -> Seq<char>
    decreases n,
{
    if n < 10 {
        seq![digit_char(n)]
    } else {
        decimal(n / 10).push(digit_char(n % 10))
    }
}

/// The decimal numeral of an integer, with a minus sign when it is negative.
pub open spec fn signed_decimal(n: int) -> Seq<char> {
    if n < 0 {
        seq!['-'] + decimal((-n) as nat)
    } else {
        decimal(n as nat)
    }
}

/// Appends one character to a string, as `String::push` does: the text
/// afterwards is the text before followed by `c`.
#[verifier::external_body]
pub(crate) fn push_char(s: &mut String, c: char)
    ensures
        final(s)@ == old(s)@.push(c),
{
    s.push(c);
}

fn digit_of(d: u8) -> (c: char)
    requires
        d < 10,
    ensures
        c == digit_char(d as nat),
{
    match d {
        0 => '0',
        1 => '1',
        2 => '2',
        3 => '3',
        4 => '4',
        5 => '5',
        6 => '6',
        7 => '7',
        8 => '8',
        _ => '9',
    }
}

/// Appends the decimal numeral of `n` to `out`.
pub fn push_decimal(out: &mut String, n: u128)
    ensures
        final(out)@ == old(out)@ + decimal(n as nat),
    decreases n,
{
    if n < 10 {
        push_char(out, digit_of(n as u8));
        assert(old(out)@.push(digit_char(n as nat)) =~= old(out)@ + decimal(n as nat));
    } else {
        push_decimal(out, n / 10);
        push_char(out, digit_of((n % 10) as u8));
        assert((old(out)@ + decimal((n / 10) as nat)).push(digit_char((n % 10) as nat)) =~= old(out)@
            + decimal(n as nat));
    }
}

/// Appends the decimal numeral of a signed number to `out`.
pub fn push_signed(out: &mut String, n: i32)
    ensures
        final(out)@ == old(out)@ + signed_decimal(n as int),
{
    if n < 0 {
        push_char(out, '-');
        let magnitude: i64 = -(n as i64);
        push_decimal(out, magnitude as u128);
        assert(old(out)@.push('-') + decimal((-n) as nat) =~= old(out)@ + signed_decimal(n as int));
    } else {
        push_decimal(out, n as u128);
    }
}

/// The value of a decimal digit character; zero for any other character.
pub open spec fn digit_value(c: char) -> nat {
    if c == '1' {
        1
    } else if c == '2' {
        2
    } else if c == '3' {
        3
    } else if c == '4' {
        4
    } else if c == '5' {
        5
    } else if c == '6' {
        6
    } else if c == '7' {
        7
    } else if c == '8' {
        8
    } else if c == '9' {
        9
    } else {
        0
    }
}

/// The number that a sequence of decimal digits denotes.
pub open spec fn decimal_value(s: Seq<char>) -> nat
    decreases s.len(),
{
    if s.len() == 0 {
        0
    } else {
        decimal_value(s.drop_last()) * 10 + digit_value(s.last())
    }
}

/// Reading a numeral back gives the number it was written from.
pub proof fn lemma_decimal_value(n: nat)
    ensures
        decimal_value(decimal(n)) == n,
    decreases n,
{
    if n < 10 {
        assert(decimal(n).drop_last() =~= Seq::<char>::empty());
        assert(decimal_value(decimal(n).drop_last()) == 0);
    } else {
        lemma_decimal_value(n / 10);
        assert(decimal(n).drop_last() =~= decimal(n / 10));
    }
}

/// Different numbers have different numerals.
pub proof fn lemma_decimal_injective(a: nat, b: nat)
    ensures
        decimal(a) == decimal(b) <==> a == b,
{
    lemma_decimal_value(a);
    lemma_decimal_value(b);
}

/// The character for a hexadecimal digit, in upper case.
pub open spec fn hex_char(d: nat) -> char {
    if d < 10 {
        digit_char(d)
    } else if d == 10 {
        'A'
    } else if d == 11 {
        'B'
    } else if d == 12 {
        'C'
    } else if d == 13 {
        'D'
    } else if d == 14 {
        'E'
    } else {
        'F'
    }
}

/// Whether a byte is written as itself inside a quoted constant: printable
/// ASCII other than the double quote and the backslash.
pub open spec fn is_plain_byte(b: u8) -> bool {
    32 <= b <= 126 && b != 34 && b != 92
}

/// How one byte is written inside a quoted constant: as itself, or as a
/// backslash followed by two hexadecimal digits.
pub open spec fn escaped_byte(b: u8) -> Seq<char> {
    if is_plain_byte(b) {
        seq![b as char]
    } else {
        seq!['\\', hex_char((b / 16) as nat), hex_char((b % 16) as nat)]
    }
}

/// How a sequence of bytes is written inside a quoted constant.
pub open spec fn escaped(bytes: Seq<u8>) -> Seq<char>
    decreases bytes.len(),
{
    if bytes.len() == 0 {
        Seq::empty()
    } else {
        escaped(bytes.drop_last()) + escaped_byte(bytes.last())
    }
}

fn hex_of(d: u8) -> (c: char)
    requires
        d < 16,
    ensures
        c == hex_char(d as nat),
{
    match d {
        10 => 'A',
        11 => 'B',
        12 => 'C',
        13 => 'D',
        14 => 'E',
        15 => 'F',
        _ => digit_of(d),
    }
}

/// Appends the escaped form of `bytes` to `out`.
pub fn push_escaped(out: &mut String, bytes: &[u8])
    ensures
        final(out)@ == old(out)@ + escaped(bytes@),
{
    let mut i: usize = 0;
    assert(bytes@.take(0) =~= Seq::<u8>::empty());
    assert(old(out)@ + escaped(bytes@.take(0)) =~= old(out)@);
    while i < bytes.len()
        invariant
            i <= bytes.len(),
            out@ == old(out)@ + escaped(bytes@.take(i as int)),
        decreases bytes.len() - i,
    {
        let b = bytes[i];
        let ghost before = out@;
        if b >= 32 && b <= 126 && b != 34 && b != 92 {
            push_char(out, b as char);
        } else {
            push_char(out, '\\');
            push_char(out, hex_of(b / 16));
            push_char(out, hex_of(b % 16));
        }
        proof {
            let next = bytes@.take(i + 1);
            assert(next.drop_last() =~= bytes@.take(i as int));
            assert(next.last() == b);
            assert(out@ =~= before + escaped_byte(b));
            assert(before + escaped_byte(b) =~= old(out)@ + escaped(next));
        }
        i += 1;
    }
    assert(bytes@.take(i as int) =~= bytes@);
}

/// Whether two strings hold the same text.
pub fn same_text(a: &str, b: &str) -> (r: bool)
    ensures
        r == (a@ == b@),
{
    let x = a.as_bytes();
    let y = b.as_bytes();
    proof {
        encode_utf8_decode_utf8(a@);
        encode_utf8_decode_utf8(b@);
    }
    if x.len() != y.len() {
        return false;
    }
    let mut i: usize = 0;
    while i < x.len()
        invariant
            i <= x.len(),
            x.len() == y.len(),
            x@ == encode_utf8(a@),
            y@ == encode_utf8(b@),
            forall|j: int| 0 <= j < i ==> x@[j] == y@[j],
        decreases x.len() - i,
    {
        if x[i] != y[i] {
            return false;
        }
        i += 1;
    }
    assert(x@ =~= y@);
    true
}

/// The views of a sequence of strings.
pub open spec fn texts(items: Seq<String>) -> Seq<Seq<char>> {
    Seq::new(items.len(), |i: int| items[i]@)
}

/// The position of the first item equal to `x`, if there is one.
pub open spec fn position(items: Seq<Seq<char>>, x: Seq<char>) -> Option<int>
    decreases items.len(),
{
    if items.len() == 0 {
        None
    } else {
        match position(items.drop_last(), x) {
            Some(i) => Some(i),
            None => if items.last() == x {
                Some(items.len() - 1)
            } else {
                None
            },
        }
    }
}

/// What `position` returns: the least index that holds `x`, or nothing when
/// no index holds it.
pub proof fn lemma_position(items: Seq<Seq<char>>, x: Seq<char>)
    ensures
        match position(items, x) {
            Some(i) => 0 <= i < items.len() && items[i] == x && forall|j: int|
                0 <= j < i ==> items[j] != x,
            None => forall|j: int| 0 <= j < items.len() ==> items[j] != x,
        },
    decreases items.len(),
{
    if items.len() > 0 {
        lemma_position(items.drop_last(), x);
        match position(items.drop_last(), x) {
            Some(i) => {
                assert(items.drop_last()[i] == items[i]);
                assert forall|j: int| 0 <= j < i implies items[j] != x by {
                    assert(items.drop_last()[j] == items[j]);
                }
            },
            None => {
                assert forall|j: int| 0 <= j < items.len() - 1 implies items[j] != x by {
                    assert(items.drop_last()[j] == items[j]);
                }
            },
        }
    }
}

/// A position that was found stays the same when items are added at the end.
pub proof fn lemma_position_stable(items: Seq<Seq<char>>, more: Seq<Seq<char>>, x: Seq<char>)
    requires
        position(items, x) is Some,
    ensures
        position(items + more, x) == position(items, x),
    decreases more.len(),
{
    if more.len() == 0 {
        assert(items + more =~= items);
    } else {
        lemma_position_stable(items, more.drop_last(), x);
        assert((items + more).drop_last() =~= items + more.drop_last());
    }
}

/// The position of the first string in `items` whose text is that of `x`.
pub fn find_text(items: &Vec<String>, x: &str) -> (r: Option<usize>)
    ensures
        match r {
            Some(i) => position(texts(items@), x@) == Some(i as int),
            None => position(texts(items@), x@) is None,
        },
{
    let mut i: usize = 0;
    assert(texts(items@).take(0) =~= Seq::<Seq<char>>::empty());
    while i < items.len()
        invariant
            i <= items.len(),
            position(texts(items@).take(i as int), x@) is None,
        decreases items.len() - i,
    {
        let ghost next = texts(items@).take(i + 1);
        assert(next.drop_last() =~= texts(items@).take(i as int));
        assert(next.last() == items@[i as int]@);
        if same_text(items[i].as_str(), x) {
            proof {
                lemma_position_stable(next, texts(items@).skip(i + 1), x@);
                assert(next + texts(items@).skip(i + 1) =~= texts(items@));
            }
            return Some(i);
        }
        i += 1;
    }
    assert(texts(items@).take(i as int) =~= texts(items@));
    None
}

/// The items written one after another with `", "` between them.
pub open spec fn joined(items: Seq<Seq<char>>) -> Seq<char>
    decreases items.len(),
{
    if items.len() == 0 {
        Seq::empty()
    } else if items.len() == 1 {
        items[0]
    } else {
        joined(items.drop_last()) + ", "@ + items.last()
    }
}

/// Appends `item` to a list that is being joined with `", "`; `first` tells
/// whether the list was empty so far.
pub fn push_joined(out: &mut String, first: bool, item: &str)
    ensures
        final(out)@ == if first {
            old(out)@ + item@
        } else {
            old(out)@ + ", "@ + item@
        },
{
    if !first {
        out.append(", ");
    }
    out.append(item);
}

/// A copy of a list of strings.
pub fn copy_texts(items: &Vec<String>) -> (r: Vec<String>)
    ensures
        texts(r@) == texts(items@),
{
    let mut r: Vec<String> = Vec::new();
    let mut i: usize = 0;
    while i < items.len()
        invariant
            i <= items.len(),
            r@.len() == i,
            forall|j: int| 0 <= j < i ==> r@[j]@ == items@[j]@,
        decreases items.len() - i,
    {
        r.push(items[i].clone());
        i += 1;
    }
    assert(texts(r@) =~= texts(items@));
    r
}

} // verus!
