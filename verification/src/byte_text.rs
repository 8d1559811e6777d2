//! Decimal rendering of byte sequences for diagnostic messages.
//!
//! A byte sequence is rendered as a bracketed, comma-separated list of the
//! decimal values of its bytes, such as `[98, 97, 100]`; this is the format
//! that the decode diagnostics embed.

use vstd::prelude::*;
use vstd::string::StringExecFns;

verus! {

/// The character of one decimal digit.
pub open spec fn decimal_digit(d: int) -> char
    recommends
        0 <= d < 10,
{
    if d == 0 {
        '0'
    } else if d == 1 {
        '1'
    } else if d == 2 {
        '2'
    } else if d == 3 {
        '3'
    } else if d == 4 {
        '4'
    } else if d == 5 {
        '5'
    } else if d == 6 {
        '6'
    } else if d == 7 {
        '7'
    } else if d == 8 {
        '8'
    } else {
        '9'
    }
}

/// The decimal rendering of one byte, without leading zeros.
pub open spec fn decimal_chars(b: u8) -> Seq<char> {
    if b < 10 {
        seq![decimal_digit(b as int)]
    } else if b < 100 {
        seq![decimal_digit(b as int / 10), decimal_digit(b as int % 10)]
    } else {
        seq![
            decimal_digit(b as int / 100),
            decimal_digit((b as int / 10) % 10),
            decimal_digit(b as int % 10),
        ]
    }
}

/// The comma-separated decimal renderings of a byte sequence, without the
/// surrounding brackets.
pub open spec fn byte_list_inner(s: Seq<u8>) -> Seq<char>
    decreases s.len(),
{
    if s.len() == 0 {
        Seq::empty()
    } else if s.len() == 1 {
        decimal_chars(s[0])
    } else {
        decimal_chars(s[0]) + ", "@ + byte_list_inner(s.drop_first())
    }
}

/// The bracketed decimal listing of a byte sequence, e.g. `[98, 97, 100]`.
pub open spec fn byte_listing(s: Seq<u8>) -> Seq<char> {
    "["@ + byte_list_inner(s) + "]"@
}

/// Relies on `String::push`: appends exactly the given character.
#[verifier::external_body]
fn push_char(out: &mut String, c: char)
    ensures
        final(out)@ == old(out)@ + seq![c],
{
    out.push(c);
}

/// The character of one decimal digit, as executable code.
fn digit_char(d: u8) -> (c: char)
    requires
        d < 10,
    ensures
        c == decimal_digit(d as int),
{
    match d {
        0 => '0',
        1 => '1',
        2 => '2',
        3 => '3',
        4 => '4',
        5 => '5',
        6 => '6',
        7 => '7',
        8 => '8',
        _ => '9',
    }
}

/// Appends the decimal rendering of one byte.
fn push_decimal(out: &mut String, b: u8)
    ensures
        final(out)@ == old(out)@ + decimal_chars(b),
{
    let ghost start = out@;
    if b >= 100 {
        push_char(out, digit_char(b / 100));
        push_char(out, digit_char((b / 10) % 10));
        push_char(out, digit_char(b % 10));
        assert(out@ =~= start + decimal_chars(b));
    } else if b >= 10 {
        push_char(out, digit_char(b / 10));
        push_char(out, digit_char(b % 10));
        assert(out@ =~= start + decimal_chars(b));
    } else {
        push_char(out, digit_char(b));
        assert(out@ =~= start + decimal_chars(b));
    }
}

proof fn lemma_byte_list_inner_snoc(s: Seq<u8>, b: u8)
    ensures
        s.len() == 0 ==> byte_list_inner(s.push(b)) == decimal_chars(b),
        s.len() > 0 ==> byte_list_inner(s.push(b)) == byte_list_inner(s) + ", "@ + decimal_chars(
            b,
        ),
    decreases s.len(),
{
    if s.len() == 0 {
        assert(s.push(b).len() == 1);
        assert(s.push(b)[0] == b);
    } else if s.len() == 1 {
        assert(s.push(b).len() == 2);
        assert(s.push(b)[0] == s[0]);
        assert(s.push(b).drop_first() =~= seq![b]);
        assert(byte_list_inner(seq![b]) == decimal_chars(b));
    } else {
        assert(s.push(b).drop_first() =~= s.drop_first().push(b));
        lemma_byte_list_inner_snoc(s.drop_first(), b);
        assert(byte_list_inner(s.push(b)) =~= byte_list_inner(s) + ", "@ + decimal_chars(b));
    }
}

/// Appends the bracketed decimal listing of the given bytes.
pub fn push_byte_listing(out: &mut String, bytes: &[u8])
    ensures
        final(out)@ == old(out)@ + byte_listing(bytes@),
{
    let ghost start = out@;
    out.append("[");
    proof {
        assert(out@ =~= start + "["@ + byte_list_inner(bytes@.take(0)));
    }
    let n = bytes.len();
    let mut i: usize = 0;
    while i < n
        invariant
            n == bytes@.len(),
            i <= n,
            out@ == start + "["@ + byte_list_inner(bytes@.take(i as int)),
        decreases n - i,
    {
        let ghost before = bytes@.take(i as int);
        if i > 0 {
            out.append(", ");
        }
        push_decimal(out, *vstd::slice::slice_index_get(bytes, i));
        proof {
            lemma_byte_list_inner_snoc(before, bytes@[i as int]);
            assert(bytes@.take(i + 1) =~= before.push(bytes@[i as int]));
            assert(out@ =~= start + "["@ + byte_list_inner(bytes@.take(i + 1)));
        }
        i = i + 1;
    }
    out.append("]");
    proof {
        assert(bytes@.take(n as int) =~= bytes@);
        assert(out@ =~= start + byte_listing(bytes@));
    }
}

} // verus!
