//! Building and ordering text: hexadecimal and decimal numerals, equality and
//! the lexicographic order of names.

use vstd::prelude::*;
use vstd::string::*;
use vstd::utf8::*;

verus! {

/// The upper-case hexadecimal digit of a value below 16.
pub open spec fn hex_digit(d: nat) -> char {
    if d == 0 {
        '0'
    } else if d == 1 {
        '1'
    } else if d == 2 {
        '2'
    } else if d == 3 {
        '3'
    } else if d == 4 {
        '4'
    } else if d == 5 {
        '5'
    } else if d == 6 {
        '6'
    } else if d == 7 {
        '7'
    } else if d == 8 {
        '8'
    } else if d == 9 {
        '9'
    } else if d == 10 {
        'A'
    } else if d == 11 {
        'B'
    } else if d == 12 {
        'C'
    } else if d == 13 {
        'D'
    } else if d == 14 {
        'E'
    } else {
        'F'
    }
}

/// The `width` least significant hexadecimal digits of `value`, most
/// significant first.
pub open spec fn hex_digits(value: nat, width: nat) -> Seq<char>
    decreases width,
{
    if width == 0 {
        Seq::empty()
    } else {
        hex_digits(value / 16, (width - 1) as nat).push(hex_digit(value % 16))
    }
}

/// The decimal numeral of `value`, without leading zeros.
pub open spec fn decimal_digits(value: nat) -> Seq<char>
    decreases value,
{
    if value < 10 {
        seq![hex_digit(value)]
    } else {
        decimal_digits(value / 10).push(hex_digit(value % 10))
    }
}

/// 16 to the power `width`.
pub open spec fn pow16(width: nat) -> nat
    decreases width,
{
    if width == 0 {
        1
    } else {
        16 * pow16((width - 1) as nat)
    }
}

/// Distinct digits below 16 are written differently.
pub proof fn lemma_hex_digit_injective(a: nat, b: nat)
    requires
        a < 16,
        b < 16,
        hex_digit(a) == hex_digit(b),
    ensures
        a == b,
{
}

/// Two values below `16^width` with the same `width` hexadecimal digits are
/// equal.
pub proof fn lemma_hex_digits_injective(a: nat, b: nat, width: nat)
    requires
        a < pow16(width),
        b < pow16(width),
        hex_digits(a, width) == hex_digits(b, width),
    ensures
        a == b,
    decreases width,
{
    if width > 0 {
        let w = (width - 1) as nat;
        let pa = hex_digits(a / 16, w);
        let pb = hex_digits(b / 16, w);
        assert(pa.push(hex_digit(a % 16)).drop_last() =~= pa);
        assert(pb.push(hex_digit(b % 16)).drop_last() =~= pb);
        assert(pa.push(hex_digit(a % 16)).last() == hex_digit(a % 16));
        assert(pb.push(hex_digit(b % 16)).last() == hex_digit(b % 16));
        lemma_hex_digit_injective(a % 16, b % 16);
        lemma_hex_digits_injective(a / 16, b / 16, w);
    }
}

fn hex_digit_str(d: u8) -> (r: &'static str)
    requires
        d < 16,
    ensures
        r@ == seq![hex_digit(d as nat)],
{
    proof {
        reveal_strlit("0");
        reveal_strlit("1");
        reveal_strlit("2");
        reveal_strlit("3");
        reveal_strlit("4");
        reveal_strlit("5");
        reveal_strlit("6");
        reveal_strlit("7");
        reveal_strlit("8");
        reveal_strlit("9");
        reveal_strlit("A");
        reveal_strlit("B");
        reveal_strlit("C");
        reveal_strlit("D");
        reveal_strlit("E");
        reveal_strlit("F");
    }
    let r = if d == 0 {
        "0"
    } else if d == 1 {
        "1"
    } else if d == 2 {
        "2"
    } else if d == 3 {
        "3"
    } else if d == 4 {
        "4"
    } else if d == 5 {
        "5"
    } else if d == 6 {
        "6"
    } else if d == 7 {
        "7"
    } else if d == 8 {
        "8"
    } else if d == 9 {
        "9"
    } else if d == 10 {
        "A"
    } else if d == 11 {
        "B"
    } else if d == 12 {
        "C"
    } else if d == 13 {
        "D"
    } else if d == 14 {
        "E"
    } else {
        "F"
    };
    assert(r@ =~= seq![hex_digit(d as nat)]);
    r
}

/// Appends the `width` least significant hexadecimal digits of `value`.
pub fn push_hex(out: &mut String, value: u64, width: u32)
    ensures
        final(out)@ == old(out)@ + hex_digits(value as nat, width as nat),
    decreases width,
{
    if width > 0 {
        push_hex(out, value / 16, width - 1);
        let d: u8 = (value % 16) as u8;
        out.append(hex_digit_str(d));
        assert(final(out)@ =~= old(out)@ + hex_digits(value as nat, width as nat));
    } else {
        assert(out@ =~= old(out)@ + hex_digits(value as nat, width as nat));
    }
}

/// Appends the decimal numeral of `value`.
pub fn push_decimal(out: &mut String, value: u32)
    ensures
        final(out)@ == old(out)@ + decimal_digits(value as nat),
    decreases value,
{
    if value >= 10 {
        push_decimal(out, value / 10);
    }
    let d: u8 = (value % 10) as u8;
    out.append(hex_digit_str(d));
    assert(final(out)@ =~= old(out)@ + decimal_digits(value as nat));
}

/// Strict lexicographic order of byte strings.
pub open spec fn lex_lt(a: Seq<u8>, b: Seq<u8>) -> bool
    decreases a.len(),
{
    if b.len() == 0 {
        false
    } else if a.len() == 0 {
        true
    } else if a[0] != b[0] {
        a[0] < b[0]
    } else {
        lex_lt(a.drop_first(), b.drop_first())
    }
}

/// Strict order of names: the lexicographic order of their UTF-8 encodings.
pub open spec fn name_lt(a: Seq<char>, b: Seq<char>) -> bool {
    lex_lt(encode_utf8(a), encode_utf8(b))
}

/// No byte string precedes itself.
pub proof fn lemma_lex_irreflexive(a: Seq<u8>)
    ensures
        !lex_lt(a, a),
    decreases a.len(),
{
    if a.len() > 0 {
        lemma_lex_irreflexive(a.drop_first());
    }
}

/// The lexicographic order is transitive.
pub proof fn lemma_lex_transitive(a: Seq<u8>, b: Seq<u8>, c: Seq<u8>)
    requires
        lex_lt(a, b),
        lex_lt(b, c),
    ensures
        lex_lt(a, c),
    decreases a.len(),
{
    if a.len() > 0 && b.len() > 0 && c.len() > 0 && a[0] == b[0] && b[0] == c[0] {
        lemma_lex_transitive(a.drop_first(), b.drop_first(), c.drop_first());
    }
}

/// Of two different byte strings one precedes the other.
pub proof fn lemma_lex_total(a: Seq<u8>, b: Seq<u8>)
    requires
        !lex_lt(a, b),
        !lex_lt(b, a),
    ensures
        a == b,
    decreases a.len(),
{
    if a.len() > 0 && b.len() > 0 {
        lemma_lex_total(a.drop_first(), b.drop_first());
        assert(a =~= seq![a[0]] + a.drop_first());
        assert(b =~= seq![b[0]] + b.drop_first());
    } else {
        assert(a =~= b);
    }
}

/// No name precedes itself.
pub proof fn lemma_name_irreflexive(a: Seq<char>)
    ensures
        !name_lt(a, a),
{
    lemma_lex_irreflexive(encode_utf8(a));
}

/// The order of names is transitive.
pub proof fn lemma_name_transitive(a: Seq<char>, b: Seq<char>, c: Seq<char>)
    requires
        name_lt(a, b),
        name_lt(b, c),
    ensures
        name_lt(a, c),
{
    lemma_lex_transitive(encode_utf8(a), encode_utf8(b), encode_utf8(c));
}

/// Of two different names one precedes the other.
pub proof fn lemma_name_total(a: Seq<char>, b: Seq<char>)
    requires
        !name_lt(a, b),
        !name_lt(b, a),
    ensures
        a == b,
{
    lemma_lex_total(encode_utf8(a), encode_utf8(b));
    encode_utf8_decode_utf8(a);
    encode_utf8_decode_utf8(b);
}

/// Whether `a` precedes `b` in the order of names.
pub fn str_lt(a: &str, b: &str) -> (r: bool)
    ensures
        r == name_lt(a@, b@),
{
    let x = a.as_bytes();
    let y = b.as_bytes();
    let mut i: usize = 0;
    assert(x@.skip(0) =~= x@ && y@.skip(0) =~= y@);
    while i < x.len() && i < y.len()
        invariant
            i <= x@.len(),
            i <= y@.len(),
            x@ == encode_utf8(a@),
            y@ == encode_utf8(b@),
            lex_lt(x@, y@) == lex_lt(x@.skip(i as int), y@.skip(i as int)),
        decreases x@.len() - i,
    {
        proof {
            assert(x@.skip(i as int).drop_first() =~= x@.skip(i + 1));
            assert(y@.skip(i as int).drop_first() =~= y@.skip(i + 1));
            assert(x@.skip(i as int)[0] == x@[i as int]);
            assert(y@.skip(i as int)[0] == y@[i as int]);
        }
        if x[i] != y[i] {
            return x[i] < y[i];
        }
        i += 1;
    }
    i < y.len()
}

/// Whether two strings hold the same text.
pub fn str_eq(a: &str, b: &str) -> (r: bool)
    ensures
        r == (a@ == b@),
{
    let x = a.as_bytes();
    let y = b.as_bytes();
    proof {
        encode_utf8_decode_utf8(a@);
        encode_utf8_decode_utf8(b@);
    }
    if x.len() != y.len() {
        return false;
    }
    let mut i: usize = 0;
    while i < x.len()
        invariant
            i <= x@.len(),
            x@.len() == y@.len(),
            x@ == encode_utf8(a@),
            y@ == encode_utf8(b@),
            forall|j: int| 0 <= j < i ==> x@[j] == y@[j],
        decreases x@.len() - i,
    {
        if x[i] != y[i] {
            return false;
        }
        i += 1;
    }
    assert(x@ =~= y@);
    true
}

/// An owned copy of `s`.
pub fn owned(s: &str) -> (r: String)
    ensures
        r@ == s@,
{
    let mut r = String::new();
    r.append(s);
    assert(r@ =~= s@);
    r
}

/// If two texts with a common prefix are equal, so are their remainders.
pub proof fn lemma_concat_cancel(p: Seq<char>, a: Seq<char>, b: Seq<char>)
    requires
        p + a == p + b,
    ensures
        a == b,
{
    assert((p + a).skip(p.len() as int) =~= a);
    assert((p + b).skip(p.len() as int) =~= b);
}

} // verus!
