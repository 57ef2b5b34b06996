use vstd::prelude::*;
use vstd::string::StringSliceAdditionalSpecFns;
use vstd::utf8::encode_utf8;

verus! {

/// Strict lexicographic order on byte sequences: `a` comes before
/// `b` when `a` is a proper prefix of `b`, or when the bytes differ
/// first at a position where `a`'s byte is smaller.
pub open spec fn bytes_lt(a: Seq<u8>, b: Seq<u8>) -> bool
    decreases a.len(),
{
    if b.len() == 0 {
        false
    } else if a.len() == 0 {
        true
    } else if a[0] != b[0] {
        a[0] < b[0]
    } else {
        bytes_lt(a.drop_first(), b.drop_first())
    }
}

/// Strict lexicographic order on strings, taken byte-wise over their
/// UTF-8 encodings. This is the order `<` has on Rust's `str`.
pub open spec fn lex_lt(a: Seq<char>, b: Seq<char>) -> bool {
    bytes_lt(encode_utf8(a), encode_utf8(b))
}

/// Decides the lexicographic order of two strings, byte-wise over
/// their UTF-8 encodings.
pub fn str_lt(a: &str, b: &str) -> (r: bool)
    ensures
        r == lex_lt(a@, b@),
{
    let ab = a.as_bytes();
    let bb = b.as_bytes();
    let mut i: usize = 0;
    proof {
        assert(ab@.skip(0) =~= ab@);
        assert(bb@.skip(0) =~= bb@);
    }
    loop
        invariant
            i <= ab@.len(),
            i <= bb@.len(),
            ab@ == encode_utf8(a@),
            bb@ == encode_utf8(b@),
            forall|j: int| 0 <= j < i ==> ab@[j] == bb@[j],
            bytes_lt(ab@, bb@) == bytes_lt(ab@.skip(i as int), bb@.skip(i as int)),
        decreases ab@.len() - i,
    {
        if i >= bb.len() {
            return false;
        }
        if i >= ab.len() {
            return true;
        }
        let x = ab[i];
        let y = bb[i];
        if x != y {
            return x < y;
        }
        proof {
            assert(ab@.skip(i as int).drop_first() =~= ab@.skip(i + 1));
            assert(bb@.skip(i as int).drop_first() =~= bb@.skip(i + 1));
        }
        i = i + 1;
    }
}

/// The bytes of the ASCII digits `'0'` through `'9'`.
pub open spec fn is_digit_byte(b: u8) -> bool {
    48 <= b <= 57
}

/// A non-empty, all-digit byte sequence: the shape of a plain
/// decimal integer literal.
pub open spec fn all_digit_bytes(s: Seq<u8>) -> bool {
    s.len() > 0 && forall|i: int| 0 <= i < s.len() ==> is_digit_byte(#[trigger] s[i])
}

/// The numeric value of a decimal digit byte.
pub open spec fn digit_byte_val(b: u8) -> int {
    b - 48
}

/// The value of a byte sequence read as a decimal numeral,
/// most significant digit first.
pub open spec fn dec_val(s: Seq<u8>) -> int
    decreases s.len(),
{
    if s.len() == 0 {
        0
    } else {
        dec_val(s.drop_last()) * 10 + digit_byte_val(s.last())
    }
}

/// A string that is a plain decimal numeral whose value fits in
/// `usize`: exactly the strings `parse_usize` accepts.
pub open spec fn parses_to_usize(s: Seq<char>) -> bool {
    all_digit_bytes(encode_utf8(s)) && dec_val(encode_utf8(s)) <= usize::MAX
}

/// Reads a plain decimal numeral. Returns `None` when the string is
/// empty, holds a non-digit, or names a value beyond `usize`.
pub fn parse_usize(s: &str) -> (r: Option<usize>)
    ensures
        r is Some <==> parses_to_usize(s@),
        r matches Some(v) ==> v == dec_val(encode_utf8(s@)),
{
    let sb = s.as_bytes();
    if sb.len() == 0 {
        return Option::None;
    }
    let mut acc: usize = 0;
    let mut i: usize = 0;
    while i < sb.len()
        invariant
            0 < sb@.len(),
            i <= sb@.len(),
            sb@ == encode_utf8(s@),
            forall|j: int| 0 <= j < i ==> is_digit_byte(#[trigger] sb@[j]),
            acc == dec_val(sb@.take(i as int)),
        decreases sb@.len() - i,
    {
        let d = sb[i];
        if d < 48 || d > 57 {
            return Option::None;
        }
        let dv: usize = (d - 48) as usize;
        if acc > (usize::MAX - dv) / 10 {
            proof {
                if all_digit_bytes(sb@) {
                    lemma_dec_val_grows(sb@, i as int);
                    assert(acc * 10 + dv > usize::MAX) by (nonlinear_arith)
                        requires
                            acc > (usize::MAX - dv) / 10,
                            0 <= dv <= 9,
                    ;
                }
            }
            return Option::None;
        }
        proof {
            assert(acc * 10 + dv <= usize::MAX) by (nonlinear_arith)
                requires
                    acc <= (usize::MAX - dv) / 10,
                    0 <= dv <= 9,
            ;
            assert(sb@.take(i + 1).drop_last() =~= sb@.take(i as int));
        }
        acc = acc * 10 + dv;
        i = i + 1;
    }
    proof {
        assert(sb@.take(i as int) =~= sb@);
    }
    Option::Some(acc)
}

/// A numeral's value is at least the value of any of its prefixes
/// extended by one digit; used to justify the overflow test.
proof fn lemma_dec_val_grows(s: Seq<u8>, i: int)
    requires
        0 <= i < s.len(),
        forall|j: int| 0 <= j < s.len() ==> is_digit_byte(#[trigger] s[j]),
    ensures
        dec_val(s) >= dec_val(s.take(i)) * 10 + digit_byte_val(s[i]),
    decreases s.len() - i,
{
    if i == s.len() - 1 {
        assert(s.drop_last() =~= s.take(i));
    } else {
        lemma_dec_val_grows(s.drop_last(), i);
        assert(s.drop_last().take(i) =~= s.take(i));
        lemma_dec_val_nonneg(s.drop_last());
        assert(dec_val(s.drop_last()) * 10 + digit_byte_val(s.last()) >= dec_val(s.drop_last()))
            by (nonlinear_arith)
            requires
                dec_val(s.drop_last()) >= 0,
                digit_byte_val(s.last()) >= 0,
        ;
    }
}

/// A numeral built of digit bytes never has a negative value.
proof fn lemma_dec_val_nonneg(s: Seq<u8>)
    requires
        forall|j: int| 0 <= j < s.len() ==> is_digit_byte(#[trigger] s[j]),
    ensures
        dec_val(s) >= 0,
    decreases s.len(),
{
    if s.len() > 0 {
        lemma_dec_val_nonneg(s.drop_last());
        assert(dec_val(s.drop_last()) * 10 >= 0) by (nonlinear_arith)
            requires
                dec_val(s.drop_last()) >= 0,
        ;
    }
}

} // verus!
