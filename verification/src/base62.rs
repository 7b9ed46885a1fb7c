//! The compact base-62 text form of track identifiers.
//!
//! A raw identifier is a 128-bit integer; its textual form is the fixed-width
//! 22-digit base-62 numeral over the alphabet `0-9`, `a-z`, `A-Z`.

use vstd::prelude::*;
use vstd::arithmetic::div_mod::lemma_fundamental_div_mod;
use vstd::arithmetic::div_mod::lemma_fundamental_div_mod_converse;
use vstd::arithmetic::div_mod::lemma_multiply_divide_lt;
use vstd::arithmetic::power::pow;
use vstd::string::StrSliceExecFns;

verus! {

/// Width, in digits, of the textual form of a 128-bit identifier.
pub const BASE62_WIDTH: usize = 22;

/// Whether `c` is a digit of the base-62 alphabet.
pub open spec fn is_b62_digit(c: char) -> bool {
    ('0' <= c && c <= '9') || ('a' <= c && c <= 'z') || ('A' <= c && c <= 'Z')
}

/// Numeric value of a base-62 digit: `0-9` before `a-z` before `A-Z`.
pub open spec fn b62_val(c: char) -> int {
    if '0' <= c && c <= '9' {
        c as int - '0' as int
    } else if 'a' <= c && c <= 'z' {
        c as int - 'a' as int + 10
    } else {
        c as int - 'A' as int + 36
    }
}

/// The base-62 digit of a value in `[0, 62)`.
pub open spec fn b62_char(v: int) -> char {
    if v < 10 {
        ('0' as int + v) as char
    } else if v < 36 {
        ('a' as int + v - 10) as char
    } else {
        ('A' as int + v - 36) as char
    }
}

/// All characters of `s` are base-62 digits.
pub open spec fn all_b62(s: Seq<char>) -> bool {
    forall|i: int| 0 <= i < s.len() ==> is_b62_digit(#[trigger] s[i])
}

/// The numeric value of a base-62 numeral, most significant digit first.
pub open spec fn b62_decode(s: Seq<char>) -> int
    decreases s.len(),
{
    if s.len() == 0 {
        0
    } else {
        b62_decode(s.drop_last()) * 62 + b62_val(s.last())
    }
}

/// The `width`-digit base-62 numeral of a value, most significant digit first.
pub open spec fn b62_encode(v: int, width: nat) -> Seq<char>
    decreases width,
{
    if width == 0 {
        Seq::empty()
    } else {
        b62_encode(v / 62, (width - 1) as nat).push(b62_char(v % 62))
    }
}

/// The two digit maps invert each other on the value side.
pub proof fn lemma_b62_char_val(v: int)
    requires
        0 <= v < 62,
    ensures
        is_b62_digit(b62_char(v)),
        b62_val(b62_char(v)) == v,
{
}

/// The two digit maps invert each other on the character side.
pub proof fn lemma_b62_val_char(c: char)
    requires
        is_b62_digit(c),
    ensures
        0 <= b62_val(c) < 62,
        b62_char(b62_val(c)) == c,
{
}

/// A valid numeral's value is non-negative and below 62 to its length.
pub proof fn lemma_decode_nonneg(s: Seq<char>)
    requires
        all_b62(s),
    ensures
        b62_decode(s) >= 0,
    decreases s.len(),
{
    if s.len() > 0 {
        assert(all_b62(s.drop_last())) by {
            assert(forall|i: int|
                0 <= i < s.drop_last().len() ==> s.drop_last()[i] == #[trigger] s[i]);
        }
        lemma_decode_nonneg(s.drop_last());
        lemma_b62_val_char(s.last());
    }
}

/// Extending a valid numeral to the right never decreases its value.
pub proof fn lemma_decode_prefix(s: Seq<char>, j: int)
    requires
        all_b62(s),
        0 <= j <= s.len(),
    ensures
        b62_decode(s) >= b62_decode(s.take(j)),
    decreases s.len() - j,
{
    if j == s.len() {
        assert(s.take(j) =~= s);
    } else {
        lemma_decode_prefix(s, j + 1);
        assert(s.take(j + 1).drop_last() =~= s.take(j));
        assert(s.take(j + 1).last() == s[j]);
        assert(all_b62(s.take(j))) by {
            assert(forall|i: int| 0 <= i < j ==> s.take(j)[i] == #[trigger] s[i]);
        }
        lemma_decode_nonneg(s.take(j));
        lemma_b62_val_char(s[j]);
        assert(b62_decode(s.take(j + 1)) == b62_decode(s.take(j)) * 62 + b62_val(s[j]));
        assert(b62_decode(s.take(j)) * 62 >= b62_decode(s.take(j))) by (nonlinear_arith)
            requires
                b62_decode(s.take(j)) >= 0,
        ;
    }
}

/// Re-encoding the value of a valid numeral at its own width gives the
/// numeral back, digit for digit.
pub proof fn lemma_encode_decode(s: Seq<char>)
    requires
        all_b62(s),
    ensures
        b62_encode(b62_decode(s), s.len()) == s,
    decreases s.len(),
{
    if s.len() > 0 {
        let head = s.drop_last();
        let q = b62_decode(head);
        let r = b62_val(s.last());
        assert(all_b62(head)) by {
            assert(forall|i: int| 0 <= i < head.len() ==> head[i] == #[trigger] s[i]);
        }
        lemma_decode_nonneg(head);
        lemma_b62_val_char(s.last());
        lemma_fundamental_div_mod_converse(b62_decode(s), 62, q, r);
        lemma_encode_decode(head);
        assert(b62_encode(b62_decode(s), s.len())
            == b62_encode(q, (s.len() - 1) as nat).push(b62_char(r)));
        assert(head.push(s.last()) =~= s);
    } else {
        assert(b62_encode(0, 0) =~= s);
    }
}

/// Encoding a value that fits the width and decoding the result gives the
/// value back: the codec loses nothing either way round.
pub proof fn lemma_decode_encode(v: int, width: nat)
    requires
        0 <= v < pow(62, width),
    ensures
        b62_decode(b62_encode(v, width)) == v,
    decreases width,
{
    reveal(pow);
    if width == 0 {
        assert(pow(62, 0) == 1);
    } else {
        let w1 = (width - 1) as nat;
        assert(pow(62, width) == 62 * pow(62, w1));
        lemma_fundamental_div_mod(v, 62);
        lemma_multiply_divide_lt(v, 62, pow(62, w1));
        lemma_b62_char_val(v % 62);
        lemma_decode_encode(v / 62, w1);
        let head = b62_encode(v / 62, w1);
        assert(head.push(b62_char(v % 62)).drop_last() =~= head);
        assert(head.push(b62_char(v % 62)).last() == b62_char(v % 62));
    }
}

/// No two raw 128-bit values share a textual form: a 128-bit value always
/// fits the fixed width.
pub proof fn lemma_encode_injective(a: u128, b: u128)
    requires
        b62_encode(a as int, BASE62_WIDTH as nat) == b62_encode(b as int, BASE62_WIDTH as nat),
    ensures
        a == b,
{
    assert(pow(62, 22) > u128::MAX) by {
        reveal_with_fuel(pow, 23);
    }
    lemma_decode_encode(a as int, BASE62_WIDTH as nat);
    lemma_decode_encode(b as int, BASE62_WIDTH as nat);
}

/// An encoding has exactly the requested width.
pub proof fn lemma_encode_len(v: int, width: nat)
    ensures
        b62_encode(v, width).len() == width,
    decreases width,
{
    if width > 0 {
        lemma_encode_len(v / 62, (width - 1) as nat);
    }
}

/// Relies on std's String::push: appends one character at the end.
#[verifier::external_body]
fn push_char(s: &mut String, c: char)
    ensures
        final(s)@ == old(s)@.push(c),
{
    s.push(c)
}

/// Numeric value of one digit character, or `None` outside the alphabet.
fn b62_digit_val(c: char) -> (r: Option<u8>)
    ensures
        r matches Some(d) ==> is_b62_digit(c) && d < 62 && d as int == b62_val(c),
        r is None ==> !is_b62_digit(c),
{
    if '0' <= c && c <= '9' {
        Some(c as u8 - 48)
    } else if 'a' <= c && c <= 'z' {
        Some(c as u8 - 97 + 10)
    } else if 'A' <= c && c <= 'Z' {
        Some(c as u8 - 65 + 36)
    } else {
        None
    }
}

/// Digit character of a value in `[0, 62)`.
fn b62_digit_char(d: u8) -> (c: char)
    requires
        d < 62,
    ensures
        c == b62_char(d as int),
{
    let b: u8 = if d < 10 {
        48 + d
    } else if d < 36 {
        97 + (d - 10)
    } else {
        65 + (d - 36)
    };
    b as char
}

/// Value of a base-62 numeral, if every character is a digit of the alphabet
/// and the value fits in 128 bits.
pub fn decode_base62(s: &str) -> (r: Option<u128>)
    ensures
        r matches Some(v) ==> all_b62(s@) && v as int == b62_decode(s@),
        r is None ==> !all_b62(s@) || b62_decode(s@) > u128::MAX,
{
    let n = s.unicode_len();
    let mut v: u128 = 0;
    let mut i: usize = 0;
    while i < n
        invariant
            n == s@.len(),
            i <= n,
            all_b62(s@.take(i as int)),
            v as int == b62_decode(s@.take(i as int)),
        decreases n - i,
    {
        let c = s.get_char(i);
        let d: u8;
        match b62_digit_val(c) {
            Some(dv) => {
                d = dv;
            },
            None => {
                assert(!all_b62(s@)) by {
                    assert(!is_b62_digit(s@[i as int]));
                }
                return None;
            },
        }
        proof {
            assert(s@.take(i + 1).drop_last() =~= s@.take(i as int));
            assert(s@.take(i + 1).last() == s@[i as int]);
            assert(all_b62(s@.take(i + 1))) by {
                assert(forall|k: int|
                    0 <= k < i + 1 ==> s@.take(i + 1)[k] == #[trigger] s@[k]);
            }
            lemma_fundamental_div_mod((u128::MAX - d) as int, 62);
        }
        if v > (u128::MAX - (d as u128)) / 62 {
            proof {
                let m = u128::MAX as int;
                let q = (m - d) / 62;
                assert(v as int * 62 >= (q + 1) * 62) by (nonlinear_arith)
                    requires
                        v as int >= q + 1,
                ;
                assert(b62_decode(s@.take(i + 1)) > m);
                if all_b62(s@) {
                    lemma_decode_prefix(s@, i + 1);
                }
            }
            return None;
        }
        proof {
            let m = u128::MAX as int;
            let q = (m - d) / 62;
            assert(v as int * 62 <= q * 62) by (nonlinear_arith)
                requires
                    0 <= v as int <= q,
            ;
        }
        v = v * 62 + (d as u128);
        i = i + 1;
    }
    proof {
        assert(s@.take(n as int) =~= s@);
    }
    Some(v)
}

/// The fixed-width 22-digit base-62 numeral of a 128-bit value.
pub fn encode_base62(v: u128) -> (r: String)
    ensures
        r@ == b62_encode(v as int, BASE62_WIDTH as nat),
        r@.len() == BASE62_WIDTH,
        all_b62(r@),
{
    let width: usize = BASE62_WIDTH;
    let ghost full = b62_encode(v as int, width as nat);
    let mut buf: Vec<char> = Vec::new();
    let mut cur: u128 = v;
    let mut w: usize = 0;
    proof {
        lemma_encode_len(v as int, width as nat);
    }
    while w < width
        invariant
            w <= width,
            buf@.len() == w,
            full == b62_encode(v as int, width as nat),
            full.len() == width,
            b62_encode(cur as int, (width - w) as nat) == full.take((width - w) as int),
            forall|j: int| 0 <= j < w ==> buf@[j] == full[width - 1 - j],
        decreases width - w,
    {
        let d: u8 = (cur % 62) as u8;
        let c = b62_digit_char(d);
        proof {
            let rest = (width - w) as nat;
            assert(b62_encode(cur as int, rest)
                == b62_encode(cur as int / 62, (rest - 1) as nat).push(b62_char(cur as int % 62)));
            lemma_encode_len(cur as int, rest);
            lemma_encode_len(cur as int / 62, (rest - 1) as nat);
            assert(full.take(rest as int).last() == full[rest - 1]);
            assert(full.take(rest as int).drop_last() =~= full.take(rest - 1));
        }
        buf.push(c);
        cur = cur / 62;
        w = w + 1;
    }
    let mut out = String::new();
    let mut k: usize = 0;
    while k < width
        invariant
            k <= width,
            buf@.len() == width,
            full == b62_encode(v as int, width as nat),
            full.len() == width,
            forall|j: int| 0 <= j < width ==> buf@[j] == full[width - 1 - j],
            out@ =~= full.take(k as int),
        decreases width - k,
    {
        let c = buf[width - 1 - k];
        push_char(&mut out, c);
        proof {
            assert(full.take(k + 1) =~= full.take(k as int).push(full[k as int]));
        }
        k = k + 1;
    }
    proof {
        assert(out@ =~= full);
        assert(all_b62(full)) by {
            assert forall|j: int| 0 <= j < full.len() implies is_b62_digit(#[trigger] full[j]) by {
                lemma_encode_digit_valid(v as int, width as nat, j);
            }
        }
    }
    out
}

/// Every digit of an encoding lies in the alphabet.
pub proof fn lemma_encode_digit_valid(v: int, width: nat, j: int)
    requires
        0 <= j < width,
        v >= 0,
    ensures
        is_b62_digit(b62_encode(v, width)[j]),
    decreases width,
{
    lemma_encode_len(v, width);
    lemma_encode_len(v / 62, (width - 1) as nat);
    if j == width - 1 {
        lemma_fundamental_div_mod(v, 62);
        lemma_b62_char_val(v % 62);
    } else {
        lemma_encode_digit_valid(v / 62, (width - 1) as nat, j);
    }
}

} // verus!

