//! Verified text utilities: case-insensitive comparison, prefix tests,
//! decimal rendering and script-safe escaping.
//!
//! All user-supplied text that is interpolated into a page-context script is
//! escaped here; the contracts pin the escaped form exactly.

use vstd::prelude::*;

verus! {

use vstd::string::StrSliceExecFns;
use vstd::string::StringSliceAdditionalSpecFns;

/// Code point of `c` with an ASCII upper-case letter folded to lower case.
pub open spec fn lower_u32(c: char) -> u32 {
    if 65 <= c as u32 && c as u32 <= 90 {
        (c as u32 + 32) as u32
    } else {
        c as u32
    }
}

/// Character-wise ASCII-case-insensitive equality.
pub open spec fn eq_ignore_case(a: Seq<char>, b: Seq<char>) -> bool {
    a.len() == b.len() && (forall|i: int|
        0 <= i < a.len() ==> lower_u32(a[i]) == lower_u32(b[i]))
}

/// ASCII-case-insensitive equality of two strings.
pub fn eq_ignore_ascii_case(a: &str, b: &str) -> (r: bool)
    ensures
        r == eq_ignore_case(a@, b@),
{
    let alen = a.unicode_len();
    let blen = b.unicode_len();
    if alen != blen {
        return false;
    }
    let mut i: usize = 0;
    while i < alen
        invariant
            alen == a@.len(),
            blen == b@.len(),
            alen == blen,
            0 <= i <= alen,
            forall|j: int| 0 <= j < i ==> lower_u32(a@[j]) == lower_u32(b@[j]),
        decreases alen - i,
    {
        let ca = a.get_char(i) as u32;
        let cb = b.get_char(i) as u32;
        let la = if 65 <= ca && ca <= 90 {
            ca + 32
        } else {
            ca
        };
        let lb = if 65 <= cb && cb <= 90 {
            cb + 32
        } else {
            cb
        };
        if la != lb {
            return false;
        }
        i += 1;
    }
    true
}

/// Character-wise equality of two strings.
pub fn str_eq(a: &str, b: &str) -> (r: bool)
    ensures
        r == (a@ == b@),
{
    let alen = a.unicode_len();
    if alen != b.unicode_len() {
        return false;
    }
    let mut i: usize = 0;
    while i < alen
        invariant
            alen == a@.len(),
            a@.len() == b@.len(),
            0 <= i <= alen,
            forall|j: int| 0 <= j < i ==> a@[j] == b@[j],
        decreases alen - i,
    {
        if a.get_char(i) != b.get_char(i) {
            return false;
        }
        i += 1;
    }
    proof {
        assert(a@ =~= b@);
    }
    true
}

/// Whether `p` is a prefix of `s`.
pub open spec fn has_prefix(s: Seq<char>, p: Seq<char>) -> bool {
    p.len() <= s.len() && s.subrange(0, p.len() as int) == p
}

/// Prefix test on strings.
pub fn str_has_prefix(s: &str, p: &str) -> (r: bool)
    ensures
        r == has_prefix(s@, p@),
{
    let slen = s.unicode_len();
    let plen = p.unicode_len();
    if plen > slen {
        assert(!has_prefix(s@, p@));
        return false;
    }
    let mut i: usize = 0;
    while i < plen
        invariant
            slen == s@.len(),
            plen == p@.len(),
            plen <= slen,
            0 <= i <= plen,
            forall|j: int| 0 <= j < i ==> s@[j] == p@[j],
        decreases plen - i,
    {
        if s.get_char(i) != p.get_char(i) {
            assert(s@.subrange(0, p@.len() as int)[i as int] != p@[i as int]);
            return false;
        }
        i += 1;
    }
    assert(s@.subrange(0, p@.len() as int) =~= p@);
    true
}

/// Decimal digit bytes of `n`, most significant first, no leading zeros.
pub open spec fn dec_digits(n: nat) -> Seq<u8>
    decreases n,
{
    if n < 10 {
        seq![(n + 0x30) as u8]
    } else {
        dec_digits((n / 10) as nat).push((n % 10 + 0x30) as u8)
    }
}

/// Decimal rendering of a signed value: a minus sign followed by the digits
/// of the magnitude, or the digits alone.
pub open spec fn dec_int(v: int) -> Seq<u8> {
    if v < 0 {
        seq![0x2du8] + dec_digits((-v) as nat)
    } else {
        dec_digits(v as nat)
    }
}

/// Render `n` in decimal.
pub fn fmt_u64(n: u64) -> (r: Vec<u8>)
    ensures
        r@ == dec_digits(n as nat),
{
    let mut low_first: Vec<u8> = Vec::new();
    let mut m: u64 = n;
    while m >= 10
        invariant
            dec_digits(n as nat) == dec_digits(m as nat) + low_first@.reverse(),
        decreases m,
    {
        let ghost pre = low_first@;
        let ghost mpre = m as nat;
        let d: u8 = (m % 10) as u8 + 0x30;
        low_first.push(d);
        m = m / 10;
        proof {
            assert(dec_digits(mpre) == dec_digits((mpre / 10) as nat).push(d));
            assert(dec_digits(mpre / 10) + low_first@.reverse() =~= dec_digits(mpre)
                + pre.reverse());
        }
    }
    let mut r: Vec<u8> = Vec::new();
    r.push((m as u8) + 0x30);
    assert(r@ =~= dec_digits(m as nat));
    let mut i: usize = low_first.len();
    while i > 0
        invariant
            i <= low_first@.len(),
            r@ == dec_digits(m as nat) + low_first@.reverse().take(
                low_first@.len() - i,
            ),
        decreases i,
    {
        let ghost rpre = r@;
        i = i - 1;
        r.push(low_first[i]);
        proof {
            assert(low_first@.reverse()[low_first@.len() - 1 - i] == low_first@[i as int]);
            assert(r@ =~= dec_digits(m as nat) + low_first@.reverse().take(
                low_first@.len() - i,
            ));
        }
    }
    proof {
        assert(low_first@.reverse().take(low_first@.len() as int) =~= low_first@.reverse());
    }
    r
}

/// Render `v` in decimal with an optional minus sign.
pub fn fmt_i64(v: i64) -> (r: Vec<u8>)
    ensures
        r@ == dec_int(v as int),
{
    if v >= 0 {
        fmt_u64(v as u64)
    } else {
        let mag: u64 = if v == i64::MIN {
            9223372036854775808u64
        } else {
            (-v) as u64
        };
        let mut r: Vec<u8> = Vec::new();
        r.push(0x2d);
        let mut digits = fmt_u64(mag);
        r.append(&mut digits);
        assert(r@ =~= dec_int(v as int));
        r
    }
}

/// Lower-case hex digit for a value below 16.
pub open spec fn hex_digit(n: u8) -> u8 {
    if n < 10 {
        (n + 0x30) as u8
    } else {
        (n - 10 + 0x61) as u8
    }
}

/// Escaped form of one byte inside a double-quoted script string literal:
/// quote, backslash and control bytes can never appear bare.
pub open spec fn escape_byte(b: u8) -> Seq<u8> {
    if b == 0x22 {
        seq![0x5cu8, 0x22u8]
    } else if b == 0x5c {
        seq![0x5cu8, 0x5cu8]
    } else if b == 0x0a {
        seq![0x5cu8, 0x6eu8]
    } else if b == 0x0d {
        seq![0x5cu8, 0x72u8]
    } else if b == 0x09 {
        seq![0x5cu8, 0x74u8]
    } else if b < 0x20 {
        seq![0x5cu8, 0x75u8, 0x30u8, 0x30u8, hex_digit(b / 16), hex_digit(b % 16)]
    } else {
        seq![b]
    }
}

/// Escaped form of a whole byte sequence.
pub open spec fn escape_bytes(s: Seq<u8>) -> Seq<u8>
    decreases s.len(),
{
    if s.len() == 0 {
        Seq::empty()
    } else {
        escape_byte(s[0]) + escape_bytes(s.drop_first())
    }
}

/// Escaping distributes over appending one byte at the end.
pub proof fn lemma_escape_push(a: Seq<u8>, x: u8)
    ensures
        escape_bytes(a.push(x)) == escape_bytes(a) + escape_byte(x),
    decreases a.len(),
{
    if a.len() == 0 {
        assert(a.push(x).drop_first() =~= Seq::<u8>::empty());
        assert(a.push(x)[0] == x);
        assert(escape_bytes(a.push(x)) == escape_byte(x) + escape_bytes(Seq::<u8>::empty()));
        assert(escape_bytes(a.push(x)) =~= escape_bytes(a) + escape_byte(x));
    } else {
        lemma_escape_push(a.drop_first(), x);
        assert(a.push(x).drop_first() =~= a.drop_first().push(x));
        assert(a.push(x)[0] == a[0]);
        assert(escape_bytes(a.push(x)) == escape_byte(a[0]) + escape_bytes(
            a.drop_first().push(x),
        ));
        assert(escape_bytes(a) == escape_byte(a[0]) + escape_bytes(a.drop_first()));
        vstd::seq_lib::lemma_concat_associative(
            escape_byte(a[0]),
            escape_bytes(a.drop_first()),
            escape_byte(x),
        );
        assert(escape_bytes(a.push(x)) =~= escape_bytes(a) + escape_byte(x));
    }
}

/// Numeric value of a lower-case hex digit byte.
pub open spec fn hex_val(b: u8) -> u8 {
    if 0x30 <= b && b <= 0x39 {
        (b - 0x30) as u8
    } else {
        (b - 0x61 + 10) as u8
    }
}

/// Whether the byte is a lower-case hex digit.
pub open spec fn is_hex_digit(b: u8) -> bool {
    (0x30 <= b && b <= 0x39) || (0x61 <= b && b <= 0x66)
}

/// Prepend a byte to a parse result.
pub open spec fn unescape_cons(b: u8, rest: Option<Seq<u8>>) -> Option<Seq<u8>> {
    match rest {
        Some(t) => Some(seq![b] + t),
        None => None,
    }
}

/// Inverse reading of an escaped byte sequence: each escape sequence
/// yields the byte it stands for, anything after a backslash that is no
/// escape sequence is malformed.
pub open spec fn unescape_bytes(s: Seq<u8>) -> Option<Seq<u8>>
    decreases s.len(),
{
    if s.len() == 0 {
        Some(Seq::<u8>::empty())
    } else if s[0] == 0x5c {
        if s.len() >= 2 && s[1] == 0x22 {
            unescape_cons(0x22, unescape_bytes(s.skip(2)))
        } else if s.len() >= 2 && s[1] == 0x5c {
            unescape_cons(0x5c, unescape_bytes(s.skip(2)))
        } else if s.len() >= 2 && s[1] == 0x6e {
            unescape_cons(0x0a, unescape_bytes(s.skip(2)))
        } else if s.len() >= 2 && s[1] == 0x72 {
            unescape_cons(0x0d, unescape_bytes(s.skip(2)))
        } else if s.len() >= 2 && s[1] == 0x74 {
            unescape_cons(0x09, unescape_bytes(s.skip(2)))
        } else if s.len() >= 6 && s[1] == 0x75 && s[2] == 0x30 && s[3] == 0x30 && is_hex_digit(
            s[4],
        ) && is_hex_digit(s[5]) {
            unescape_cons((16 * hex_val(s[4]) + hex_val(s[5])) as u8, unescape_bytes(s.skip(6)))
        } else {
            None
        }
    } else {
        unescape_cons(s[0], unescape_bytes(s.skip(1)))
    }
}

/// Escaping loses nothing: reading an escaped sequence back yields exactly
/// the original bytes, for every input.
pub proof fn lemma_escape_roundtrip(s: Seq<u8>)
    ensures
        unescape_bytes(escape_bytes(s)) == Some(s),
    decreases s.len(),
{
    if s.len() == 0 {
        assert(escape_bytes(s) =~= Seq::<u8>::empty());
        assert(s =~= Seq::<u8>::empty());
    } else {
        let b = s[0];
        let d = s.drop_first();
        lemma_escape_roundtrip(d);
        let e = escape_byte(b);
        let t = escape_bytes(d);
        assert(escape_bytes(s) == e + t);
        assert(seq![b] + d =~= s);
        if b == 0x22 || b == 0x5c || b == 0x0a || b == 0x0d || b == 0x09 {
            assert((e + t)[0] == 0x5c);
            assert((e + t)[1] == e[1]);
            assert((e + t).skip(2) =~= t);
            assert(unescape_bytes(e + t) == unescape_cons(b, unescape_bytes(t)));
        } else if b < 0x20 {
            let hi = (b / 16) as u8;
            let lo = (b % 16) as u8;
            assert((e + t)[0] == 0x5c);
            assert((e + t)[1] == 0x75);
            assert((e + t)[2] == 0x30);
            assert((e + t)[3] == 0x30);
            assert((e + t)[4] == hex_digit(hi));
            assert((e + t)[5] == hex_digit(lo));
            assert(is_hex_digit(hex_digit(hi)));
            assert(is_hex_digit(hex_digit(lo)));
            assert(hex_val(hex_digit(hi)) == hi);
            assert(hex_val(hex_digit(lo)) == lo);
            assert(16 * hi + lo == b);
            assert((e + t).skip(6) =~= t);
            assert(unescape_bytes(e + t) == unescape_cons(b, unescape_bytes(t)));
        } else {
            assert((e + t)[0] == b && b != 0x5c);
            assert((e + t).skip(1) =~= t);
            assert(unescape_bytes(e + t) == unescape_cons(b, unescape_bytes(t)));
        }
    }
}

/// Escape the UTF-8 bytes of `text` for embedding between double quotes in a
/// page-context script. Multi-byte UTF-8 sequences pass through unchanged;
/// quotes, backslashes and control bytes are escaped.
pub fn escape_js(text: &str) -> (r: Vec<u8>)
    ensures
        r@ == escape_bytes(text.spec_bytes()),
{
    let bytes = text.as_bytes_vec();
    escape_bytes_vec(&bytes)
}

/// Escape a byte sequence for embedding between double quotes.
pub fn escape_bytes_vec(bytes: &Vec<u8>) -> (r: Vec<u8>)
    ensures
        r@ == escape_bytes(bytes@),
{
    let mut out: Vec<u8> = Vec::new();
    let mut i: usize = 0;
    while i < bytes.len()
        invariant
            0 <= i <= bytes@.len(),
            out@ == escape_bytes(bytes@.take(i as int)),
        decreases bytes@.len() - i,
    {
        let ghost done = bytes@.take(i as int);
        let b = bytes[i];
        if b == 0x22 {
            out.push(0x5c);
            out.push(0x22);
        } else if b == 0x5c {
            out.push(0x5c);
            out.push(0x5c);
        } else if b == 0x0a {
            out.push(0x5c);
            out.push(0x6e);
        } else if b == 0x0d {
            out.push(0x5c);
            out.push(0x72);
        } else if b == 0x09 {
            out.push(0x5c);
            out.push(0x74);
        } else if b < 0x20 {
            out.push(0x5c);
            out.push(0x75);
            out.push(0x30);
            out.push(0x30);
            let hi = b / 16;
            let lo = b % 16;
            out.push(if hi < 10 {
                hi + 0x30
            } else {
                hi - 10 + 0x61
            });
            out.push(if lo < 10 {
                lo + 0x30
            } else {
                lo - 10 + 0x61
            });
        } else {
            out.push(b);
        }
        proof {
            lemma_escape_push(done, bytes@[i as int]);
            assert(done.push(bytes@[i as int]) =~= bytes@.take(i + 1));
            assert(out@ =~= escape_bytes(bytes@.take(i + 1)));
        }
        i += 1;
    }
    proof {
        assert(bytes@.take(bytes@.len() as int) =~= bytes@);
    }
    out
}

/// `b` with an ASCII upper-case letter folded to lower case.
pub open spec fn lower_byte(b: u8) -> u8 {
    if 65 <= b && b <= 90 {
        (b + 32) as u8
    } else {
        b
    }
}

/// Byte-wise ASCII lower-casing.
pub open spec fn lower_bytes(s: Seq<u8>) -> Seq<u8> {
    s.map_values(|b: u8| lower_byte(b))
}

/// Fold ASCII upper-case letters of `bytes` to lower case.
pub fn lower_bytes_vec(bytes: &Vec<u8>) -> (r: Vec<u8>)
    ensures
        r@ == lower_bytes(bytes@),
{
    let mut out: Vec<u8> = Vec::new();
    let mut i: usize = 0;
    while i < bytes.len()
        invariant
            0 <= i <= bytes@.len(),
            out@ == lower_bytes(bytes@).take(i as int),
        decreases bytes@.len() - i,
    {
        let b = bytes[i];
        if 65 <= b && b <= 90 {
            out.push(b + 32);
        } else {
            out.push(b);
        }
        proof {
            assert(out@ =~= lower_bytes(bytes@).take(i + 1));
        }
        i += 1;
    }
    proof {
        assert(lower_bytes(bytes@).take(bytes@.len() as int) =~= lower_bytes(bytes@));
    }
    out
}

/// Append the UTF-8 bytes of `s` to `buf`.
pub fn append_str_bytes(buf: &mut Vec<u8>, s: &str)
    ensures
        final(buf)@ == old(buf)@ + s.spec_bytes(),
{
    let mut bytes = s.as_bytes_vec();
    buf.append(&mut bytes);
}

/// Append decimal digits of an unsigned value to `buf`.
pub fn append_u64(buf: &mut Vec<u8>, v: u64)
    ensures
        final(buf)@ == old(buf)@ + dec_digits(v as nat),
{
    let mut digits = fmt_u64(v);
    buf.append(&mut digits);
}

/// Append decimal digits of a signed value to `buf`.
pub fn append_i64(buf: &mut Vec<u8>, v: i64)
    ensures
        final(buf)@ == old(buf)@ + dec_int(v as int),
{
    let mut digits = fmt_i64(v);
    buf.append(&mut digits);
}

} // verus!
