use vstd::prelude::*;
use vstd::utf8::*;

verus! {

broadcast use vstd::string::group_string_axioms;

/// The characters of a string slice, in order.
pub fn chars_of(s: &str) -> (v: Vec<char>)
    ensures
        v@ == s@,
{
    let mut v: Vec<char> = Vec::new();
    for c in it: s.chars()
        invariant
            v@ == it.seq().take(it.index() as int),
    {
        v.push(c);
    }
    v
}

/// Builds a `String` holding exactly the given characters
/// (std's `FromIterator<&char>` for `String`).
#[verifier::external_body]
pub(crate) fn string_from_chars(cs: &[char]) -> (s: String)
    ensures
        s@ == cs@,
{
    cs.iter().collect()
}

/// Unicode `White_Space`, the property that `char::is_whitespace` tests.
pub open spec fn is_ws(c: char) -> bool {
    let u = c as u32;
    (0x09 <= u <= 0x0D) || u == 0x20 || u == 0x85 || u == 0xA0 || u == 0x1680 || (0x2000 <= u
        <= 0x200A) || u == 0x2028 || u == 0x2029 || u == 0x202F || u == 0x205F || u == 0x3000
}

pub fn is_whitespace(c: char) -> (r: bool)
    ensures
        r == is_ws(c),
{
    let u = c as u32;
    (0x09 <= u && u <= 0x0D) || u == 0x20 || u == 0x85 || u == 0xA0 || u == 0x1680 || (0x2000 <= u
        && u <= 0x200A) || u == 0x2028 || u == 0x2029 || u == 0x202F || u == 0x205F || u == 0x3000
}

/// `s` without its leading white space.
pub open spec fn trim_start(s: Seq<char>) -> Seq<char>
    decreases s.len(),
{
    if s.len() > 0 && is_ws(s[0]) {
        trim_start(s.drop_first())
    } else {
        s
    }
}

/// `s` without its trailing white space.
pub open spec fn trim_end(s: Seq<char>) -> Seq<char>
    decreases s.len(),
{
    if s.len() > 0 && is_ws(s.last()) {
        trim_end(s.drop_last())
    } else {
        s
    }
}

/// `s` without leading and trailing white space (`str::trim`).
pub open spec fn trim(s: Seq<char>) -> Seq<char> {
    trim_end(trim_start(s))
}

/// Copies `s[lo..hi]`.
pub fn sub_chars(s: &[char], lo: usize, hi: usize) -> (r: Vec<char>)
    requires
        lo <= hi <= s@.len(),
    ensures
        r@ == s@.subrange(lo as int, hi as int),
{
    let mut r: Vec<char> = Vec::new();
    let mut i = lo;
    while i < hi
        invariant
            lo <= i <= hi <= s@.len(),
            r@ == s@.subrange(lo as int, i as int),
        decreases hi - i,
    {
        r.push(s[i]);
        i = i + 1;
        assert(r@ =~= s@.subrange(lo as int, i as int));
    }
    r
}

pub fn trim_chars(s: &[char]) -> (r: Vec<char>)
    ensures
        r@ == trim(s@),
{
    let n = s.len();
    let mut lo: usize = 0;
    assert(s@.skip(0) =~= s@);
    while lo < n && is_whitespace(s[lo])
        invariant
            lo <= n == s@.len(),
            trim_start(s@) == trim_start(s@.skip(lo as int)),
        decreases n - lo,
    {
        assert(s@.skip(lo as int).drop_first() =~= s@.skip(lo + 1));
        lo = lo + 1;
    }
    let ghost t = s@.skip(lo as int);
    assert(trim_start(s@) == t);
    let mut hi: usize = n;
    while hi > lo && is_whitespace(s[hi - 1])
        invariant
            lo <= hi <= n == s@.len(),
            t == s@.skip(lo as int),
            trim_end(t) == trim_end(s@.subrange(lo as int, hi as int)),
        decreases hi - lo,
    {
        assert(s@.subrange(lo as int, hi as int).drop_last() =~= s@.subrange(lo as int, hi - 1));
        hi = hi - 1;
    }
    assert(t =~= s@.subrange(lo as int, n as int));
    sub_chars(s, lo, hi)
}

/// Splits `s` at every occurrence of `sep` (`str::split` with a char).
pub open spec fn split(s: Seq<char>, sep: char) -> Seq<Seq<char>>
    decreases s.len(),
{
    if s.len() == 0 {
        seq![Seq::<char>::empty()]
    } else {
        let parts = split(s.drop_last(), sep);
        if s.last() == sep {
            parts.push(Seq::<char>::empty())
        } else {
            parts.update(parts.len() - 1, parts.last().push(s.last()))
        }
    }
}

pub proof fn lemma_split_nonempty(s: Seq<char>, sep: char)
    ensures
        split(s, sep).len() >= 1,
    decreases s.len(),
{
    if s.len() > 0 {
        lemma_split_nonempty(s.drop_last(), sep);
    }
}

/// The character sequences held by a sequence of vectors.
pub open spec fn views(v: Seq<Vec<char>>) -> Seq<Seq<char>> {
    Seq::new(v.len(), |i: int| v[i]@)
}

pub fn split_chars(s: &[char], sep: char) -> (parts: Vec<Vec<char>>)
    ensures
        views(parts@) == split(s@, sep),
{
    let mut parts: Vec<Vec<char>> = Vec::new();
    let mut cur: Vec<char> = Vec::new();
    let mut i: usize = 0;
    while i < s.len()
        invariant
            i <= s@.len(),
            split(s@.take(i as int), sep) == views(parts@).push(cur@),
        decreases s@.len() - i,
    {
        let c = s[i];
        proof {
            lemma_split_nonempty(s@.take(i as int), sep);
            assert(s@.take(i + 1).drop_last() =~= s@.take(i as int));
        }
        if c == sep {
            let ghost old_parts = views(parts@);
            let ghost old_cur = cur@;
            let done = cur;
            parts.push(done);
            cur = Vec::new();
            assert(views(parts@) =~= old_parts.push(old_cur));
            assert(split(s@.take(i + 1), sep) =~= views(parts@).push(cur@));
        } else {
            cur.push(c);
            assert(split(s@.take(i + 1), sep) =~= views(parts@).push(cur@));
        }
        i = i + 1;
    }
    assert(s@.take(s@.len() as int) =~= s@);
    let ghost before = views(parts@);
    parts.push(cur);
    assert(views(parts@) =~= before.push(cur@));
    parts
}

/// The value of `c` as a digit in base `radix` (`char::to_digit`).
pub open spec fn digit_value(c: char, radix: nat) -> Option<nat> {
    let u = c as u32;
    let v: int = if 0x30 <= u <= 0x39 {
        u - 0x30
    } else if 0x61 <= u <= 0x7A {
        u - 0x61 + 10
    } else if 0x41 <= u <= 0x5A {
        u - 0x41 + 10
    } else {
        99
    };
    if v < radix {
        Some(v as nat)
    } else {
        None
    }
}

pub open spec fn all_digits(d: Seq<char>, radix: nat) -> bool {
    forall|i: int| 0 <= i < d.len() ==> (#[trigger] digit_value(d[i], radix)) is Some
}

/// The number written by the digits `d` in base `radix`.
pub open spec fn digits_value(d: Seq<char>, radix: nat) -> nat
    decreases d.len(),
{
    if d.len() == 0 {
        0
    } else {
        digits_value(d.drop_last(), radix) * radix + digit_value(d.last(), radix).unwrap_or(0)
    }
}

/// What std's unsigned `from_str_radix` gives for `s`: an optional `+`,
/// then at least one digit, and a value no larger than `max`.
pub open spec fn parse_uint(s: Seq<char>, radix: nat, max: nat) -> Option<nat> {
    let d = if s.len() > 0 && s[0] == '+' {
        s.drop_first()
    } else {
        s
    };
    if d.len() == 0 || !all_digits(d, radix) || digits_value(d, radix) > max {
        None
    } else {
        Some(digits_value(d, radix))
    }
}

proof fn lemma_digits_value_prefix(d: Seq<char>, radix: nat, k: int)
    requires
        0 <= k <= d.len(),
        radix >= 1,
    ensures
        digits_value(d.take(k), radix) <= digits_value(d, radix),
    decreases d.len(),
{
    if k < d.len() {
        assert(d.drop_last().take(k) =~= d.take(k));
        lemma_digits_value_prefix(d.drop_last(), radix, k);
        let a = digits_value(d.drop_last(), radix);
        assert(a <= a * radix) by (nonlinear_arith)
            requires radix >= 1;
    } else {
        assert(d.take(k) =~= d);
    }
}

pub fn digit_of(c: char, radix: u32) -> (r: Option<u32>)
    requires
        2 <= radix <= 36,
    ensures
        r matches Some(v) ==> digit_value(c, radix as nat) == Some(v as nat),
        r is None ==> digit_value(c, radix as nat) is None,
{
    let u = c as u32;
    let v: u32 = if 0x30 <= u && u <= 0x39 {
        u - 0x30
    } else if 0x61 <= u && u <= 0x7A {
        u - 0x61 + 10
    } else if 0x41 <= u && u <= 0x5A {
        u - 0x41 + 10
    } else {
        99
    };
    if v < radix {
        Some(v)
    } else {
        None
    }
}

/// Parses an unsigned number as std's `from_str_radix` does, bounded by `max`.
pub fn parse_unsigned(s: &[char], radix: u32, max: u64) -> (r: Option<u64>)
    requires
        2 <= radix <= 16,
    ensures
        r matches Some(v) ==> parse_uint(s@, radix as nat, max as nat) == Some(v as nat),
        r is None ==> parse_uint(s@, radix as nat, max as nat) is None,
{
    let start: usize = if s.len() > 0 && s[0] == '+' {
        1
    } else {
        0
    };
    let ghost d = if s@.len() > 0 && s@[0] == '+' {
        s@.drop_first()
    } else {
        s@
    };
    assert(d =~= s@.skip(start as int));
    if start == s.len() {
        return None;
    }
    let mut val: u128 = 0;
    let mut over = false;
    let mut i = start;
    while i < s.len()
        invariant
            start <= i <= s@.len(),
            d == s@.skip(start as int),
            d == (if s@.len() > 0 && s@[0] == '+' {
                s@.drop_first()
            } else {
                s@
            }),
            2 <= radix <= 16,
            all_digits(d.take(i - start), radix as nat),
            !over ==> val as nat == digits_value(d.take(i - start), radix as nat),
            !over ==> val <= max,
            over ==> digits_value(d.take(i - start), radix as nat) > max,
        decreases s@.len() - i,
    {
        let ghost k = i - start;
        assert(d.take(k + 1).drop_last() =~= d.take(k));
        assert(d.take(k + 1).last() == s@[i as int]);
        match digit_of(s[i], radix) {
            None => {
                assert(d[k] == s@[i as int]);
                assert(digit_value(d[k], radix as nat) is None);
                assert(!all_digits(d, radix as nat));
                assert(d.len() > 0);
                assert(parse_uint(s@, radix as nat, max as nat) is None);
                return None;
            },
            Some(dv) => {
                assert forall|j: int| 0 <= j < k + 1 implies (#[trigger] digit_value(
                    d.take(k + 1)[j],
                    radix as nat,
                )) is Some by {
                    if j < k {
                        assert(d.take(k + 1)[j] == d.take(k)[j]);
                    }
                }
                if over {
                    let ghost a = digits_value(d.take(k), radix as nat);
                    assert(a <= a * radix) by (nonlinear_arith)
                        requires radix >= 1;
                } else {
                    assert(val * radix as u128 <= 16 * 0xFFFF_FFFF_FFFF_FFFFu128) by (nonlinear_arith)
                        requires val <= 0xFFFF_FFFF_FFFF_FFFFu128, radix <= 16;
                    val = val * radix as u128 + dv as u128;
                    if val > max as u128 {
                        over = true;
                    }
                }
            },
        }
        i = i + 1;
    }
    assert(d.take(s@.len() - start) =~= d);
    if over {
        None
    } else {
        Some(val as u64)
    }
}

/// XOR of all bytes of `s`.
pub open spec fn xor_bytes(s: Seq<u8>) -> u8
    decreases s.len(),
{
    if s.len() == 0 {
        0
    } else {
        xor_bytes(s.drop_last()) ^ s.last()
    }
}

/// XOR of all bytes of the UTF-8 encoding of `cs`.
pub open spec fn xor_utf8(cs: Seq<char>) -> u8
    decreases cs.len(),
{
    if cs.len() == 0 {
        0
    } else {
        xor_utf8(cs.drop_last()) ^ xor_bytes(encode_scalar(cs.last() as u32))
    }
}

/// XOR of the bytes of the UTF-8 encoding of one character.
pub fn utf8_xor(c: char) -> (r: u8)
    ensures
        r == xor_bytes(encode_scalar(c as u32)),
{
    let u = c as u32;
    proof {
        char_is_scalar(c);
    }
    if u <= 0x7F {
        let b1 = (u & 0x7F) as u8;
        assert(encode_scalar(u) =~= seq![b1]);
        proof {
            lemma_xor_bytes_1(b1);
        }
        b1
    } else if u <= 0x7FF {
        let b1 = 0xC0u8 | ((u >> 6) & 0x1F) as u8;
        let b2 = 0x80u8 | (u & 0x3F) as u8;
        assert(encode_scalar(u) =~= seq![b1, b2]);
        proof {
            lemma_xor_bytes_1(b1);
            assert(seq![b1, b2].drop_last() =~= seq![b1]);
            assert(xor_bytes(seq![b1, b2]) == xor_bytes(seq![b1]) ^ b2);
        }
        b1 ^ b2
    } else if u <= 0xFFFF {
        let b1 = 0xE0u8 | ((u >> 12) & 0x0F) as u8;
        let b2 = 0x80u8 | ((u >> 6) & 0x3F) as u8;
        let b3 = 0x80u8 | (u & 0x3F) as u8;
        assert(encode_scalar(u) =~= seq![b1, b2, b3]);
        proof {
            lemma_xor_bytes_1(b1);
            assert(seq![b1, b2].drop_last() =~= seq![b1]);
            assert(seq![b1, b2, b3].drop_last() =~= seq![b1, b2]);
            assert(xor_bytes(seq![b1, b2]) == xor_bytes(seq![b1]) ^ b2);
            assert(xor_bytes(seq![b1, b2, b3]) == xor_bytes(seq![b1, b2]) ^ b3);
        }
        b1 ^ b2 ^ b3
    } else {
        let b1 = 0xF0u8 | ((u >> 18) & 0x7) as u8;
        let b2 = 0x80u8 | ((u >> 12) & 0x3F) as u8;
        let b3 = 0x80u8 | ((u >> 6) & 0x3F) as u8;
        let b4 = 0x80u8 | (u & 0x3F) as u8;
        assert(encode_scalar(u) =~= seq![b1, b2, b3, b4]);
        proof {
            lemma_xor_bytes_1(b1);
            assert(seq![b1, b2].drop_last() =~= seq![b1]);
            assert(seq![b1, b2, b3].drop_last() =~= seq![b1, b2]);
            assert(seq![b1, b2, b3, b4].drop_last() =~= seq![b1, b2, b3]);
            assert(xor_bytes(seq![b1, b2]) == xor_bytes(seq![b1]) ^ b2);
            assert(xor_bytes(seq![b1, b2, b3]) == xor_bytes(seq![b1, b2]) ^ b3);
            assert(xor_bytes(seq![b1, b2, b3, b4]) == xor_bytes(seq![b1, b2, b3]) ^ b4);
        }
        b1 ^ b2 ^ b3 ^ b4
    }
}

proof fn lemma_xor_bytes_1(b: u8)
    ensures
        xor_bytes(seq![b]) == b,
{
    assert(seq![b].drop_last() =~= Seq::<u8>::empty());
    assert(xor_bytes(Seq::<u8>::empty()) == 0);
    assert(xor_bytes(seq![b]) == xor_bytes(seq![b].drop_last()) ^ b);
    assert(0u8 ^ b == b) by (bit_vector);
}

/// XOR of the UTF-8 bytes of `cs`, the NMEA checksum of a sentence body.
pub fn checksum_of(cs: &[char]) -> (r: u8)
    ensures
        r == xor_utf8(cs@),
{
    let mut acc: u8 = 0;
    let mut i: usize = 0;
    while i < cs.len()
        invariant
            i <= cs@.len(),
            acc == xor_utf8(cs@.take(i as int)),
        decreases cs@.len() - i,
    {
        assert(cs@.take(i + 1).drop_last() =~= cs@.take(i as int));
        acc = acc ^ utf8_xor(cs[i]);
        i = i + 1;
    }
    assert(cs@.take(cs@.len() as int) =~= cs@);
    acc
}

} // verus!
