//! Identifier and hash newtypes: content digests render as `sha256-<64 hex>`,
//! ULIDs as 26 Crockford base-32 symbols, and schema tags as
//! `drakkar.<name>/<major>`.

use vstd::prelude::*;

use crate::text::{
    chars_eq, chars_of, nat_decimal, parse_unsigned, parse_unsigned_chars, push_char, push_str,
    push_u64, string_of,
};

verus! {

/// The lowercase hexadecimal digit for `n < 16`.
pub open spec fn hex_char(n: nat) -> char {
    if n < 10 {
        crate::text::digit_char(n)
    } else if n == 10 {
        'a'
    } else if n == 11 {
        'b'
    } else if n == 12 {
        'c'
    } else if n == 13 {
        'd'
    } else if n == 14 {
        'e'
    } else {
        'f'
    }
}

/// Whether `c` is a hexadecimal digit (either case), as `char::to_digit(16)`
/// accepts.
pub open spec fn is_hex(c: char) -> bool {
    ('0' <= c && c <= '9') || ('a' <= c && c <= 'f') || ('A' <= c && c <= 'F')
}

/// The value of a hexadecimal digit.
pub open spec fn hex_value(c: char) -> nat {
    if '0' <= c && c <= '9' {
        (c as int - '0' as int) as nat
    } else if 'a' <= c && c <= 'f' {
        (c as int - 'a' as int + 10) as nat
    } else {
        (c as int - 'A' as int + 10) as nat
    }
}

/// The two-digit lowercase hex rendering of every byte, in order.
pub open spec fn hex_of(bytes: Seq<u8>) -> Seq<char>
    decreases bytes.len(),
{
    if bytes.len() == 0 {
        Seq::empty()
    } else {
        hex_of(bytes.drop_last()).push(hex_char((bytes.last() / 16) as nat)).push(
            hex_char((bytes.last() % 16) as nat),
        )
    }
}

/// The bytes a run of hex-digit pairs decodes to.
pub open spec fn bytes_of_hex(h: Seq<char>) -> Seq<u8> {
    Seq::new(h.len() / 2, |i: int| (hex_value(h[2 * i]) * 16 + hex_value(h[2 * i + 1])) as u8)
}

/// The text a digest renders to: `sha256-` and 64 lowercase hex digits.
pub open spec fn sha256_text(bytes: Seq<u8>) -> Seq<char> {
    "sha256-"@ + hex_of(bytes)
}

/// What parsing `s` as a digest yields: the 32 bytes when `s` is `sha256-`
/// followed by exactly 64 hex digits (either case), else `None`.
pub open spec fn sha256_parse(s: Seq<char>) -> Option<Seq<u8>> {
    if s.len() == 71 && s.subrange(0, 7) == "sha256-"@ && (forall|i: int|
        7 <= i < 71 ==> is_hex(#[trigger] s[i])) {
        Some(bytes_of_hex(s.subrange(7, 71)))
    } else {
        None
    }
}

fn hex_digit(n: u8) -> (c: char)
    requires
        n < 16,
    ensures
        c == hex_char(n as nat),
{
    if n < 10 {
        crate::text::digit_to_char(n as u64)
    } else if n == 10 {
        'a'
    } else if n == 11 {
        'b'
    } else if n == 12 {
        'c'
    } else if n == 13 {
        'd'
    } else if n == 14 {
        'e'
    } else {
        'f'
    }
}

fn hex_val(c: char) -> (r: Option<u8>)
    ensures
        r matches Some(v) ==> is_hex(c) && v as nat == hex_value(c) && v < 16,
        r is None ==> !is_hex(c),
{
    if '0' <= c && c <= '9' {
        Some((c as u32 - '0' as u32) as u8)
    } else if 'a' <= c && c <= 'f' {
        Some((c as u32 - 'a' as u32 + 10) as u8)
    } else if 'A' <= c && c <= 'F' {
        Some((c as u32 - 'A' as u32 + 10) as u8)
    } else {
        None
    }
}

/// Appends the lowercase hex rendering of `bytes` to `out`.
fn push_hex(out: &mut String, bytes: &[u8])
    ensures
        final(out)@ == old(out)@ + hex_of(bytes@),
{
    let mut i: usize = 0;
    assert(bytes@.subrange(0, 0) =~= Seq::<u8>::empty());
    assert(old(out)@ + hex_of(Seq::<u8>::empty()) =~= old(out)@);
    while i < bytes.len()
        invariant
            i <= bytes@.len(),
            out@ == old(out)@ + hex_of(bytes@.subrange(0, i as int)),
        decreases bytes@.len() - i,
    {
        let b = bytes[i];
        push_char(out, hex_digit(b / 16));
        push_char(out, hex_digit(b % 16));
        let ghost next = bytes@.subrange(0, i + 1);
        assert(next.drop_last() =~= bytes@.subrange(0, i as int));
        assert(next.last() == b);
        i = i + 1;
        assert(out@ =~= old(out)@ + hex_of(bytes@.subrange(0, i as int)));
    }
    assert(bytes@.subrange(0, bytes@.len() as int) =~= bytes@);
}

/// The rendering of a byte run has two characters per byte.
pub proof fn lemma_hex_of_len(bytes: Seq<u8>)
    ensures
        hex_of(bytes).len() == 2 * bytes.len(),
    decreases bytes.len(),
{
    if bytes.len() > 0 {
        lemma_hex_of_len(bytes.drop_last());
    }
}

/// Byte `i` renders to characters `2i` and `2i + 1`.
pub proof fn lemma_hex_of_index(bytes: Seq<u8>, i: int)
    requires
        0 <= i < bytes.len(),
    ensures
        hex_of(bytes)[2 * i] == hex_char((bytes[i] / 16) as nat),
        hex_of(bytes)[2 * i + 1] == hex_char((bytes[i] % 16) as nat),
    decreases bytes.len(),
{
    lemma_hex_of_len(bytes);
    lemma_hex_of_len(bytes.drop_last());
    if i < bytes.len() - 1 {
        lemma_hex_of_index(bytes.drop_last(), i);
    }
}

/// A SHA-256 content digest. Renders as `sha256-<64 lowercase hex>`; blob file
/// names in the content-addressed store are exactly this rendering.
#[derive(Clone, Copy, PartialEq, Eq, Hash, Debug)]
pub struct Sha256(pub [u8; 32]);

/// Error returned when a string is not a valid `sha256-<64 hex>` rendering;
/// carries the rejected text.
pub struct ParseSha256Error(pub String);

impl std::str::FromStr for Sha256 {
    type Err = ParseSha256Error;

    /// Parses a `sha256-<64 hex>` rendering, as [`Sha256::parse`].
    fn from_str(s: &str) -> (r: Result<Sha256, ParseSha256Error>)
        ensures
            r matches Ok(d) ==> sha256_parse(s@) == Some(d.0@),
            r matches Err(e) ==> sha256_parse(s@) is None && e.0@ == s@,
    {
        Sha256::parse(s)
    }
}

impl Sha256 {
    /// The 64-character lowercase hex body, without the `sha256-` prefix.
    pub fn to_hex(&self) -> (r: String)
        ensures
            r@ == hex_of(self.0@),
    {
        let mut s = String::new();
        push_hex(&mut s, self.0.as_slice());
        assert(s@ =~= hex_of(self.0@));
        s
    }

    /// The full rendering `sha256-<hex>`.
    pub fn render(&self) -> (r: String)
        ensures
            r@ == sha256_text(self.0@),
    {
        let mut s = String::new();
        push_str(&mut s, "sha256-");
        push_hex(&mut s, self.0.as_slice());
        assert(s@ =~= sha256_text(self.0@));
        s
    }

    /// Parses a `sha256-<64 hex>` rendering.
    pub fn parse(s: &str) -> (r: Result<Sha256, ParseSha256Error>)
        ensures
            r matches Ok(d) ==> sha256_parse(s@) == Some(d.0@),
            r matches Err(e) ==> sha256_parse(s@) is None && e.0@ == s@,
    {
        let v = chars_of(s);
        let prefix = chars_of("sha256-");
        proof {
            reveal_strlit("sha256-");
        }
        if v.len() != 71 || !chars_eq(&v.as_slice()[0..7], prefix.as_slice()) {
            proof {
                if v@.len() == 71 {
                    assert(v@.subrange(0, 7) != "sha256-"@);
                }
            }
            return Err(ParseSha256Error(s.to_owned()));
        }
        let mut out = [0u8; 32];
        let mut i: usize = 0;
        while i < 32
            invariant
                v@ == s@,
                v@.len() == 71,
                i <= 32,
                forall|j: int| 7 <= j < 7 + 2 * i ==> is_hex(#[trigger] v@[j]),
                forall|j: int|
                    0 <= j < i ==> #[trigger] out@[j] == (hex_value(v@[7 + 2 * j]) * 16
                        + hex_value(v@[7 + 2 * j + 1])) as u8,
            decreases 32 - i,
        {
            let hi = hex_val(v[7 + 2 * i]);
            let lo = hex_val(v[8 + 2 * i]);
            match (hi, lo) {
                (Some(h), Some(l)) => {
                    out[i] = h * 16 + l;
                },
                _ => {
                    proof {
                        assert(!is_hex(v@[7 + 2 * i]) || !is_hex(v@[8 + 2 * i]));
                    }
                    return Err(ParseSha256Error(s.to_owned()));
                },
            }
            i = i + 1;
        }
        assert(out@ =~= bytes_of_hex(s@.subrange(7, 71)));
        Ok(Sha256(out))
    }
}

/// A digest rendering parses back to the same digest.
pub proof fn lemma_sha256_round_trip(bytes: Seq<u8>)
    requires
        bytes.len() == 32,
    ensures
        sha256_parse(sha256_text(bytes)) == Some(bytes),
{
    let t = sha256_text(bytes);
    lemma_hex_of_len(bytes);
    reveal_strlit("sha256-");
    assert(t.subrange(0, 7) =~= "sha256-"@);
    assert forall|i: int| 7 <= i < 71 implies is_hex(#[trigger] t[i]) by {
        let k = (i - 7) / 2;
        lemma_hex_of_index(bytes, k);
        assert(i == 7 + 2 * k || i == 7 + 2 * k + 1);
    }
    let h = t.subrange(7, 71);
    assert forall|k: int| 0 <= k < 32 implies bytes_of_hex(h)[k] == bytes[k] by {
        lemma_hex_of_index(bytes, k);
        assert(h[2 * k] == hex_of(bytes)[2 * k]);
        assert(h[2 * k + 1] == hex_of(bytes)[2 * k + 1]);
    }
    assert(bytes_of_hex(h) =~= bytes);
}

/// A prefix hash at block granularity: one entry per full block of a prompt.
#[derive(Clone, Copy, PartialEq, Eq, Hash, Debug)]
pub struct PrefixHash(pub [u8; 32]);

impl PrefixHash {
    /// The 64-character lowercase hex rendering.
    pub fn to_hex(&self) -> (r: String)
        ensures
            r@ == hex_of(self.0@),
    {
        let mut s = String::new();
        push_hex(&mut s, self.0.as_slice());
        assert(s@ =~= hex_of(self.0@));
        s
    }
}

/// The ordered prefix hash chain for a prompt: one [`PrefixHash`] per full
/// block.
#[derive(Clone, PartialEq, Eq, Debug)]
pub struct PrefixHashChain(pub Vec<PrefixHash>);

impl Default for PrefixHashChain {
    /// The empty chain.
    fn default() -> (r: PrefixHashChain)
        ensures
            r.0@.len() == 0,
    {
        PrefixHashChain(Vec::new())
    }
}

/// A process-local sequence id, monotonically assigned per admitted sequence.
#[derive(Clone, Copy, PartialEq, Eq, Hash, Debug, PartialOrd, Ord, Structural)]
pub struct SeqId(pub u64);

/// An index into the physical block pool of one engine.
#[derive(Clone, Copy, PartialEq, Eq, Hash, Debug, PartialOrd, Ord, Structural)]
pub struct BlockId(pub u32);

/// A tokenizer vocabulary id.
#[derive(Clone, Copy, PartialEq, Eq, Hash, Debug, PartialOrd, Ord, Structural)]
pub struct TokenId(pub u32);

/// The Crockford base-32 alphabet a ULID renders with.
pub open spec fn crockford() -> Seq<char> {
    "0123456789ABCDEFGHJKMNPQRSTVWXYZ"@
}

/// The `n` least significant base-32 symbols of `v`, most significant first.
pub open spec fn base32_digits(v: nat, n: nat) -> Seq<char>
    decreases n,
{
    if n == 0 {
        Seq::empty()
    } else {
        base32_digits(v / 32, (n - 1) as nat).push(crockford()[(v % 32) as int])
    }
}

/// The canonical 26-symbol text of a ULID.
pub open spec fn ulid_text(v: u128) -> Seq<char> {
    base32_digits(v as nat, 26)
}

/// ASCII uppercase of one character (other characters are unchanged).
pub open spec fn ascii_upper(c: char) -> char {
    if 'a' <= c && c <= 'z' {
        ((c as int) - 32) as char
    } else {
        c
    }
}

/// The index of `c` in the alphabet, or `-1`.
pub open spec fn symbol_index(c: char) -> int {
    find_in(crockford(), c, 0)
}

/// The first index `j >= i` of `s` holding `c`, or `-1`.
pub open spec fn find_in(s: Seq<char>, c: char, i: int) -> int
    decreases s.len() - i,
{
    if i < 0 || i >= s.len() {
        -1
    } else if s[i] == c {
        i
    } else {
        find_in(s, c, i + 1)
    }
}

/// The exact base-32 value of a symbol run.
pub open spec fn base32_value(s: Seq<char>) -> nat
    decreases s.len(),
{
    if s.len() == 0 {
        0
    } else {
        base32_value(s.drop_last()) * 32 + symbol_index(ascii_upper(s.last())) as nat
    }
}

/// Whether every character is (case-insensitively) a Crockford symbol.
pub open spec fn all_symbols(s: Seq<char>) -> bool {
    forall|i: int| 0 <= i < s.len() ==> symbol_index(ascii_upper(#[trigger] s[i])) >= 0
}

/// What parsing `s` as a ULID yields: 26 symbols, case-insensitive, whose
/// base-32 value fits in 128 bits (so the first symbol is `0..=7`).
pub open spec fn ulid_parse(s: Seq<char>) -> Option<u128> {
    if s.len() == 26 && all_symbols(s) && base32_value(s)
        < 0x1_0000_0000_0000_0000_0000_0000_0000_0000nat {
        Some(base32_value(s) as u128)
    } else {
        None
    }
}

proof fn lemma_crockford_index(d: int)
    requires
        0 <= d < 32,
    ensures
        symbol_index(crockford()[d]) == d,
        ascii_upper(crockford()[d]) == crockford()[d],
{
    reveal_strlit("0123456789ABCDEFGHJKMNPQRSTVWXYZ");
    assert(crockford().len() == 32);
    lemma_find_in_distinct(crockford(), d, 0);
}

proof fn lemma_find_in_distinct(s: Seq<char>, d: int, i: int)
    requires
        0 <= i <= d < s.len(),
        s == crockford(),
        s.len() == 32,
        forall|a: int, b: int| 0 <= a < b < 32 ==> s[a] != s[b],
    ensures
        find_in(s, s[d], i) == d,
    decreases d - i,
{
    if i < d {
        lemma_find_in_distinct(s, d, i + 1);
    }
}

/// A ULID value (128 bits), rendered as its canonical 26-character Crockford
/// base-32 string.
#[derive(Clone, Copy, PartialEq, Eq, Hash, Debug, PartialOrd, Ord, Structural)]
pub struct Ulid(pub u128);

/// Error returned when a string is not a valid 26-character ULID; carries the
/// rejected text.
pub struct ParseUlidError(pub String);

fn crockford_chars() -> (r: Vec<char>)
    ensures
        r@ == crockford(),
        r@.len() == 32,
{
    let r = chars_of("0123456789ABCDEFGHJKMNPQRSTVWXYZ");
    proof {
        reveal_strlit("0123456789ABCDEFGHJKMNPQRSTVWXYZ");
    }
    r
}

impl std::str::FromStr for Ulid {
    type Err = ParseUlidError;

    /// Parses a 26-symbol ULID, as [`Ulid::parse`].
    fn from_str(s: &str) -> (r: Result<Ulid, ParseUlidError>)
        ensures
            r matches Ok(u) ==> ulid_parse(s@) == Some(u.0),
            r matches Err(e) ==> ulid_parse(s@) is None && e.0@ == s@,
    {
        Ulid::parse(s)
    }
}

impl Ulid {
    /// The canonical 26-symbol rendering, most significant first; the top
    /// symbol carries the high 2 bits, so it is always `0..=7`.
    pub fn render(&self) -> (r: String)
        ensures
            r@ == ulid_text(self.0),
    {
        let alphabet = crockford_chars();
        let mut buf: Vec<char> = Vec::new();
        let mut v = self.0;
        let mut k: usize = 0;
        proof {
            vstd::arithmetic::power::lemma_pow0(32);
            assert(self.0 as nat / 1nat == self.0 as nat);
        }
        while k < 26
            invariant
                alphabet@ == crockford(),
                alphabet@.len() == 32,
                k <= 26,
                buf@.len() == k,
                v as nat == self.0 as nat / vstd::arithmetic::power::pow(32, k as nat) as nat,
                forall|j: int|
                    0 <= j < k ==> #[trigger] buf@[j] == base32_digits(self.0 as nat, 26)[25 - j],
            decreases 26 - k,
        {
            proof {
                lemma_base32_digit_at(self.0 as nat, 26, k as nat);
                vstd::arithmetic::power::lemma_pow_positive(32, k as nat);
                vstd::arithmetic::div_mod::lemma_div_denominator(
                    self.0 as int,
                    vstd::arithmetic::power::pow(32, k as nat),
                    32,
                );
                vstd::arithmetic::power::lemma_pow_adds(32, k as nat, 1);
                vstd::arithmetic::power::lemma_pow1(32);
            }
            buf.push(alphabet[(v % 32) as usize]);
            v = v / 32;
            k = k + 1;
        }
        let mut s = String::new();
        let mut i: usize = 26;
        while i > 0
            invariant
                i <= 26,
                buf@.len() == 26,
                forall|j: int|
                    0 <= j < 26 ==> #[trigger] buf@[j] == base32_digits(self.0 as nat, 26)[25 - j],
                s@ == base32_digits(self.0 as nat, 26).subrange(0, 26 - i),
            decreases i,
        {
            push_char(&mut s, buf[i - 1]);
            i = i - 1;
            proof {
                lemma_base32_digits_len(self.0 as nat, 26);
            }
            assert(s@ =~= base32_digits(self.0 as nat, 26).subrange(0, 26 - i));
        }
        proof {
            lemma_base32_digits_len(self.0 as nat, 26);
        }
        assert(s@ =~= ulid_text(self.0));
        s
    }

    /// Parses a 26-symbol ULID, accepting either case.
    pub fn parse(s: &str) -> (r: Result<Ulid, ParseUlidError>)
        ensures
            r matches Ok(u) ==> ulid_parse(s@) == Some(u.0),
            r matches Err(e) ==> ulid_parse(s@) is None && e.0@ == s@,
    {
        let v = chars_of(s);
        if v.len() != 26 {
            return Err(ParseUlidError(s.to_owned()));
        }
        let alphabet = crockford_chars();
        let mut acc: u128 = 0;
        let mut i: usize = 0;
        while i < 26
            invariant
                v@ == s@,
                v@.len() == 26,
                alphabet@ == crockford(),
                alphabet@.len() == 32,
                i <= 26,
                all_symbols(v@.subrange(0, i as int)),
                acc as nat == base32_value(v@.subrange(0, i as int)),
            decreases 26 - i,
        {
            let c = v[i];
            let up = if 'a' <= c && c <= 'z' {
                ((c as u8) - 32) as char
            } else {
                c
            };
            assert(up == ascii_upper(c));
            let mut d: usize = 0;
            while d < 32 && alphabet[d] != up
                invariant
                    alphabet@ == crockford(),
                    alphabet@.len() == 32,
                    d <= 32,
                    symbol_index(up) == find_in(crockford(), up, d as int),
                decreases 32 - d,
            {
                d = d + 1;
            }
            let ghost prefix = v@.subrange(0, i + 1);
            assert(prefix.drop_last() =~= v@.subrange(0, i as int));
            assert(prefix.last() == c);
            if d == 32 {
                assert(!all_symbols(v@)) by {
                    assert(symbol_index(ascii_upper(v@[i as int])) < 0);
                }
                return Err(ParseUlidError(s.to_owned()));
            }
            if acc >= 0x0800_0000_0000_0000_0000_0000_0000_0000 {
                assert(base32_value(v@) >= 0x1_0000_0000_0000_0000_0000_0000_0000_0000nat) by {
                    assert(base32_value(prefix) == acc as nat * 32 + d);
                    lemma_base32_value_grows(v@, i + 1);
                }
                return Err(ParseUlidError(s.to_owned()));
            }
            acc = acc * 32 + d as u128;
            i = i + 1;
            assert(all_symbols(v@.subrange(0, i as int)));
        }
        assert(v@.subrange(0, 26) =~= v@);
        Ok(Ulid(acc))
    }
}

/// A run's value is at least the value of any of its prefixes.
proof fn lemma_base32_value_grows(s: Seq<char>, j: int)
    requires
        0 <= j <= s.len(),
    ensures
        base32_value(s.subrange(0, j)) <= base32_value(s),
    decreases s.len(),
{
    if j == s.len() {
        assert(s.subrange(0, j) =~= s);
    } else {
        lemma_base32_value_grows(s.drop_last(), j);
        assert(s.drop_last().subrange(0, j) =~= s.subrange(0, j));
    }
}

proof fn lemma_base32_digits_len(v: nat, n: nat)
    ensures
        base32_digits(v, n).len() == n,
    decreases n,
{
    if n > 0 {
        lemma_base32_digits_len(v / 32, (n - 1) as nat);
    }
}

proof fn lemma_base32_digit_at(v: nat, n: nat, k: nat)
    requires
        k < n,
    ensures
        base32_digits(v, n)[n - 1 - k] == crockford()[((v / vstd::arithmetic::power::pow(
            32,
            k,
        ) as nat) % 32) as int],
    decreases n,
{
    lemma_base32_digits_len(v, n);
    lemma_base32_digits_len(v / 32, (n - 1) as nat);
    let s = base32_digits(v, n);
    if k == 0 {
        vstd::arithmetic::power::lemma_pow0(32);
        assert(v / 1 == v);
        assert(s[n - 1] == crockford()[(v % 32) as int]);
    } else {
        let km: nat = (k - 1) as nat;
        lemma_base32_digit_at(v / 32, (n - 1) as nat, km);
        let p = vstd::arithmetic::power::pow(32, km);
        vstd::arithmetic::power::lemma_pow_positive(32, km);
        vstd::arithmetic::div_mod::lemma_div_denominator(v as int, 32, p);
        vstd::arithmetic::power::lemma_pow_adds(32, 1, km);
        vstd::arithmetic::power::lemma_pow1(32);
        assert(1 + km == k);
        assert(vstd::arithmetic::power::pow(32, k) == 32 * p);
        assert((v / 32) / (p as nat) == v / (vstd::arithmetic::power::pow(32, k) as nat));
        assert(s[n - 1 - k] == base32_digits(v / 32, (n - 1) as nat)[(n - 1) - 1 - km]);
    }
}

/// Parsing the symbols of `v` recovers `v` modulo the symbol count's range.
proof fn lemma_base32_value_of_digits(v: nat, n: nat)
    ensures
        base32_value(base32_digits(v, n)) == v % vstd::arithmetic::power::pow(32, n) as nat,
    decreases n,
{
    vstd::arithmetic::power::lemma_pow_positive(32, n);
    if n == 0 {
        vstd::arithmetic::power::lemma_pow0(32);
        assert(base32_digits(v, n) =~= Seq::<char>::empty());
    } else {
        let s = base32_digits(v, n);
        lemma_base32_value_of_digits(v / 32, (n - 1) as nat);
        assert(s.drop_last() == base32_digits(v / 32, (n - 1) as nat));
        lemma_crockford_index((v % 32) as int);
        vstd::arithmetic::power::lemma_pow_positive(32, (n - 1) as nat);
        vstd::arithmetic::power::lemma_pow_adds(32, 1, (n - 1) as nat);
        vstd::arithmetic::power::lemma_pow1(32);
        vstd::arithmetic::div_mod::lemma_mod_breakdown(
            v as int,
            32,
            vstd::arithmetic::power::pow(32, (n - 1) as nat),
        );
    }
}

/// Every symbol of a rendering is a Crockford symbol.
proof fn lemma_base32_digits_symbols(v: nat, n: nat)
    ensures
        all_symbols(base32_digits(v, n)),
    decreases n,
{
    if n > 0 {
        lemma_base32_digits_symbols(v / 32, (n - 1) as nat);
        lemma_crockford_index((v % 32) as int);
        let s = base32_digits(v, n);
        assert forall|i: int| 0 <= i < s.len() implies symbol_index(
            ascii_upper(#[trigger] s[i]),
        ) >= 0 by {
            lemma_base32_digits_len(v / 32, (n - 1) as nat);
            if i < s.len() - 1 {
                assert(s[i] == base32_digits(v / 32, (n - 1) as nat)[i]);
            }
        }
    }
}

/// A ULID rendering parses back to the same ULID.
pub proof fn lemma_ulid_round_trip(v: u128)
    ensures
        ulid_parse(ulid_text(v)) == Some(v),
{
    lemma_base32_digits_len(v as nat, 26);
    lemma_base32_digits_symbols(v as nat, 26);
    lemma_base32_value_of_digits(v as nat, 26);
    assert(vstd::arithmetic::power::pow(32, 26) == 0x4_0000_0000_0000_0000_0000_0000_0000_0000int)
        by {
        reveal_with_fuel(vstd::arithmetic::power::pow, 27);
    }
    vstd::arithmetic::div_mod::lemma_small_mod(v as nat, 0x4_0000_0000_0000_0000_0000_0000_0000_0000nat);
    assert(base32_value(ulid_text(v)) == v as nat);
}

/// A request identifier, unique per process lifetime.
#[derive(Clone, Copy, PartialEq, Eq, Hash, Debug, Structural)]
pub struct RequestId(pub Ulid);

/// The index of the last `c` in `s`, or `-1`.
pub open spec fn last_index(s: Seq<char>, c: char) -> int
    decreases s.len(),
{
    if s.len() == 0 {
        -1
    } else if s.last() == c {
        s.len() - 1
    } else {
        last_index(s.drop_last(), c)
    }
}

/// The `name` of a tag: everything before the final `/`, or the whole tag.
pub open spec fn tag_name(t: Seq<char>) -> Seq<char> {
    let i = last_index(t, '/');
    if i >= 0 {
        t.subrange(0, i)
    } else {
        t
    }
}

/// The `major` of a tag: the text after the final `/` parsed as a `u32`.
pub open spec fn tag_major(t: Seq<char>) -> Option<nat> {
    let i = last_index(t, '/');
    if i >= 0 {
        parse_unsigned(t.subrange(i + 1, t.len() as int), u32::MAX as nat)
    } else {
        None
    }
}

/// The parts of a well-formed `drakkar.<name>/<major>` tag: a non-empty name
/// between the `drakkar.` prefix and the final `/`, and a `u32` major.
pub open spec fn schema_tag_parse(t: Seq<char>) -> Option<(Seq<char>, nat)> {
    let i = last_index(t, '/');
    if t.len() >= 8 && t.subrange(0, 8) == "drakkar."@ && i > 8 && tag_major(t) is Some {
        Some((t.subrange(8, i), tag_major(t)->0))
    } else {
        None
    }
}

/// The tag text `drakkar.<name>/<major>`.
pub open spec fn schema_tag_text(name: Seq<char>, major: nat) -> Seq<char> {
    "drakkar."@ + name + seq!['/'] + nat_decimal(major)
}

proof fn lemma_last_index_bounds(s: Seq<char>, c: char)
    ensures
        -1 <= last_index(s, c) < s.len(),
        last_index(s, c) >= 0 ==> s[last_index(s, c)] == c,
        forall|j: int| last_index(s, c) < j < s.len() ==> s[j] != c,
    decreases s.len(),
{
    if s.len() > 0 && s.last() != c {
        lemma_last_index_bounds(s.drop_last(), c);
        assert forall|j: int| last_index(s, c) < j < s.len() implies s[j] != c by {
            if j < s.len() - 1 {
                assert(s.drop_last()[j] == s[j]);
            }
        }
    }
}

proof fn lemma_last_index_unique(s: Seq<char>, c: char, i: int)
    requires
        0 <= i < s.len(),
        s[i] == c,
        forall|j: int| i < j < s.len() ==> s[j] != c,
    ensures
        last_index(s, c) == i,
    decreases s.len(),
{
    if i < s.len() - 1 {
        lemma_last_index_unique(s.drop_last(), c, i);
    }
}

fn last_slash(v: &[char]) -> (r: Option<usize>)
    ensures
        r matches Some(i) ==> last_index(v@, '/') == i as int,
        r is None ==> last_index(v@, '/') == -1,
{
    let mut i = v.len();
    assert(v@.subrange(0, i as int) =~= v@);
    while i > 0
        invariant
            i <= v@.len(),
            last_index(v@, '/') == last_index(v@.subrange(0, i as int), '/'),
        decreases i,
    {
        let ghost pre = v@.subrange(0, i as int);
        if v[i - 1] == '/' {
            return Some(i - 1);
        }
        assert(pre.drop_last() =~= v@.subrange(0, i - 1));
        i = i - 1;
    }
    None
}

/// A schema tag of the form `drakkar.<name>/<major>`.
#[derive(Clone, Copy, PartialEq, Eq, Hash)]
pub struct SchemaTag(pub &'static str);

/// The parts of a parsed schema tag: `drakkar.fit/1` has name `fit` and
/// major `1`.
pub struct ParsedSchemaTag {
    /// The name between `drakkar.` and the final `/`.
    pub name: String,
    /// The major version.
    pub major: u32,
}

impl SchemaTag {
    /// A schema tag from a static string literal such as `"drakkar.fit/1"`.
    pub fn new(tag: &'static str) -> (r: SchemaTag)
        ensures
            r.0 == tag,
    {
        SchemaTag(tag)
    }

    /// The tag text.
    pub fn as_str(&self) -> (r: &'static str)
        ensures
            r == self.0,
    {
        self.0
    }

    /// The `name` portion: everything before the final `/`, e.g.
    /// `"drakkar.fit"` for `"drakkar.fit/1"`.
    pub fn name(&self) -> (r: String)
        ensures
            r@ == tag_name(self.0@),
    {
        let v = chars_of(self.0);
        proof {
            lemma_last_index_bounds(v@, '/');
        }
        match last_slash(v.as_slice()) {
            Some(i) => string_of(v.as_slice(), 0, i),
            None => string_of(v.as_slice(), 0, v.len()),
        }
    }

    /// The `major` portion parsed as an integer, e.g. `1` for
    /// `"drakkar.fit/1"`; `None` when there is no `/major` suffix or it does
    /// not parse.
    pub fn major(&self) -> (r: Option<u32>)
        ensures
            r matches Some(m) ==> tag_major(self.0@) == Some(m as nat),
            r is None ==> tag_major(self.0@) is None,
    {
        let v = chars_of(self.0);
        match last_slash(v.as_slice()) {
            Some(i) => {
                proof {
                    lemma_last_index_bounds(v@, '/');
                }
                match parse_unsigned_chars(v.as_slice(), i + 1, v.len(), u32::MAX as u64) {
                    Some(m) => Some(m as u32),
                    None => None,
                }
            },
            None => None,
        }
    }

    /// Parses a tag of the form `drakkar.<name>/<major>`; `None` when the
    /// prefix is missing, the name is empty, or the major is missing or not a
    /// `u32`.
    pub fn parse(tag: &str) -> (r: Option<ParsedSchemaTag>)
        ensures
            r matches Some(p) ==> schema_tag_parse(tag@) == Some((p.name@, p.major as nat)),
            r is None ==> schema_tag_parse(tag@) is None,
    {
        let v = chars_of(tag);
        let prefix = chars_of("drakkar.");
        proof {
            reveal_strlit("drakkar.");
        }
        if v.len() < 8 || !chars_eq(&v.as_slice()[0..8], prefix.as_slice()) {
            return None;
        }
        match last_slash(v.as_slice()) {
            Some(i) => {
                proof {
                    lemma_last_index_bounds(v@, '/');
                }
                if i <= 8 {
                    return None;
                }
                match parse_unsigned_chars(v.as_slice(), i + 1, v.len(), u32::MAX as u64) {
                    Some(m) => Some(
                        ParsedSchemaTag { name: string_of(v.as_slice(), 8, i), major: m as u32 },
                    ),
                    None => None,
                }
            },
            None => None,
        }
    }
}

/// Renders `drakkar.<name>/<major>`.
pub fn render_schema_tag(name: &str, major: u32) -> (r: String)
    ensures
        r@ == schema_tag_text(name@, major as nat),
{
    let mut s = String::new();
    push_str(&mut s, "drakkar.");
    push_str(&mut s, name);
    push_char(&mut s, '/');
    push_u64(&mut s, major as u64);
    assert(s@ =~= schema_tag_text(name@, major as nat));
    s
}

/// Decimal renderings are digit runs whose value is the number rendered.
pub proof fn lemma_nat_decimal_digits(n: nat)
    ensures
        crate::text::all_digits(nat_decimal(n)),
        crate::text::digits_value(nat_decimal(n)) == n,
        nat_decimal(n).len() > 0,
        nat_decimal(n)[0] != '+',
        !nat_decimal(n).contains('/'),
    decreases n,
{
    if n < 10 {
        crate::text::lemma_digit_char_value(n);
        let s = nat_decimal(n);
        assert(s.drop_last() =~= Seq::<char>::empty());
        assert(crate::text::digits_value(Seq::<char>::empty()) == 0);
        assert(crate::text::digits_value(s) == crate::text::digits_value(s.drop_last()) * 10
            + crate::text::digit_value(s.last()));
    } else {
        lemma_nat_decimal_digits(n / 10);
        let s = nat_decimal(n);
        assert(s.drop_last() =~= nat_decimal(n / 10));
        crate::text::lemma_digit_char_value((n % 10) as nat);
        assert(s.last() == crate::text::digit_char((n % 10) as nat));
        assert(crate::text::digits_value(s) == crate::text::digits_value(s.drop_last()) * 10
            + crate::text::digit_value(s.last()));
        assert(crate::text::digits_value(s) == (n / 10) * 10 + n % 10);
        assert forall|i: int| 0 <= i < s.len() implies crate::text::is_digit(#[trigger] s[i]) by {
            if i < s.len() - 1 {
                assert(s[i] == nat_decimal(n / 10)[i]);
            }
        }
        if s.contains('/') {
            let j = choose|j: int| 0 <= j < s.len() && s[j] == '/';
            assert(crate::text::is_digit(s[j]));
        }
    }
}

/// Rendering a tag and parsing it back gives the same name and major.
pub proof fn lemma_schema_tag_round_trip(name: Seq<char>, major: nat)
    requires
        name.len() > 0,
        major <= u32::MAX,
    ensures
        schema_tag_parse(schema_tag_text(name, major)) == Some((name, major)),
{
    let t = schema_tag_text(name, major);
    let d = nat_decimal(major);
    reveal_strlit("drakkar.");
    lemma_nat_decimal_digits(major);
    let i: int = 8 + name.len() as int;
    assert(t[i] == '/');
    assert forall|j: int| i < j < t.len() implies t[j] != '/' by {
        assert(t[j] == d[j - i - 1]);
    }
    lemma_last_index_unique(t, '/', i);
    assert(t.subrange(0, 8) =~= "drakkar."@);
    assert(t.subrange(8, i) =~= name);
    assert(t.subrange(i + 1, t.len() as int) =~= d);
}

} // verus!
