use std::collections::hash_map::DefaultHasher;
use std::hash::Hasher;
use vstd::prelude::*;
use vstd::std_specs::hash::DefaultHasherAdditionalSpecFns;
use vstd::string::*;
use vstd::utf8::*;

verus! {

/// The lowercase hexadecimal digit for `d` (meaningful for `d < 16`).
pub open spec fn hex_digit(d: nat) -> char {
    if d == 0 { '0' } else if d == 1 { '1' } else if d == 2 { '2' } else if d == 3 { '3' }
    else if d == 4 { '4' } else if d == 5 { '5' } else if d == 6 { '6' } else if d == 7 { '7' }
    else if d == 8 { '8' } else if d == 9 { '9' } else if d == 10 { 'a' } else if d == 11 { 'b' }
    else if d == 12 { 'c' } else if d == 13 { 'd' } else if d == 14 { 'e' } else { 'f' }
}

/// `n` written in lowercase hexadecimal, most significant digit first, without
/// leading zeros (zero is written `0`).
pub open spec fn hex_digits(n: nat) -> Seq<char>
    decreases n,
{
    if n < 16 {
        seq![hex_digit(n)]
    } else {
        hex_digits(n / 16).push(hex_digit(n % 16))
    }
}

/// The byte strings fed to the hasher, in order: each text field's UTF-8 bytes
/// followed by the terminator byte `0xff`, which never occurs in UTF-8.
pub open spec fn fingerprint_writes(name: Seq<char>, code: Seq<char>, url: Seq<char>) -> Seq<Seq<u8>> {
    seq![encode_utf8(name), seq![0xffu8], encode_utf8(code), seq![0xffu8], encode_utf8(url), seq![0xffu8]]
}

/// The 64-bit digest of a (name, code, url) triple under std's `DefaultHasher`
/// created with `DefaultHasher::new` (fixed keys, no per-process seed).
pub open spec fn digest_of(name: Seq<char>, code: Seq<char>, url: Seq<char>) -> u64 {
    DefaultHasher::spec_finish(fingerprint_writes(name, code, url))
}

/// The identity fingerprint of a (name, code, url) triple: its digest in hex.
pub open spec fn fingerprint_of(name: Seq<char>, code: Seq<char>, url: Seq<char>) -> Seq<char> {
    hex_digits(digest_of(name, code, url) as nat)
}

fn hex_digit_str(d: u64) -> (r: &'static str)
    requires
        d < 16,
    ensures
        r@ == seq![hex_digit(d as nat)],
{
    proof {
        reveal_strlit("0");
        reveal_strlit("1");
        reveal_strlit("2");
        reveal_strlit("3");
        reveal_strlit("4");
        reveal_strlit("5");
        reveal_strlit("6");
        reveal_strlit("7");
        reveal_strlit("8");
        reveal_strlit("9");
        reveal_strlit("a");
        reveal_strlit("b");
        reveal_strlit("c");
        reveal_strlit("d");
        reveal_strlit("e");
        reveal_strlit("f");
    }
    if d == 0 { "0" } else if d == 1 { "1" } else if d == 2 { "2" } else if d == 3 { "3" }
    else if d == 4 { "4" } else if d == 5 { "5" } else if d == 6 { "6" } else if d == 7 { "7" }
    else if d == 8 { "8" } else if d == 9 { "9" } else if d == 10 { "a" } else if d == 11 { "b" }
    else if d == 12 { "c" } else if d == 13 { "d" } else if d == 14 { "e" } else { "f" }
}

/// `n` in lowercase hexadecimal without leading zeros.
pub fn hex_string(n: u64) -> (r: String)
    ensures
        r@ == hex_digits(n as nat),
    decreases n,
{
    if n < 16 {
        String::from_str(hex_digit_str(n))
    } else {
        let mut s = hex_string(n / 16);
        s.append(hex_digit_str(n % 16));
        s
    }
}

/// The deduplication fingerprint of a candidate: a pure function of its name,
/// code and URL, stable across runs because the hasher is unseeded.
pub fn fingerprint(name: &str, code: &str, url: &str) -> (r: String)
    ensures
        r@ == fingerprint_of(name@, code@, url@),
{
    let terminator: Vec<u8> = vec![0xffu8];
    let mut hasher = DefaultHasher::new();
    hasher.write(name.as_bytes());
    hasher.write(terminator.as_slice());
    hasher.write(code.as_bytes());
    hasher.write(terminator.as_slice());
    hasher.write(url.as_bytes());
    hasher.write(terminator.as_slice());
    proof {
        assert(terminator@ =~= seq![0xffu8]);
        assert(hasher@ =~= fingerprint_writes(name@, code@, url@));
    }
    hex_string(hasher.finish())
}

proof fn lemma_hex_digit_injective(a: nat, b: nat)
    requires
        a < 16,
        b < 16,
        hex_digit(a) == hex_digit(b),
    ensures
        a == b,
{
}

proof fn lemma_hex_digits_nonempty(n: nat)
    ensures
        hex_digits(n).len() >= 1,
    decreases n,
{
    if n >= 16 {
        lemma_hex_digits_nonempty(n / 16);
    }
}

/// Distinct numbers have distinct hexadecimal renderings.
pub proof fn lemma_hex_digits_injective(n: nat, m: nat)
    ensures
        hex_digits(n) == hex_digits(m) <==> n == m,
    decreases n,
{
    if hex_digits(n) == hex_digits(m) {
        if n < 16 && m < 16 {
            assert(hex_digits(n)[0] == hex_digits(m)[0]);
            lemma_hex_digit_injective(n, m);
        } else if n < 16 {
            lemma_hex_digits_nonempty(m / 16);
            assert(hex_digits(m).len() >= 2);
        } else if m < 16 {
            lemma_hex_digits_nonempty(n / 16);
            assert(hex_digits(n).len() >= 2);
        } else {
            let hn = hex_digits(n);
            let hm = hex_digits(m);
            assert(hn.last() == hex_digit(n % 16));
            assert(hm.last() == hex_digit(m % 16));
            lemma_hex_digit_injective(n % 16, m % 16);
            assert(hex_digits(n / 16) == hn.drop_last());
            assert(hex_digits(m / 16) == hm.drop_last());
            lemma_hex_digits_injective(n / 16, m / 16);
        }
    }
}

/// Fingerprint determinism: the fingerprint is a function of the (name, code,
/// url) triple alone, so identical triples always get the identical
/// fingerprint. Conversely, the byte strings that are hashed determine the
/// triple: two triples that differ in any field feed the hasher different
/// input, and two fingerprints are equal exactly when the two 64-bit digests
/// are. (That distinct inputs give distinct digests is a property of the hash
/// function, not something proved here.)
pub proof fn lemma_fingerprint_determinism(
    n1: Seq<char>,
    c1: Seq<char>,
    u1: Seq<char>,
    n2: Seq<char>,
    c2: Seq<char>,
    u2: Seq<char>,
)
    ensures
        (n1 == n2 && c1 == c2 && u1 == u2) ==> fingerprint_of(n1, c1, u1) == fingerprint_of(n2, c2, u2),
        fingerprint_writes(n1, c1, u1) == fingerprint_writes(n2, c2, u2) <==> (n1 == n2 && c1 == c2 && u1 == u2),
        fingerprint_of(n1, c1, u1) == fingerprint_of(n2, c2, u2) <==> digest_of(n1, c1, u1) == digest_of(n2, c2, u2),
{
    let w1 = fingerprint_writes(n1, c1, u1);
    let w2 = fingerprint_writes(n2, c2, u2);
    if w1 == w2 {
        assert(w1[0] == w2[0]);
        assert(w1[2] == w2[2]);
        assert(w1[4] == w2[4]);
        encode_utf8_decode_utf8(n1);
        encode_utf8_decode_utf8(n2);
        encode_utf8_decode_utf8(c1);
        encode_utf8_decode_utf8(c2);
        encode_utf8_decode_utf8(u1);
        encode_utf8_decode_utf8(u2);
    }
    lemma_hex_digits_injective(digest_of(n1, c1, u1) as nat, digest_of(n2, c2, u2) as nat);
}

} // verus!
