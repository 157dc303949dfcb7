//! PKCE verifier/challenge generation.
//!
//! The code verifier is a random string over the unreserved URL alphabet; its
//! challenge is the base64url encoding, without padding, of the verifier's
//! SHA-256 digest. The encoding is specified here in full ([`b64url_of`]) and
//! also implemented as a verified function ([`b64url_encode`]); only the
//! digest itself is taken on trust.

use vstd::prelude::*;
use vstd::utf8::encode_utf8;

verus! {

/// The character at position `i` of the URL-safe base64 alphabet:
/// `A`-`Z`, `a`-`z`, `0`-`9`, `-`, `_`.
pub open spec fn b64url_char(i: int) -> char {
    if 0 <= i < 26 {
        ((('A' as u32) + i) as u32) as char
    } else if 26 <= i < 52 {
        ((('a' as u32) + (i - 26)) as u32) as char
    } else if 52 <= i < 62 {
        ((('0' as u32) + (i - 52)) as u32) as char
    } else if i == 62 {
        '-'
    } else {
        '_'
    }
}

/// Whether `c` belongs to the URL-safe base64 alphabet.
pub open spec fn is_b64url_char(c: char) -> bool {
    ||| ('A' as u32) <= (c as u32) <= ('Z' as u32)
    ||| ('a' as u32) <= (c as u32) <= ('z' as u32)
    ||| ('0' as u32) <= (c as u32) <= ('9' as u32)
    ||| c == '-'
    ||| c == '_'
}

/// The base64url encoding of a byte sequence, without padding: each group of
/// three bytes becomes four alphabet characters; a final group of one or two
/// bytes becomes two or three.
pub open spec fn b64url_of(bytes: Seq<u8>) -> Seq<char>
    decreases bytes.len(),
{
    if bytes.len() == 0 {
        Seq::empty()
    } else if bytes.len() == 1 {
        let b0 = bytes[0] as int;
        seq![b64url_char(b0 / 4), b64url_char((b0 % 4) * 16)]
    } else if bytes.len() == 2 {
        let b0 = bytes[0] as int;
        let b1 = bytes[1] as int;
        seq![
            b64url_char(b0 / 4),
            b64url_char((b0 % 4) * 16 + b1 / 16),
            b64url_char((b1 % 16) * 4),
        ]
    } else {
        let b0 = bytes[0] as int;
        let b1 = bytes[1] as int;
        let b2 = bytes[2] as int;
        seq![
            b64url_char(b0 / 4),
            b64url_char((b0 % 4) * 16 + b1 / 16),
            b64url_char((b1 % 16) * 4 + b2 / 64),
            b64url_char(b2 % 64),
        ] + b64url_of(bytes.skip(3))
    }
}

/// The length of the unpadded base64url encoding of `n` bytes.
pub open spec fn b64url_len(n: int) -> int {
    (4 * n + 2) / 3
}

pub proof fn lemma_b64url_char_in_alphabet(i: int)
    requires
        0 <= i < 64,
    ensures
        is_b64url_char(b64url_char(i)),
        b64url_char(i) != '=',
{
}

/// Law: a base64url encoding uses only the 64 alphabet characters — in
/// particular it never contains the padding character `=` — and its length is
/// a function of the input's length alone.
pub proof fn lemma_b64url_props(bytes: Seq<u8>)
    ensures
        b64url_of(bytes).len() == b64url_len(bytes.len() as int),
        forall|i: int|
            0 <= i < b64url_of(bytes).len() ==> is_b64url_char(#[trigger] b64url_of(bytes)[i]),
        forall|i: int| 0 <= i < b64url_of(bytes).len() ==> b64url_of(bytes)[i] != '=',
    decreases bytes.len(),
{
    if bytes.len() == 0 {
    } else if bytes.len() == 1 {
        let b0 = bytes[0] as int;
        lemma_b64url_char_in_alphabet(b0 / 4);
        lemma_b64url_char_in_alphabet((b0 % 4) * 16);
    } else if bytes.len() == 2 {
        let b0 = bytes[0] as int;
        let b1 = bytes[1] as int;
        lemma_b64url_char_in_alphabet(b0 / 4);
        lemma_b64url_char_in_alphabet((b0 % 4) * 16 + b1 / 16);
        lemma_b64url_char_in_alphabet((b1 % 16) * 4);
    } else {
        let b0 = bytes[0] as int;
        let b1 = bytes[1] as int;
        let b2 = bytes[2] as int;
        lemma_b64url_char_in_alphabet(b0 / 4);
        lemma_b64url_char_in_alphabet((b0 % 4) * 16 + b1 / 16);
        lemma_b64url_char_in_alphabet((b1 % 16) * 4 + b2 / 64);
        lemma_b64url_char_in_alphabet(b2 % 64);
        lemma_b64url_props(bytes.skip(3));
    }
}

/// The encoding of exactly three bytes, written out.
pub proof fn lemma_b64url_of_three(g: Seq<u8>)
    requires
        g.len() == 3,
    ensures
        b64url_of(g) == seq![
            b64url_char(g[0] as int / 4),
            b64url_char((g[0] as int % 4) * 16 + g[1] as int / 16),
            b64url_char((g[1] as int % 16) * 4 + g[2] as int / 64),
            b64url_char(g[2] as int % 64),
        ],
{
    assert(g.skip(3) =~= Seq::<u8>::empty());
    assert(b64url_of(g.skip(3)) =~= Seq::<char>::empty());
    assert(b64url_of(g) =~= seq![
        b64url_char(g[0] as int / 4),
        b64url_char((g[0] as int % 4) * 16 + g[1] as int / 16),
        b64url_char((g[1] as int % 16) * 4 + g[2] as int / 64),
        b64url_char(g[2] as int % 64),
    ]);
}

/// Encoding distributes over a split at any multiple of three bytes.
pub proof fn lemma_b64url_append(s: Seq<u8>, t: Seq<u8>)
    requires
        s.len() % 3 == 0,
    ensures
        b64url_of(s + t) == b64url_of(s) + b64url_of(t),
    decreases s.len(),
{
    if s.len() == 0 {
        assert(s + t =~= t);
        assert(b64url_of(s) + b64url_of(t) =~= b64url_of(t));
    } else {
        lemma_b64url_append(s.skip(3), t);
        assert((s + t).skip(3) =~= s.skip(3) + t);
        assert(b64url_of(s) + b64url_of(t) =~= b64url_of(s + t));
    }
}

/// The SHA-256 digest of a byte sequence; computed by an outside crate, so it
/// is named here and never given a definition.
pub uninterp spec fn spec_sha256(bytes: Seq<u8>) -> Seq<u8>;

/// Whether `c` may appear in a code verifier: the unreserved URL characters.
pub open spec fn is_verifier_char(c: char) -> bool {
    ||| ('A' as u32) <= (c as u32) <= ('Z' as u32)
    ||| ('a' as u32) <= (c as u32) <= ('z' as u32)
    ||| ('0' as u32) <= (c as u32) <= ('9' as u32)
    ||| c == '-'
    ||| c == '.'
    ||| c == '~'
    ||| c == '_'
}

/// Relies on pkce::code_verifier: `length` bytes drawn at random from the
/// unreserved URL alphabet (it panics outside 43..=128, kept out here by the
/// precondition). The bytes are ASCII, so the conversion to a string keeps
/// them as characters and cannot fail.
#[verifier::external_body]
fn random_code_verifier(length: usize) -> (r: String)
    requires
        43 <= length <= 128,
    ensures
        r@.len() == length,
        forall|i: int| 0 <= i < r@.len() ==> is_verifier_char(#[trigger] r@[i]),
{
    String::from_utf8(::pkce::code_verifier(length)).expect("verifier bytes are ASCII")
}

/// Relies on pkce::code_challenge: the base64url encoding, without padding,
/// of the SHA-256 digest of the verifier's bytes; the digest is 32 bytes
/// long, so the encoding has `b64url_len(32)` (that is, 43) characters.
#[verifier::external_body]
fn code_challenge_of(verifier: &str) -> (r: String)
    ensures
        r@ == b64url_of(spec_sha256(encode_utf8(verifier@))),
        r@.len() == b64url_len(32),
{
    ::pkce::code_challenge(verifier.as_bytes())
}

/// A PKCE pair: a random code verifier and its derived challenge. Generated
/// once per flow; the verifier is revealed only at the final token exchange.
#[derive(Debug)]
pub struct PKCE {
    pub code_verifier: String,
    pub code_challenge: String,
}

impl PKCE {
    /// The challenge is the unpadded base64url encoding of the SHA-256 digest
    /// of the verifier, which is a string over the unreserved URL alphabet,
    /// long enough for the provider's entropy floor.
    pub open spec fn wf(&self) -> bool {
        &&& 43 <= self.code_verifier@.len() <= 128
        &&& forall|i: int|
            0 <= i < self.code_verifier@.len() ==> is_verifier_char(#[trigger] self.code_verifier@[i])
        &&& self.code_challenge@ == b64url_of(spec_sha256(encode_utf8(self.code_verifier@)))
        &&& self.code_challenge@.len() == 43
    }

    /// Create a new code verifier of 128 characters, with its challenge; the
    /// challenge is over the base64url alphabet, so it carries no padding.
    pub fn new() -> (r: Self)
        ensures
            r.wf(),
            r.code_verifier@.len() == 128,
            forall|i: int|
                0 <= i < r.code_challenge@.len() ==> is_b64url_char(#[trigger] r.code_challenge@[i]),
            forall|i: int| 0 <= i < r.code_challenge@.len() ==> r.code_challenge@[i] != '=',
    {
        let code_verifier = random_code_verifier(128);
        let code_challenge = code_challenge_of(code_verifier.as_str());
        proof {
            lemma_b64url_props(spec_sha256(encode_utf8(code_verifier@)));
        }
        PKCE { code_verifier, code_challenge }
    }
}

/// Relies on String::push: appends one character.
#[verifier::external_body]
fn string_push(s: &mut String, c: char)
    ensures
        final(s)@ == old(s)@.push(c),
{
    s.push(c);
}

/// The alphabet character for a six-bit value.
fn b64_char_of(i: u8) -> (c: char)
    requires
        i < 64,
    ensures
        c == b64url_char(i as int),
{
    if i < 26 {
        (65 + i) as char
    } else if i < 52 {
        (97 + (i - 26)) as char
    } else if i < 62 {
        (48 + (i - 52)) as char
    } else if i == 62 {
        '-'
    } else {
        '_'
    }
}

/// Encode a byte sequence as unpadded base64url.
pub fn b64url_encode(bytes: &Vec<u8>) -> (r: String)
    ensures
        r@ == b64url_of(bytes@),
{
    let mut r = String::new();
    let len = bytes.len();
    let mut i: usize = 0;
    while len - i >= 3
        invariant
            i % 3 == 0,
            i <= len,
            len == bytes@.len(),
            r@ == b64url_of(bytes@.take(i as int)),
        decreases len - i,
    {
        let b0 = bytes[i];
        let b1 = bytes[i + 1];
        let b2 = bytes[i + 2];
        string_push(&mut r, b64_char_of(b0 / 4));
        string_push(&mut r, b64_char_of((b0 % 4) * 16 + b1 / 16));
        string_push(&mut r, b64_char_of((b1 % 16) * 4 + b2 / 64));
        string_push(&mut r, b64_char_of(b2 % 64));
        proof {
            let pre = bytes@.take(i as int);
            let grp = bytes@.subrange(i as int, i as int + 3);
            lemma_b64url_append(pre, grp);
            lemma_b64url_of_three(grp);
            assert(pre + grp =~= bytes@.take(i as int + 3));
            assert(r@ =~= b64url_of(bytes@.take(i as int + 3)));
        }
        i = i + 3;
    }
    if len - i == 1 {
        let b0 = bytes[i];
        string_push(&mut r, b64_char_of(b0 / 4));
        string_push(&mut r, b64_char_of((b0 % 4) * 16));
        proof {
            let pre = bytes@.take(i as int);
            let grp = bytes@.subrange(i as int, len as int);
            lemma_b64url_append(pre, grp);
            assert(pre + grp =~= bytes@);
            assert(r@ =~= b64url_of(bytes@));
        }
    } else if len - i == 2 {
        let b0 = bytes[i];
        let b1 = bytes[i + 1];
        string_push(&mut r, b64_char_of(b0 / 4));
        string_push(&mut r, b64_char_of((b0 % 4) * 16 + b1 / 16));
        string_push(&mut r, b64_char_of((b1 % 16) * 4));
        proof {
            let pre = bytes@.take(i as int);
            let grp = bytes@.subrange(i as int, len as int);
            lemma_b64url_append(pre, grp);
            assert(pre + grp =~= bytes@);
            assert(r@ =~= b64url_of(bytes@));
        }
    } else {
        proof {
            assert(bytes@.take(i as int) =~= bytes@);
        }
    }
    r
}

} // verus!
