//! Proof Key for Code Exchange (RFC 7636) and the other random parameters of a login.
use base64::Engine;
use rand::Rng;
use vstd::prelude::*;

verus! {

/// Characters permitted in a PKCE `code_verifier` (the unreserved set of RFC 7636, section 4.1).
pub const VERIFIER_ALPHABET: &'static str =
    "ABCDEFGHIJKLMNOPQRSTUVWXYZabcdefghijklmnopqrstuvwxyz0123456789-._~";

/// The number of characters in [`VERIFIER_ALPHABET`].
pub const VERIFIER_ALPHABET_LEN: usize = 66;

/// The number of characters in a generated `code_verifier`.
pub const VERIFIER_LEN: usize = 64;

/// The URL-safe base64 alphabet of RFC 4648, section 5.
pub const BASE64URL_ALPHABET: &'static str =
    "ABCDEFGHIJKLMNOPQRSTUVWXYZabcdefghijklmnopqrstuvwxyz0123456789-_";

/// The most bytes whose length in bits SHA-256 can count.
pub const SHA256_INPUT_LIMIT: u64 = 0x1fff_ffff_ffff_ffff;

/// The SHA-256 digest of the bytes, as `ring` computes it.
pub uninterp spec fn sha256_of(data: Seq<u8>) -> Seq<u8>;

/// Digests bytes with `ring::digest::digest` under `SHA256`. The contract claims that the bytes
/// alone decide the digest and that it has 32 bytes; `ring` panics beyond the stated length.
#[verifier::external_body]
fn sha256(data: &[u8]) -> (res: Vec<u8>)
    requires
        data@.len() <= SHA256_INPUT_LIMIT,
    ensures
        res@ == sha256_of(data@),
        res@.len() == 32,
{
    ring::digest::digest(&ring::digest::SHA256, data).as_ref().to_vec()
}

/// The byte at an index, or zero beyond the end.
pub open spec fn byte_or_zero(bytes: Seq<u8>, i: int) -> int {
    if 0 <= i < bytes.len() {
        bytes[i] as int
    } else {
        0
    }
}

/// The number that the base64 digit at index `i` stands for: six of the 24 bits of its group of
/// three bytes, the first of them highest.
pub open spec fn sextet(bytes: Seq<u8>, i: int) -> int {
    let group = byte_or_zero(bytes, i / 4 * 3) * 0x10000 + byte_or_zero(bytes, i / 4 * 3 + 1) * 0x100
        + byte_or_zero(bytes, i / 4 * 3 + 2);
    if i % 4 == 0 {
        group / 0x40000
    } else if i % 4 == 1 {
        group / 0x1000 % 64
    } else if i % 4 == 2 {
        group / 0x40 % 64
    } else {
        group % 64
    }
}

/// The URL-safe base64 encoding of the bytes, without padding (RFC 4648, section 5).
pub open spec fn base64url(bytes: Seq<u8>) -> Seq<char> {
    Seq::new(
        ((bytes.len() * 8 + 5) / 6) as nat,
        |i: int| BASE64URL_ALPHABET@[sextet(bytes, i)],
    )
}

/// Encodes bytes with the `BASE64_URL_SAFE_NO_PAD` engine of the `base64` crate, which implements
/// RFC 4648: every six bits give one character, and no padding follows.
#[verifier::external_body]
fn encode_base64url(bytes: &[u8]) -> (res: String)
    requires
        bytes@.len() <= usize::MAX / 4,
    ensures
        res@ == base64url(bytes@),
{
    base64::prelude::BASE64_URL_SAFE_NO_PAD.encode(bytes)
}

/// The S256 challenge of a verifier: the URL-safe base64 form of its SHA-256 digest.
pub open spec fn challenge_of(verifier: Seq<char>) -> Seq<char> {
    base64url(sha256_of(vstd::utf8::encode_utf8(verifier)))
}

/// A challenge can stand in a URL as it is: all its characters are letters, digits, `-` or `_`.
pub proof fn law_challenges_are_url_safe(verifier: Seq<char>)
    ensures
        forall|i: int|
            0 <= i < challenge_of(verifier).len() ==> BASE64URL_ALPHABET@.contains(
                #[trigger] challenge_of(verifier)[i],
            ),
{
    let bytes = sha256_of(vstd::utf8::encode_utf8(verifier));
    reveal_strlit("ABCDEFGHIJKLMNOPQRSTUVWXYZabcdefghijklmnopqrstuvwxyz0123456789-_");
    assert forall|i: int| 0 <= i < base64url(bytes).len() implies BASE64URL_ALPHABET@.contains(
        #[trigger] base64url(bytes)[i],
    ) by {
        assert(0 <= sextet(bytes, i) < 64);
        assert(BASE64URL_ALPHABET@.len() == 64);
    }
}

/// Computes the PKCE S256 challenge of a verifier.
pub fn pkce_challenge(verifier: &str) -> (res: String)
    requires
        vstd::utf8::encode_utf8(verifier@).len() <= SHA256_INPUT_LIMIT,
    ensures
        res@ == challenge_of(verifier@),
        res@.len() == 43,
{
    let digest = sha256(verifier.as_bytes());
    encode_base64url(digest.as_slice())
}

/// A random number below `bound`, drawn with `rand::rng().random_range`. The contract claims the
/// range only; the call panics on an empty one.
#[verifier::external_body]
fn random_below(bound: usize) -> (res: usize)
    requires
        bound > 0,
    ensures
        res < bound,
{
    rand::rng().random_range(0..bound)
}

/// The text whose characters stand in the verifier alphabet at the given indices.
pub open spec fn verifier_at(indices: Seq<usize>) -> Seq<char> {
    Seq::new(indices.len(), |i: int| VERIFIER_ALPHABET@[indices[i] as int])
}

/// The verifier alphabet has 66 characters, all of them ASCII.
pub proof fn lemma_verifier_alphabet()
    ensures
        VERIFIER_ALPHABET@.len() == VERIFIER_ALPHABET_LEN,
        forall|i: int|
            0 <= i < VERIFIER_ALPHABET_LEN ==> '\0' <= #[trigger] VERIFIER_ALPHABET@[i] <= '\u{7f}',
{
    reveal_strlit("ABCDEFGHIJKLMNOPQRSTUVWXYZabcdefghijklmnopqrstuvwxyz0123456789-._~");
}

/// Spells out a verifier from indices into the verifier alphabet.
pub fn verifier_from(indices: &Vec<usize>) -> (res: String)
    requires
        forall|i: int| 0 <= i < indices@.len() ==> indices@[i] < VERIFIER_ALPHABET_LEN,
    ensures
        res@ == verifier_at(indices@),
{
    proof {
        lemma_verifier_alphabet();
    }
    let mut res = String::new();
    let mut i: usize = 0;
    while i < indices.len()
        invariant
            i <= indices@.len(),
            VERIFIER_ALPHABET@.len() == VERIFIER_ALPHABET_LEN,
            forall|k: int| 0 <= k < indices@.len() ==> indices@[k] < VERIFIER_ALPHABET_LEN,
            res@ =~= verifier_at(indices@).take(i as int),
        decreases indices@.len() - i,
    {
        let at: usize = indices[i];
        res.append(VERIFIER_ALPHABET.substring_char(at, at + 1));
        i = i + 1;
    }
    res
}

/// A text of the length and over the alphabet that RFC 7636 asks of a verifier.
pub open spec fn is_verifier(s: Seq<char>) -> bool {
    &&& 43 <= s.len() <= 128
    &&& forall|i: int| 0 <= i < s.len() ==> VERIFIER_ALPHABET@.contains(#[trigger] s[i])
}

/// Generates a PKCE `code_verifier` and its S256 `code_challenge`.
pub fn generate_pkce() -> (res: (String, String))
    ensures
        res.0@.len() == VERIFIER_LEN,
        is_verifier(res.0@),
        res.1@ == challenge_of(res.0@),
        res.1@.len() == 43,
{
    let mut indices: Vec<usize> = Vec::new();
    while indices.len() < VERIFIER_LEN
        invariant
            indices@.len() <= VERIFIER_LEN,
            forall|k: int| 0 <= k < indices@.len() ==> indices@[k] < VERIFIER_ALPHABET_LEN,
        decreases VERIFIER_LEN - indices@.len(),
    {
        indices.push(random_below(VERIFIER_ALPHABET_LEN));
    }
    let verifier = verifier_from(&indices);
    proof {
        lemma_verifier_alphabet();
        assert forall|i: int| 0 <= i < verifier@.len() implies VERIFIER_ALPHABET@.contains(
            #[trigger] verifier@[i],
        ) by {
            assert(verifier@[i] == VERIFIER_ALPHABET@[indices@[i] as int]);
        }
        assert forall|i: int| 0 <= i < verifier@.len() implies '\0' <= #[trigger] verifier@[i]
            <= '\u{7f}' by {
            let at = indices@[i] as int;
            assert(0 <= at < VERIFIER_ALPHABET_LEN);
            assert('\0' <= VERIFIER_ALPHABET@[at] <= '\u{7f}');
            assert(verifier@[i] == VERIFIER_ALPHABET@[at]);
        }
        vstd::utf8::is_ascii_chars_encode_utf8(verifier@);
    }
    let challenge = pkce_challenge(verifier.as_str());
    (verifier, challenge)
}

/// A lower-case hexadecimal digit.
pub open spec fn is_hex(c: char) -> bool {
    '0' <= c <= '9' || 'a' <= c <= 'f'
}

/// The hyphenated form of a version 4 UUID: 32 hexadecimal digits in groups of 8, 4, 4, 4 and 12,
/// the first of the third group `4` and the first of the fourth one of `8`, `9`, `a` and `b`.
pub open spec fn is_uuid_v4(s: Seq<char>) -> bool {
    &&& s.len() == 36
    &&& forall|i: int|
        0 <= i < 36 ==> if i == 8 || i == 13 || i == 18 || i == 23 {
            #[trigger] s[i] == '-'
        } else {
            is_hex(s[i])
        }
    &&& s[14] == '4'
    &&& (s[19] == '8' || s[19] == '9' || s[19] == 'a' || s[19] == 'b')
}

/// A random UUID from `uuid::Uuid::new_v4`, in the hyphenated form that its `Display` writes. The
/// contract claims the form only.
#[verifier::external_body]
pub(crate) fn random_uuid() -> (res: String)
    ensures
        is_uuid_v4(res@),
{
    uuid::Uuid::new_v4().to_string()
}

/// The random parameters of one login: the PKCE pair, the `state` that has to come back with the
/// redirect, and the `nonce`.
#[derive(Debug, Clone)]
pub struct LoginSecrets {
    pub verifier: String,
    pub challenge: String,
    pub state: String,
    pub nonce: String,
}

impl LoginSecrets {
    /// The parameters have the form that the flow needs, and the challenge is that of the verifier.
    pub open spec fn wf(&self) -> bool {
        &&& is_verifier(self.verifier@)
        &&& self.challenge@ == challenge_of(self.verifier@)
        &&& self.challenge@.len() == 43
        &&& is_uuid_v4(self.state@)
        &&& is_uuid_v4(self.nonce@)
    }

    /// Draws fresh parameters.
    pub fn generate() -> (res: Self)
        ensures
            res.wf(),
            res.verifier@.len() == VERIFIER_LEN,
    {
        let (verifier, challenge) = generate_pkce();
        let state = random_uuid();
        let nonce = random_uuid();
        LoginSecrets { verifier, challenge, state, nonce }
    }
}

} // verus!
