//! The cryptographic primitives the consent protocol is built on: hashing,
//! bech32 address text, public-key recovery and the host's address check.
//! Each outside computation is named by a spec function and reached through
//! one trusted wrapper; everything else in this module is verified.

use vstd::prelude::*;

verus! {

// ---------------------------------------------------------------------------
// Names for the results of the outside computations.
// ---------------------------------------------------------------------------

/// The SHA-256 digest of a byte sequence.
pub uninterp spec fn sha256_of(data: Seq<u8>) -> Seq<u8>;

/// The RIPEMD-160 digest of a byte sequence.
pub uninterp spec fn ripemd160_of(data: Seq<u8>) -> Seq<u8>;

/// The Bech32 text encoding of a payload under a human-readable prefix.
pub uninterp spec fn bech32_of(hrp: Seq<char>, data: Seq<u8>) -> Seq<char>;

/// The uncompressed secp256k1 public key recovered from a signature over a
/// 32-byte message hash, or `None` when no key can be recovered.
pub uninterp spec fn secp256k1_recovered_key(
    hash: Seq<u8>,
    sig: Seq<u8>,
    param: u8,
) -> Option<Seq<u8>>;

/// Whether the host's address-validation primitive accepts an address string.
pub uninterp spec fn addr_valid(addr: Seq<char>) -> bool;

// ---------------------------------------------------------------------------
// The human-readable prefixes that Bech32 encoding accepts.
// ---------------------------------------------------------------------------

/// A prefix the Bech32 encoder accepts without change: 1 to 83 characters,
/// all in the ASCII range 33..=126, none of them uppercase.
pub open spec fn valid_hrp(hrp: Seq<char>) -> bool {
    &&& 1 <= hrp.len() <= 83
    &&& forall|i: int|
        0 <= i < hrp.len() ==> 33 <= #[trigger] (hrp[i] as u32) <= 126 && !(65 <= hrp[i] as u32
            <= 90)
}

// ---------------------------------------------------------------------------
// Trusted wrappers around the outside calls.
// ---------------------------------------------------------------------------

/// Relies on sha2::Sha256::digest: returns the 32-byte SHA-256 digest of the
/// input, a function of the input bytes alone.
#[verifier::external_body]
pub(crate) fn sha256_digest(data: &[u8]) -> (r: Vec<u8>)
    ensures
        r@ == sha256_of(data@),
        r@.len() == 32,
{
    <sha2::Sha256 as sha2::Digest>::digest(data).to_vec()
}

/// Relies on ripemd::Ripemd160 (through the digest interface): returns the
/// 20-byte RIPEMD-160 digest of the input, a function of the input bytes
/// alone.
#[verifier::external_body]
pub(crate) fn ripemd160_digest(data: &[u8]) -> (r: Vec<u8>)
    ensures
        r@ == ripemd160_of(data@),
        r@.len() == 20,
{
    <ripemd::Ripemd160 as ripemd::Digest>::digest(data).to_vec()
}

/// Relies on bech32::encode with the Bech32 variant, over the base-32
/// expansion of the payload (bech32::ToBase32): the encoding is a function of
/// prefix and payload alone, and the call succeeds whenever the prefix is
/// nonempty, at most 83 characters, within ASCII 33..=126 and free of
/// uppercase letters.
#[verifier::external_body]
pub(crate) fn bech32_encode(hrp: &str, data: &Vec<u8>) -> (r: Result<String, String>)
    ensures
        valid_hrp(hrp@) ==> r is Ok,
        r is Ok ==> r.unwrap()@ == bech32_of(hrp@, data@),
{
    match bech32::encode(hrp, bech32::ToBase32::to_base32(data), bech32::Variant::Bech32) {
        Ok(s) => Ok(s),
        Err(e) => Err(format!("{}", e)),
    }
}

/// Relies on cosmwasm_std::testing::MockApi::secp256k1_recover_pubkey, the
/// reference host implementation of public-key recovery: the outcome is a
/// function of message hash, signature bytes and recovery parameter alone,
/// and a recovered key is the 65-byte uncompressed encoding.
#[verifier::external_body]
pub(crate) fn secp256k1_recover(hash: &Vec<u8>, signature: &Vec<u8>, param: u8) -> (r: Option<
    Vec<u8>,
>)
    ensures
        r is Some <==> secp256k1_recovered_key(hash@, signature@, param) is Some,
        r is Some ==> r.unwrap()@ == secp256k1_recovered_key(hash@, signature@, param).unwrap(),
        r is Some ==> r.unwrap()@.len() == 65,
{
    cosmwasm_std::Api::secp256k1_recover_pubkey(
        &cosmwasm_std::testing::MockApi::default(),
        hash,
        signature,
        param,
    ).ok()
}

/// Relies on cosmwasm_std::testing::MockApi::addr_validate, the reference
/// host implementation of address validation: which strings it accepts is a
/// function of the input alone, and an accepted address is returned
/// unchanged.
#[verifier::external_body]
pub(crate) fn addr_validate(input: &str) -> (r: Option<String>)
    ensures
        r is Some <==> addr_valid(input@),
        r is Some ==> r.unwrap()@ == input@,
{
    cosmwasm_std::Api::addr_validate(&cosmwasm_std::testing::MockApi::default(), input).ok().map(
        |a| a.into_string(),
    )
}

/// Relies on std's String::push: appends exactly one character.
#[verifier::external_body]
pub(crate) fn string_push(s: &mut String, c: char)
    ensures
        final(s)@ == old(s)@ + seq![c],
{
    s.push(c);
}

// ---------------------------------------------------------------------------
// Hexadecimal rendering of digests (verified).
// ---------------------------------------------------------------------------

/// One half-byte as a lowercase hexadecimal character.
pub open spec fn hex_digit(d: u8) -> char {
    if d == 0 {
        '0'
    } else if d == 1 {
        '1'
    } else if d == 2 {
        '2'
    } else if d == 3 {
        '3'
    } else if d == 4 {
        '4'
    } else if d == 5 {
        '5'
    } else if d == 6 {
        '6'
    } else if d == 7 {
        '7'
    } else if d == 8 {
        '8'
    } else if d == 9 {
        '9'
    } else if d == 10 {
        'a'
    } else if d == 11 {
        'b'
    } else if d == 12 {
        'c'
    } else if d == 13 {
        'd'
    } else if d == 14 {
        'e'
    } else {
        'f'
    }
}

/// A byte sequence rendered as lowercase hexadecimal text, two characters a
/// byte, high half-byte first.
pub open spec fn hex_of(data: Seq<u8>) -> Seq<char>
    decreases data.len(),
{
    if data.len() == 0 {
        Seq::empty()
    } else {
        seq![hex_digit(data.first() / 16), hex_digit(data.first() % 16)] + hex_of(
            data.drop_first(),
        )
    }
}

fn hex_digit_char(d: u8) -> (c: char)
    requires
        d < 16,
    ensures
        c == hex_digit(d),
{
    if d == 0 {
        '0'
    } else if d == 1 {
        '1'
    } else if d == 2 {
        '2'
    } else if d == 3 {
        '3'
    } else if d == 4 {
        '4'
    } else if d == 5 {
        '5'
    } else if d == 6 {
        '6'
    } else if d == 7 {
        '7'
    } else if d == 8 {
        '8'
    } else if d == 9 {
        '9'
    } else if d == 10 {
        'a'
    } else if d == 11 {
        'b'
    } else if d == 12 {
        'c'
    } else if d == 13 {
        'd'
    } else if d == 14 {
        'e'
    } else {
        'f'
    }
}

/// Render bytes as lowercase hexadecimal text.
pub fn to_hex(data: &Vec<u8>) -> (r: String)
    ensures
        r@ == hex_of(data@),
{
    let mut r = String::new();
    let n = data.len();
    proof {
        assert(data@.skip(0) == data@);
    }
    for i in 0..n
        invariant
            n == data@.len(),
            hex_of(data@) =~= r@ + hex_of(data@.skip(i as int)),
    {
        let b = data[i];
        string_push(&mut r, hex_digit_char(b / 16));
        string_push(&mut r, hex_digit_char(b % 16));
        proof {
            assert(data@.skip(i as int).drop_first() =~= data@.skip(i + 1));
        }
    }
    proof {
        assert(r@ =~= hex_of(data@));
    }
    r
}

} // verus!
