//! Recovery phrases: generation from fresh entropy and verification of
//! host-supplied text. The phrase encoding itself is an outside capability;
//! the bridge guarantees that every phrase it hands out is a twelve-word
//! phrase the verifier accepts.

use vstd::prelude::*;

verus! {

/// Entropy bytes behind a twelve-word phrase.
pub const ENTROPY_SIZE_MNEMONIC12: usize = 16;

/// The word count a piece of text parses to as a recovery phrase: `None`
/// when the text is not a well-formed phrase, otherwise the number of words.
pub uninterp spec fn phrase_word_count_spec(s: Seq<char>) -> Option<u64>;

/// The phrase encoding sixteen entropy bytes.
pub uninterp spec fn phrase_of_entropy_spec(e: Seq<u8>) -> Seq<char>;

/// A phrase the verifier accepts: well-formed with twelve or twenty-four
/// words.
pub open spec fn spec_verify_mnemonic(s: Seq<char>) -> bool {
    match phrase_word_count_spec(s) {
        Some(c) => c == 12 || c == 24,
        None => false,
    }
}

/// Relies on `bip39::Mnemonic::from_entropy` and its text rendering:
/// sixteen entropy bytes always encode, deterministically, to a canonical
/// twelve-word phrase, and parsing that phrase back yields the same twelve
/// words.
#[verifier::external_body]
fn mnemonic_from_entropy16(entropy: &[u8]) -> (r: String)
    requires
        entropy@.len() == ENTROPY_SIZE_MNEMONIC12,
    ensures
        r@ == phrase_of_entropy_spec(entropy@),
        phrase_word_count_spec(r@) == Some(12u64),
{
    let mnemonic = bip39::Mnemonic::from_entropy(entropy).expect("generating mnemonic failed");
    mnemonic.to_string()
}

/// Relies on `bip39::Mnemonic::parse` and `bip39::Mnemonic::word_count`:
/// whether text parses as a phrase, and to how many words, depends on the
/// characters alone.
#[verifier::external_body]
fn mnemonic_word_count(text: &str) -> (r: Option<u64>)
    ensures
        r == phrase_word_count_spec(text@),
{
    bip39::Mnemonic::parse(text).ok().map(|m| m.word_count() as u64)
}

/// Why no phrase could be generated.
#[derive(Clone, Copy, Debug, PartialEq, Eq, Structural)]
pub enum MnemonicError {
    /// The operating system's randomness source failed.
    EntropySource,
}

/// Relies on rand's `OsRng`: fills the buffer from the operating system's
/// randomness source. Nothing is promised of the contents — every caller
/// must be correct for any outcome.
#[verifier::external_body]
fn fill_entropy(buf: &mut Vec<u8>) -> (r: Result<(), ()>)
    ensures
        final(buf)@.len() == old(buf)@.len(),
{
    let mut rng = rand::rngs::OsRng::default();
    match rand::RngCore::try_fill_bytes(&mut rng, buf.as_mut_slice()) {
        Ok(()) => Ok(()),
        Err(_) => Err(()),
    }
}

/// Encodes sixteen entropy bytes as a recovery phrase. Every phrase this
/// returns is accepted by the verifier and has exactly twelve words — the
/// generation/verification round trip, for any entropy.
pub fn generate_mnemonic12_from_entropy(entropy: &[u8]) -> (r: String)
    requires
        entropy@.len() == ENTROPY_SIZE_MNEMONIC12,
    ensures
        r@ == phrase_of_entropy_spec(entropy@),
        phrase_word_count_spec(r@) == Some(12u64),
        spec_verify_mnemonic(r@),
{
    mnemonic_from_entropy16(entropy)
}

/// Draws fresh entropy and encodes it as a twelve-word recovery phrase.
/// Fails only when the operating system's randomness source does; whatever
/// entropy came back, the phrase verifies with twelve words.
pub fn sideswap_generate_mnemonic12() -> (r: Result<String, MnemonicError>)
    ensures
        r matches Ok(s) ==> (phrase_word_count_spec(s@) == Some(12u64) && spec_verify_mnemonic(
            s@,
        )),
{
    let mut buf: Vec<u8> = Vec::new();
    let mut i: usize = 0;
    while i < ENTROPY_SIZE_MNEMONIC12
        invariant
            i <= ENTROPY_SIZE_MNEMONIC12,
            buf@.len() == i,
        decreases ENTROPY_SIZE_MNEMONIC12 - i,
    {
        buf.push(0u8);
        i = i + 1;
    }
    match fill_entropy(&mut buf) {
        Ok(_) => Ok(generate_mnemonic12_from_entropy(buf.as_slice())),
        Err(_) => Err(MnemonicError::EntropySource),
    }
}

/// Accepts exactly the well-formed twelve- or twenty-four-word phrases;
/// anything else — any non-phrase text in particular — is rejected.
pub fn sideswap_verify_mnemonic(mnemonic: &str) -> (r: bool)
    ensures
        r == spec_verify_mnemonic(mnemonic@),
{
    match mnemonic_word_count(mnemonic) {
        Some(c) => c == 12 || c == 24,
        None => false,
    }
}

} // verus!
