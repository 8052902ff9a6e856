//! Recovery phrase generation and verification round trip.

use sideswap_client::mnemonic::generate_mnemonic12_from_entropy;
use sideswap_client::mnemonic::sideswap_generate_mnemonic12;
use sideswap_client::mnemonic::sideswap_verify_mnemonic;

const ZERO_ENTROPY_PHRASE: &str = "abandon abandon abandon abandon abandon abandon abandon \
                                   abandon abandon abandon abandon about";

const KNOWN_24_WORD_PHRASE: &str = "abandon abandon abandon abandon abandon abandon abandon \
                                    abandon abandon abandon abandon abandon abandon abandon \
                                    abandon abandon abandon abandon abandon abandon abandon \
                                    abandon abandon art";

#[test]
fn fixed_entropy_gives_the_canonical_phrase() {
    let phrase = generate_mnemonic12_from_entropy(&[0u8; 16]);
    assert_eq!(phrase, ZERO_ENTROPY_PHRASE);
    assert_eq!(phrase.split_whitespace().count(), 12);
    assert!(sideswap_verify_mnemonic(&phrase));
}

#[test]
fn generated_phrases_always_verify_with_twelve_words() {
    for _ in 0..8 {
        let phrase = sideswap_generate_mnemonic12().expect("entropy source available");
        assert_eq!(phrase.split_whitespace().count(), 12);
        assert!(sideswap_verify_mnemonic(&phrase));
    }
}

#[test]
fn twenty_four_word_phrases_are_accepted() {
    assert_eq!(KNOWN_24_WORD_PHRASE.split_whitespace().count(), 24);
    assert!(sideswap_verify_mnemonic(KNOWN_24_WORD_PHRASE));
}

#[test]
fn non_phrase_text_is_rejected() {
    assert!(!sideswap_verify_mnemonic(""));
    assert!(!sideswap_verify_mnemonic("hello world"));
    assert!(!sideswap_verify_mnemonic("abandon abandon abandon"));
    // Right words, wrong checksum.
    assert!(!sideswap_verify_mnemonic(
        "abandon abandon abandon abandon abandon abandon abandon abandon abandon abandon \
         abandon abandon"
    ));
}

#[test]
fn distinct_entropy_gives_distinct_phrases() {
    let a = generate_mnemonic12_from_entropy(&[0u8; 16]);
    let b = generate_mnemonic12_from_entropy(&[0xff; 16]);
    assert_ne!(a, b);
    assert!(sideswap_verify_mnemonic(&b));
}
