//! Address validation against real parsers, across every environment.

use sideswap_client::env::Env;
use sideswap_client::validate::sideswap_check_addr;
use sideswap_client::validate::check_bitcoin_address;
use sideswap_client::validate::check_elements_address;
use sideswap_client::validate::SIDESWAP_BITCOIN;
use sideswap_client::validate::SIDESWAP_ELEMENTS;

const ALL_ENVS: [Env; 7] = [
    Env::Prod,
    Env::Staging,
    Env::Regtest,
    Env::Local,
    Env::LocalLiquid,
    Env::Testnet,
    Env::LocalTestnet,
];

const PROD_LIKE: [Env; 3] = [Env::Prod, Env::Staging, Env::LocalLiquid];
const TEST_LIKE: [Env; 4] = [Env::Local, Env::Regtest, Env::Testnet, Env::LocalTestnet];

// A main-network taproot address.
const MAIN_P2TR: &str = "bc1p5cyxnuxmeuwuvkwfem96lqzszd02n6xdcjrs20cac6yqjjwudpxqkedrcr";
// A main-network pay-to-pubkey-hash address.
const MAIN_P2PKH: &str = "132F25rTsvBdp9JzLLBHP5mvGY66i1xdiM";
// A test-network script-hash address.
const TEST_P2SH: &str = "2N83imGV3gPwBzKJQvWJ7cRUY2SpUyU6A5e";
// A plain (non-script-hash) test-network address.
const TEST_P2PKH: &str = "mqkhEMH6NCeYjFybv7pvFC22MFeaNT9AQC";
// A regression-test bech32 address.
const REGTEST_BECH32: &str = "bcrt1q2nfxmhd4n3c8834pj72xagvyr9gl57n5r94fsl";

#[test]
fn test_address_check() {
    // P2TR
    assert!(check_bitcoin_address(
        Env::Prod,
        "bc1p5cyxnuxmeuwuvkwfem96lqzszd02n6xdcjrs20cac6yqjjwudpxqkedrcr"
    ));
}

#[test]
fn main_network_addresses_only_in_production_like_envs() {
    for env in PROD_LIKE {
        assert!(check_bitcoin_address(env, MAIN_P2TR));
        assert!(check_bitcoin_address(env, MAIN_P2PKH));
    }
    for env in TEST_LIKE {
        assert!(!check_bitcoin_address(env, MAIN_P2TR));
        assert!(!check_bitcoin_address(env, MAIN_P2PKH));
    }
}

#[test]
fn test_network_script_hash_accepted_in_test_envs() {
    for env in TEST_LIKE {
        assert!(check_bitcoin_address(env, TEST_P2SH));
    }
    for env in PROD_LIKE {
        assert!(!check_bitcoin_address(env, TEST_P2SH));
    }
}

#[test]
fn plain_test_network_address_needs_script_hash_form() {
    for env in ALL_ENVS {
        assert!(!check_bitcoin_address(env, TEST_P2PKH));
    }
}

#[test]
fn regtest_addresses_accepted_in_any_form_in_test_envs() {
    for env in TEST_LIKE {
        assert!(check_bitcoin_address(env, REGTEST_BECH32));
    }
    for env in PROD_LIKE {
        assert!(!check_bitcoin_address(env, REGTEST_BECH32));
    }
}

#[test]
fn unparsable_base_chain_text_is_false_everywhere() {
    for env in ALL_ENVS {
        assert!(!check_bitcoin_address(env, ""));
        assert!(!check_bitcoin_address(env, "not an address"));
    }
}

// A blinded confidential address under the default Elements parameters.
const ELEMENTS_BLINDED: &str = "el1qq0umk3pez693jrrlxz9ndlkuwne93gdu9g83mhhzuyf46e3mdzfpva0w48gqgzgrklncnm0k5zeyw8my2ypfsmxh4xcjh2rse";
// The same chain's unblinded bech32 form.
const ELEMENTS_UNBLINDED: &str = "ert1qwhh2n5qypypm0eufahm2pvj8raj9zq5c27cysu";
// A blinded main confidential address.
const LIQUID_BLINDED: &str = "lq1qqf8er278e6nyvuwtgf39e6ewvdcnjupn9a86rzpx655y5lhkt0walu3djf9cklkxd3ryld97hu8h3xepw7sh2rlu7q45dcew5";
// An unblinded main confidential address.
const LIQUID_UNBLINDED: &str = "ex1q7gkeyjut0mrxc3j0kjlt7rmcnvsh0gt45d3fud";
// A blinded test confidential address.
const LIQUID_TESTNET_BLINDED: &str = "tlq1qq2xvpcvfup5j8zscjq05u2wxxjcyewk7979f3mmz5l7uw5pqmx6xf5xy50hsn6vhkm5euwt72x878eq6zxx2z58hd7zrsg9qn";

#[test]
fn confidential_addresses_follow_environment_params() {
    for env in [Env::Regtest, Env::Local] {
        assert!(check_elements_address(env, ELEMENTS_BLINDED));
    }
    for env in PROD_LIKE {
        assert!(check_elements_address(env, LIQUID_BLINDED));
        assert!(!check_elements_address(env, ELEMENTS_BLINDED));
    }
    for env in [Env::Testnet, Env::LocalTestnet] {
        assert!(check_elements_address(env, LIQUID_TESTNET_BLINDED));
        assert!(!check_elements_address(env, LIQUID_BLINDED));
    }
}

#[test]
fn unblinded_confidential_addresses_always_fail() {
    for env in ALL_ENVS {
        assert!(!check_elements_address(env, ELEMENTS_UNBLINDED));
        assert!(!check_elements_address(env, LIQUID_UNBLINDED));
        assert!(!check_elements_address(env, "junk"));
    }
}

#[test]
fn family_codes_dispatch() {
    assert!(sideswap_check_addr(Env::Prod, MAIN_P2TR, SIDESWAP_BITCOIN));
    assert!(!sideswap_check_addr(Env::Prod, MAIN_P2TR, SIDESWAP_ELEMENTS));
    assert!(sideswap_check_addr(Env::Prod, LIQUID_BLINDED, SIDESWAP_ELEMENTS));
    assert!(!sideswap_check_addr(Env::Prod, LIQUID_BLINDED, SIDESWAP_BITCOIN));
}
