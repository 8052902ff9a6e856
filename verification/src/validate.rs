//! The address validator: pure, parameterized by deployment environment,
//! never raising — a parse failure is an ordinary `false`.
//!
//! Two address families are supported. The base chain's parser and the
//! confidential chain's parser are outside capabilities; what the rules
//! read of a parsed address is modelled as plain values, and the
//! environment-dependent rules themselves are verified here.

use vstd::prelude::*;

use crate::env::Env;

verus! {

/// Address family codes as the host names them.
pub const SIDESWAP_BITCOIN: i32 = 1;
pub const SIDESWAP_ELEMENTS: i32 = 2;

/// The network a base-chain address was parsed for. Legacy test-prefix
/// addresses parse as the test network; only the dedicated bech32 prefix
/// yields the regression-test network.
#[derive(Clone, Copy, Debug, PartialEq, Eq, Structural)]
pub enum BtcNetwork {
    Main,
    Test,
    Regtest,
}

/// What the validation rules read of a parsed base-chain address: its
/// network, and whether it is a script-hash-style address.
#[derive(Clone, Copy, Debug, PartialEq, Eq, Structural)]
pub struct BtcAddressInfo {
    pub network: BtcNetwork,
    pub script_hash: bool,
}

/// What parsing a candidate base-chain address yields: `None` on parse
/// failure, otherwise the parts the rules read.
pub uninterp spec fn btc_parse_spec(s: Seq<char>) -> Option<BtcAddressInfo>;

/// Relies on `bitcoin::Address` string parsing: the outcome depends on the
/// characters alone, and the network and payload kind are read off the
/// parsed address unchanged.
#[verifier::external_body]
fn parse_bitcoin_address(addr: &str) -> (r: Option<BtcAddressInfo>)
    ensures
        r == btc_parse_spec(addr@),
{
    let a = match addr.parse::<bitcoin::Address<bitcoin::address::NetworkUnchecked>>() {
        Ok(a) => a,
        Err(_) => return None,
    };
    let network = match a.network {
        bitcoin::Network::Bitcoin => BtcNetwork::Main,
        bitcoin::Network::Testnet => BtcNetwork::Test,
        bitcoin::Network::Signet => BtcNetwork::Test,
        bitcoin::Network::Regtest => BtcNetwork::Regtest,
        _ => BtcNetwork::Test,
    };
    let script_hash = matches!(a.payload, bitcoin::address::Payload::ScriptHash(_));
    Some(BtcAddressInfo { network, script_hash })
}

/// The base-chain rule: production-like environments accept main-network
/// addresses only; test-like environments accept regression-test addresses
/// of any form, but test-network addresses only in script-hash form — a
/// deliberate compatibility rule with the counterparty network's address
/// policy.
pub open spec fn spec_bitcoin_rule(env: Env, parsed: Option<BtcAddressInfo>) -> bool {
    match parsed {
        None => false,
        Some(a) => match env {
            Env::Prod | Env::Staging | Env::LocalLiquid => a.network is Main,
            Env::Local | Env::Regtest | Env::Testnet | Env::LocalTestnet => a.network is Regtest
                || (a.network is Test && a.script_hash),
        },
    }
}

/// Validates a base-chain address for the given environment. Pure; parse
/// failure yields `false`, never an error.
pub fn check_bitcoin_address(env: Env, addr: &str) -> (r: bool)
    ensures
        r == spec_bitcoin_rule(env, btc_parse_spec(addr@)),
{
    let parsed = parse_bitcoin_address(addr);
    match parsed {
        None => false,
        Some(a) => match env {
            Env::Prod | Env::Staging | Env::LocalLiquid => a.network == BtcNetwork::Main,
            Env::Local | Env::Regtest | Env::Testnet | Env::LocalTestnet => a.network
                == BtcNetwork::Regtest || (a.network == BtcNetwork::Test && a.script_hash),
        },
    }
}

/// The parameter set a confidential-chain address is parsed with.
#[derive(Clone, Copy, Debug, PartialEq, Eq, Structural)]
pub enum ConfParams {
    Liquid,
    LiquidTestnet,
    Elements,
}

/// The parameter set each environment selects for the confidential chain.
pub open spec fn spec_elements_params(env: Env) -> ConfParams {
    match env {
        Env::Prod | Env::Staging | Env::LocalLiquid => ConfParams::Liquid,
        Env::Testnet | Env::LocalTestnet => ConfParams::LiquidTestnet,
        Env::Regtest | Env::Local => ConfParams::Elements,
    }
}

/// Selects the confidential-chain parameter set for an environment.
pub fn elements_params(env: Env) -> (r: ConfParams)
    ensures
        r == spec_elements_params(env),
{
    match env {
        Env::Prod | Env::Staging | Env::LocalLiquid => ConfParams::Liquid,
        Env::Testnet | Env::LocalTestnet => ConfParams::LiquidTestnet,
        Env::Regtest | Env::Local => ConfParams::Elements,
    }
}

/// What parsing a candidate confidential-chain address with a parameter set
/// yields: `None` on parse failure, otherwise whether the address is in
/// blinded (confidential) form.
pub uninterp spec fn conf_parse_spec(s: Seq<char>, params: ConfParams) -> Option<bool>;

/// Relies on `elements::Address::parse_with_params` and
/// `elements::Address::is_blinded`: the outcome depends on the characters
/// and the chosen parameter set alone.
#[verifier::external_body]
fn parse_elements_address(addr: &str, params: ConfParams) -> (r: Option<bool>)
    ensures
        r == conf_parse_spec(addr@, params),
{
    let p = match params {
        ConfParams::Liquid => &elements::AddressParams::LIQUID,
        ConfParams::LiquidTestnet => &elements::AddressParams::LIQUID_TESTNET,
        ConfParams::Elements => &elements::AddressParams::ELEMENTS,
    };
    match elements::Address::parse_with_params(addr, p) {
        Ok(a) => Some(a.is_blinded()),
        Err(_) => None,
    }
}

/// The confidential-chain rule: the address must parse under the
/// environment's parameters and be in blinded form; an unblinded address is
/// rejected even if otherwise well-formed.
pub open spec fn spec_elements_rule(env: Env, s: Seq<char>) -> bool {
    conf_parse_spec(s, spec_elements_params(env)) == Some(true)
}

/// Validates a confidential-chain address for the given environment. Pure;
/// parse failure and unblinded addresses both yield `false`.
pub fn check_elements_address(env: Env, addr: &str) -> (r: bool)
    ensures
        r == spec_elements_rule(env, addr@),
{
    let params = elements_params(env);
    match parse_elements_address(addr, params) {
        Some(blinded) => blinded,
        None => false,
    }
}

/// A parsed main-network base-chain address passes exactly in the
/// production-like environments, whatever its form.
pub proof fn lemma_main_network_rule(env: Env, a: BtcAddressInfo)
    requires
        a.network is Main,
    ensures
        spec_bitcoin_rule(env, Some(a)) <==> (env is Prod || env is Staging
            || env is LocalLiquid),
{
}

/// In every test-like environment the same rule decides: regression-test
/// addresses pass in any form, test-network addresses only in script-hash
/// form, main-network addresses never.
pub proof fn lemma_test_network_rule(env: Env, a: BtcAddressInfo)
    requires
        !(env is Prod || env is Staging || env is LocalLiquid),
    ensures
        spec_bitcoin_rule(env, Some(a)) <==> (a.network is Regtest || (a.network is Test
            && a.script_hash)),
{
}

/// A confidential-chain address that is not in blinded form — or does not
/// parse at all — is rejected in every environment.
pub proof fn lemma_unblinded_always_rejected(env: Env, s: Seq<char>)
    requires
        conf_parse_spec(s, spec_elements_params(env)) != Some(true),
    ensures
        !spec_elements_rule(env, s),
{
}

/// Validates an address of either family for the session's environment.
/// The family code must be one of the two published codes; anything else is
/// a contract violation the boundary layer turns into an abort.
pub fn sideswap_check_addr(env: Env, addr: &str, addr_type: i32) -> (r: bool)
    requires
        addr_type == SIDESWAP_BITCOIN || addr_type == SIDESWAP_ELEMENTS,
    ensures
        addr_type == SIDESWAP_BITCOIN ==> r == spec_bitcoin_rule(env, btc_parse_spec(addr@)),
        addr_type == SIDESWAP_ELEMENTS ==> r == spec_elements_rule(env, addr@),
{
    if addr_type == SIDESWAP_BITCOIN {
        check_bitcoin_address(env, addr)
    } else {
        check_elements_address(env, addr)
    }
}

} // verus!
