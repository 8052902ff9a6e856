//! Deployment environments and the integer codes the host uses to name them.

use vstd::prelude::*;

verus! {

/// Deployment context; fixed for the lifetime of a session, it selects the
/// address-family rules and chain parameters used by the validator.
#[derive(Clone, Copy, Debug, PartialEq, Eq, Structural)]
pub enum Env {
    Prod,
    Staging,
    Regtest,
    Local,
    LocalLiquid,
    Testnet,
    LocalTestnet,
}

pub const SIDESWAP_ENV_PROD: i32 = 0;
pub const SIDESWAP_ENV_STAGING: i32 = 1;
pub const SIDESWAP_ENV_REGTEST: i32 = 2;
pub const SIDESWAP_ENV_LOCAL: i32 = 3;
pub const SIDESWAP_ENV_LOCAL_LIQUID: i32 = 4;
pub const SIDESWAP_ENV_TESTNET: i32 = 5;
pub const SIDESWAP_ENV_LOCAL_TESTNET: i32 = 6;

/// The environment that an integer code stands for, or `None` for a code
/// outside the closed enumeration.
pub open spec fn spec_env_from_code(code: i32) -> Option<Env> {
    if code == SIDESWAP_ENV_PROD {
        Some(Env::Prod)
    } else if code == SIDESWAP_ENV_STAGING {
        Some(Env::Staging)
    } else if code == SIDESWAP_ENV_REGTEST {
        Some(Env::Regtest)
    } else if code == SIDESWAP_ENV_LOCAL {
        Some(Env::Local)
    } else if code == SIDESWAP_ENV_LOCAL_LIQUID {
        Some(Env::LocalLiquid)
    } else if code == SIDESWAP_ENV_TESTNET {
        Some(Env::Testnet)
    } else if code == SIDESWAP_ENV_LOCAL_TESTNET {
        Some(Env::LocalTestnet)
    } else {
        None
    }
}

/// Decodes a host-supplied environment code. An unrecognized code yields
/// `None`; the caller treats that as a fatal startup error.
pub fn get_ffi_from_env(env: i32) -> (r: Option<Env>)
    ensures
        r == spec_env_from_code(env),
{
    match env {
        SIDESWAP_ENV_PROD => Some(Env::Prod),
        SIDESWAP_ENV_STAGING => Some(Env::Staging),
        SIDESWAP_ENV_REGTEST => Some(Env::Regtest),
        SIDESWAP_ENV_LOCAL => Some(Env::Local),
        SIDESWAP_ENV_LOCAL_LIQUID => Some(Env::LocalLiquid),
        SIDESWAP_ENV_TESTNET => Some(Env::Testnet),
        SIDESWAP_ENV_LOCAL_TESTNET => Some(Env::LocalTestnet),
        _ => None,
    }
}

} // verus!
