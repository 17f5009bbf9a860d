//! Configuration-path and RPC-endpoint selection.
//!
//! The decisions behind loading a wallet or client configuration: which of
//! several candidate paths to use, and which RPC endpoint a read client
//! should connect to.  Probing the filesystem and opening connections is
//! the surrounding tooling's job; it hands the results of those probes in
//! as plain values.

use vstd::prelude::*;
use crate::types::ClientError;

verus! {

/// Default URL of the testnet RPC node.
pub const TESTNET_RPC: &'static str = "https://fullnode.testnet.sui.io:443";

/// Default RPC URL to connect to if none is specified explicitly or in the
/// wallet config.
pub const DEFAULT_RPC_URL: &'static str = TESTNET_RPC;

/// Returns the path if it is `Some`, or the first of the default paths that
/// exists (tried in order).  `defaults_exist[i]` reports whether
/// `defaults[i]` exists, as probed by the caller.
pub fn path_or_defaults_if_exist(
    path: &Option<String>,
    defaults: &Vec<String>,
    defaults_exist: &Vec<bool>,
) -> (chosen: Option<String>)
    requires
        defaults@.len() == defaults_exist@.len(),
    ensures
        path matches Some(p) ==> (chosen matches Some(q) && q@ == p@),
        path is None ==> ((chosen matches Some(q) ==> exists|i: int|
            0 <= i < defaults@.len() && #[trigger] defaults_exist@[i] && q@ == defaults@[i]@ && (
            forall|j: int| 0 <= j < i ==> !defaults_exist@[j]))),
        path is None ==> ((chosen is None) <==> (forall|i: int|
            0 <= i < defaults_exist@.len() ==> !defaults_exist@[i])),
{
    match path {
        Some(p) => Some(p.clone()),
        None => {
            let mut i: usize = 0;
            while i < defaults.len()
                invariant
                    path is None,
                    i <= defaults@.len(),
                    defaults@.len() == defaults_exist@.len(),
                    forall|j: int| 0 <= j < i ==> !defaults_exist@[j],
                decreases defaults@.len() - i,
            {
                if defaults_exist[i] {
                    return Some(defaults[i].clone());
                }
                i = i + 1;
            }
            None
        },
    }
}

/// The RPC endpoint a read client should connect to.
pub enum RpcSource {
    /// An explicitly given RPC URL.
    ExplicitUrl(String),
    /// The RPC URL recorded in the wallet configuration.
    WalletConfig,
    /// The well-known default RPC URL.
    DefaultUrl,
}

/// Decides which RPC endpoint a read client uses: an explicitly set URL
/// wins; otherwise the wallet configuration, if one loaded; otherwise the
/// default URL, but only when falling back to it is allowed.  With no URL,
/// no wallet and no fallback allowed, no endpoint is available and the
/// caller surfaces the wallet's load error.
pub fn choose_rpc_source(
    rpc_url: Option<String>,
    wallet_available: bool,
    allow_fallback_to_default: bool,
) -> (chosen: Result<RpcSource, ClientError>)
    ensures
        rpc_url matches Some(u) ==> (chosen matches Ok(RpcSource::ExplicitUrl(v)) && v@ == u@),
        rpc_url is None && wallet_available ==> chosen == Ok::<RpcSource, ClientError>(
            RpcSource::WalletConfig,
        ),
        rpc_url is None && !wallet_available && allow_fallback_to_default ==> chosen == Ok::<
            RpcSource,
            ClientError,
        >(RpcSource::DefaultUrl),
        rpc_url is None && !wallet_available && !allow_fallback_to_default ==> chosen == Err::<
            RpcSource,
            ClientError,
        >(ClientError::InvalidConfig),
{
    match rpc_url {
        Some(url) => Ok(RpcSource::ExplicitUrl(url)),
        None => {
            if wallet_available {
                Ok(RpcSource::WalletConfig)
            } else if allow_fallback_to_default {
                Ok(RpcSource::DefaultUrl)
            } else {
                Err(ClientError::InvalidConfig)
            }
        },
    }
}

} // verus!
