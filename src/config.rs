//! Wallet settings: the mobile configuration, the network it names, and the
//! arguments of a new transaction.
use vstd::prelude::*;

use crate::address::{has_prefix, starts_with};
use crate::error::WalletError;

verus! {

/// Confirmations an output needs before it counts in the balance.
pub const MINIMUM_CONFIRMATIONS: u64 = 10;

/// Confirmations an output needs before it can be spent by a new transaction.
pub const SENDING_MINIMUM_CONFIRMATIONS: u64 = 0;

/// The most outputs one transaction may spend.
pub const MAX_OUTPUTS: usize = 500;

/// The change outputs one transaction creates.
pub const NUM_CHANGE_OUTPUTS: usize = 1;

/// The network a wallet works on.
#[derive(Debug, Clone, Copy, PartialEq, Eq, Structural)]
pub enum ChainType {
    Mainnet,
    Floonet,
}

/// The name of the main network.
pub open spec fn mainnet_name() -> Seq<char> {
    seq!['m', 'a', 'i', 'n', 'n', 'e', 't']
}

/// The name of the test network.
pub open spec fn floonet_name() -> Seq<char> {
    seq!['f', 'l', 'o', 'o', 'n', 'e', 't']
}

/// The network a configured name stands for.
pub open spec fn chain_type_of(s: Seq<char>) -> Result<ChainType, WalletError> {
    if s == mainnet_name() {
        Ok(ChainType::Mainnet)
    } else if s == floonet_name() {
        Ok(ChainType::Floonet)
    } else {
        Err(WalletError::ConfigurationError)
    }
}

/// Whether two strings hold the same characters.
pub fn same_text(a: &str, b: &str) -> (r: bool)
    ensures
        r == (a@ == b@),
{
    if a.unicode_len() != b.unicode_len() {
        return false;
    }
    let r = starts_with(a, b);
    assert(a@ =~= a@.subrange(0, b@.len() as int));
    r
}

/// Reads the network name: `mainnet` or `floonet`; any other is a
/// `ConfigurationError`.
pub fn parse_chain_type(s: &str) -> (r: Result<ChainType, WalletError>)
    ensures
        r == chain_type_of(s@),
{
    proof {
        reveal_strlit("mainnet");
        reveal_strlit("floonet");
    }
    assert("mainnet"@ =~= mainnet_name());
    assert("floonet"@ =~= floonet_name());
    if same_text(s, "mainnet") {
        Ok(ChainType::Mainnet)
    } else if same_text(s, "floonet") {
        Ok(ChainType::Floonet)
    } else {
        Err(WalletError::ConfigurationError)
    }
}

/// The directory below the configured data directory that holds the wallet.
pub open spec fn wallet_data_suffix() -> Seq<char> {
    seq!['/', 'w', 'a', 'l', 'l', 'e', 't', '_', 'd', 'a', 't', 'a']
}

/// The wallet's own directory inside `data_dir`.
pub fn wallet_data_dir(data_dir: &str) -> (r: String)
    ensures
        r@ == data_dir@ + wallet_data_suffix(),
{
    proof {
        reveal_strlit("/wallet_data");
    }
    assert("/wallet_data"@ =~= wallet_data_suffix());
    let base = data_dir.to_owned();
    base.concat("/wallet_data")
}

/// The address prefix of the node pool whose nearest member is picked
/// before use.
pub open spec fn node_pool_prefix() -> Seq<char> {
    seq![
        'h', 't', 't', 'p', 's', ':', '/', '/', 'n', 'o', 'd', 'e', 's', '.', 'g', 'r', 'i', 'n',
        '.', 'i', 'c', 'u',
    ]
}

/// Whether a node address names the node pool, so that the nearest node
/// must be selected first; any other address is used as it is.
pub fn needs_node_selection(node_api_addr: &str) -> (r: bool)
    ensures
        r == has_prefix(node_api_addr@, node_pool_prefix()),
{
    proof {
        reveal_strlit("https://nodes.grin.icu");
    }
    assert("https://nodes.grin.icu"@ =~= node_pool_prefix());
    starts_with(node_api_addr, "https://nodes.grin.icu")
}

/// The slate version asked for by a signed number: none when negative.
pub fn target_slate_version(v: i16) -> (r: Option<u16>)
    ensures
        v >= 0 ==> r == Some(v as u16),
        v < 0 ==> r is None,
{
    if v >= 0 {
        Some(v as u16)
    } else {
        None
    }
}

/// The seed length in bytes: 16 for a twelve-word phrase, else 32.
pub fn seed_length(is_12_phrases: bool) -> (r: usize)
    ensures
        r == if is_12_phrases {
            16usize
        } else {
            32usize
        },
{
    if is_12_phrases {
        16
    } else {
        32
    }
}

/// The settings of a mobile wallet as the app hands them over.
#[derive(Debug, Clone)]
pub struct MobileWalletCfg {
    pub account: String,
    pub chain_type: String,
    pub data_dir: String,
    pub node_api_addr: String,
    pub node_api_secret: String,
    pub password: String,
    pub minimum_confirmations: u64,
}

/// The settings the wallet backend runs with.
#[derive(Debug, Clone)]
pub struct WalletSettings {
    pub chain_type: ChainType,
    pub data_file_dir: String,
    pub node_api_addr: String,
    pub node_api_secret: Option<String>,
}

impl MobileWalletCfg {
    /// The backend settings: the named network, the wallet directory inside
    /// the data directory, and the node's address and secret. An unknown
    /// network is a `ConfigurationError`.
    pub fn settings(&self) -> (r: Result<WalletSettings, WalletError>)
        ensures
            chain_type_of(self.chain_type@) is Err ==> r == Err::<WalletSettings, WalletError>(
                WalletError::ConfigurationError,
            ),
            chain_type_of(self.chain_type@) matches Ok(c) ==> (r matches Ok(w) && w.chain_type == c
                && w.data_file_dir@ == self.data_dir@ + wallet_data_suffix() && w.node_api_addr@
                == self.node_api_addr@ && (w.node_api_secret matches Some(sec) && sec@
                == self.node_api_secret@)),
    {
        let chain_type = match parse_chain_type(self.chain_type.as_str()) {
            Ok(c) => c,
            Err(e) => return Err(e),
        };
        Ok(
            WalletSettings {
                chain_type,
                data_file_dir: wallet_data_dir(self.data_dir.as_str()),
                node_api_addr: self.node_api_addr.as_str().to_owned(),
                node_api_secret: Some(self.node_api_secret.as_str().to_owned()),
            },
        )
    }
}

/// The arguments of a new outgoing transaction.
#[derive(Debug, Clone)]
pub struct SendArgs {
    pub amount: u64,
    pub minimum_confirmations: u64,
    pub max_outputs: usize,
    pub num_change_outputs: usize,
    pub selection_strategy: String,
    pub message: Option<String>,
    pub target_slate_version: Option<u16>,
}

impl SendArgs {
    /// The arguments of a transaction of `amount`, spending outputs of any
    /// confirmation count, at most `MAX_OUTPUTS` of them, with one change output.
    pub fn new(amount: u64, selection_strategy: &str, target_slate_version: Option<u16>, message: &str) -> (r: SendArgs)
        ensures
            r.amount == amount,
            r.minimum_confirmations == SENDING_MINIMUM_CONFIRMATIONS,
            r.max_outputs == MAX_OUTPUTS,
            r.num_change_outputs == NUM_CHANGE_OUTPUTS,
            r.selection_strategy@ == selection_strategy@,
            r.message matches Some(m) && m@ == message@,
            r.target_slate_version == target_slate_version,
    {
        SendArgs {
            amount,
            minimum_confirmations: SENDING_MINIMUM_CONFIRMATIONS,
            max_outputs: MAX_OUTPUTS,
            num_change_outputs: NUM_CHANGE_OUTPUTS,
            selection_strategy: selection_strategy.to_owned(),
            message: Some(message.to_owned()),
            target_slate_version,
        }
    }
}

} // verus!
