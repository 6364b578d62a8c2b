use vstd::prelude::*;

verus! {

/// The network a wallet works on.
#[derive(Clone, Copy, Debug, PartialEq, Eq, Structural)]
pub enum Network {
    /// Mainnet Bitcoin.
    Bitcoin,
    /// Bitcoin's testnet network.
    Testnet,
    /// Bitcoin's testnet4 network.
    Testnet4,
    /// Bitcoin's signet network.
    Signet,
    /// Bitcoin's regtest network.
    Regtest,
}

/// Whether keys and addresses are those of the main network or of a test network.
#[derive(Clone, Copy, Debug, PartialEq, Eq, Structural)]
pub enum NetworkKind {
    /// The Bitcoin mainnet network.
    Main,
    /// Some kind of testnet network.
    Test,
}

/// The kind of a network: only `Bitcoin` is the main network.
pub open spec fn kind_of(network: Network) -> NetworkKind {
    match network {
        Network::Bitcoin => NetworkKind::Main,
        _ => NetworkKind::Test,
    }
}

/// Returns the kind of `network`.
pub fn network_kind(network: Network) -> (kind: NetworkKind)
    ensures
        kind == kind_of(network),
{
    match network {
        Network::Bitcoin => NetworkKind::Main,
        Network::Testnet | Network::Testnet4 | Network::Signet | Network::Regtest => NetworkKind::Test,
    }
}

} // verus!
