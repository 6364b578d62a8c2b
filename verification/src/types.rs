use vstd::prelude::*;

verus! {

/// The descriptors of the two keychains of a wallet.
#[derive(Debug)]
pub struct KeychainPair {
    /// The descriptor of the external (receiving) keychain.
    pub external: String,
    /// The descriptor of the internal (change) keychain.
    pub internal: String,
}

/// The outcome of generating descriptors.
#[derive(Debug)]
pub struct DescriptorResult {
    pub descriptor: Option<String>,
    pub multipath_descriptor: Option<String>,
    pub public_descriptors: Option<KeychainPair>,
    pub private_descriptors: Option<KeychainPair>,
    pub mnemonic: Option<String>,
    pub fingerprint: Option<String>,
    pub r: Option<String>,
}

} // verus!
