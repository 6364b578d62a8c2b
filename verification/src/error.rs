use vstd::prelude::*;

verus! {

/// An error of `bitcoin::bip32`: parsing of extended keys and derivation paths, key derivation.
#[verifier::external_type_specification]
#[verifier::external_body]
pub struct ExBip32Error(bdk_wallet::bitcoin::bip32::Error);

/// An error of `bip39`: parsing or generating a mnemonic.
#[verifier::external_type_specification]
#[verifier::external_body]
pub struct ExBip39Error(bdk_wallet::bip39::Error);

/// An error of `bdk_wallet::descriptor`: parsing, checking and building wallet descriptors.
#[verifier::external_type_specification]
#[verifier::external_body]
pub struct ExDescriptorError(bdk_wallet::descriptor::DescriptorError);

/// An error of `miniscript`: building descriptors and miniscript fragments.
#[verifier::external_type_specification]
#[verifier::external_body]
pub struct ExMiniscriptError(bdk_wallet::miniscript::Error);

/// An error of `miniscript` parsing a descriptor key.
#[verifier::external_type_specification]
#[verifier::external_body]
pub struct ExDescriptorKeyParseError(bdk_wallet::miniscript::descriptor::DescriptorKeyParseError);

/// Errors of the descriptor and wallet operations of this library.
#[derive(Debug)]
pub enum BDKCliError {
    /// An error described by a message.
    Generic(String),
    /// A multipath external descriptor was given together with a separate internal descriptor.
    AmbiguousDescriptors,
    /// The internal descriptor is itself a multipath descriptor.
    MultipathInternalDescriptor,
    /// An extended key or a derivation path could not be parsed or derived.
    BIP32Error(bdk_wallet::bitcoin::bip32::Error),
    /// A mnemonic could not be generated (`None` when no detail is known) or parsed.
    BIP39Error(Option<bdk_wallet::bip39::Error>),
    /// A wallet descriptor could not be parsed, checked or built.
    DescriptorError(bdk_wallet::descriptor::DescriptorError),
    /// A descriptor or miniscript fragment could not be built.
    MiniscriptError(bdk_wallet::miniscript::Error),
    /// A descriptor key could not be parsed.
    DescriptorKeyError(bdk_wallet::miniscript::descriptor::DescriptorKeyParseError),
}

} // verus!
