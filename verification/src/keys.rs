use vstd::prelude::*;

verus! {

/// An extended private key of `bitcoin::bip32`.
#[verifier::external_type_specification]
#[verifier::external_body]
pub struct ExXpriv(bdk_wallet::bitcoin::bip32::Xpriv);

/// An extended public key of `bitcoin::bip32`.
#[verifier::external_type_specification]
#[verifier::external_body]
pub struct ExXpub(bdk_wallet::bitcoin::bip32::Xpub);

/// A derivation path of `bitcoin::bip32`.
#[verifier::external_type_specification]
#[verifier::external_body]
pub struct ExDerivationPath(bdk_wallet::bitcoin::bip32::DerivationPath);

/// A public key in a descriptor, of `miniscript`.
#[verifier::external_type_specification]
#[verifier::external_body]
pub struct ExDescriptorPublicKey(bdk_wallet::miniscript::descriptor::DescriptorPublicKey);

/// A secret key in a descriptor, of `miniscript`.
#[verifier::external_type_specification]
#[verifier::external_body]
pub struct ExDescriptorSecretKey(bdk_wallet::miniscript::descriptor::DescriptorSecretKey);

/// A BIP-39 mnemonic of `bip39`.
#[verifier::external_type_specification]
#[verifier::external_body]
pub struct ExMnemonic(bdk_wallet::bip39::Mnemonic);

} // verus!
