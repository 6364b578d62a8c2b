use vstd::prelude::*;
use vstd::string::*;
use bdk_wallet::bip39::{Language, Mnemonic};
use bdk_wallet::bitcoin::bip32::{DerivationPath, Xpriv, Xpub};
use bdk_wallet::bitcoin::secp256k1::Secp256k1;
use bdk_wallet::bitcoin::NetworkKind as BitcoinNetworkKind;
use bdk_wallet::keys::bip39::WordCount;
use bdk_wallet::keys::{GeneratableKey, GeneratedKey};
use bdk_wallet::miniscript::descriptor::{
    DescriptorPublicKey, DescriptorXKey, KeyMap, Wildcard,
};
use bdk_wallet::miniscript::{Descriptor, Miniscript, Segwitv0, Terminal};
use bdk_wallet::template::{Bip44, Bip49, Bip84, Bip86, DescriptorTemplate};
use bdk_wallet::KeychainKind as WalletKeychainKind;
use std::sync::Arc;
use crate::error::BDKCliError;
use crate::network::NetworkKind;
use crate::text::{
    ascii_lowercase, decimal, digit_char, is_ascii_text, lowercase, push_char, push_decimal, same_text,
    starts_with, text_starts_with, to_lowercase,
};
use crate::types::{DescriptorResult, KeychainPair};

verus! {

/// The script types for which descriptors are generated.
#[derive(Clone, Copy, Debug, PartialEq, Eq, Structural)]
pub enum ScriptKind {
    /// Pay to public key hash.
    Pkh,
    /// Pay to witness public key hash nested in pay to script hash.
    Sh,
    /// Pay to witness public key hash.
    Wpkh,
    /// Pay to witness script hash.
    Wsh,
    /// Pay to taproot.
    Tr,
}

/// The BIP descriptor templates used for extended private keys.
#[derive(Clone, Copy, Debug, PartialEq, Eq, Structural)]
pub enum BipTemplate {
    Bip44,
    Bip49,
    Bip84,
    Bip86,
}

/// The two keychains of a wallet.
#[derive(Clone, Copy, Debug, PartialEq, Eq, Structural)]
pub enum KeychainKind {
    /// Receiving addresses.
    External,
    /// Change addresses.
    Internal,
}

/// The script type that a lowercase type name names, if any.
pub open spec fn script_kind_of(lower: Seq<char>) -> Option<ScriptKind> {
    if lower == seq!['p', 'k', 'h'] {
        Some(ScriptKind::Pkh)
    } else if lower == seq!['s', 'h'] {
        Some(ScriptKind::Sh)
    } else if lower == seq!['w', 'p', 'k', 'h'] {
        Some(ScriptKind::Wpkh)
    } else if lower == seq!['w', 's', 'h'] {
        Some(ScriptKind::Wsh)
    } else if lower == seq!['t', 'r'] {
        Some(ScriptKind::Tr)
    } else {
        None
    }
}

/// The script type that a descriptor type name names, whatever its case.
pub open spec fn descriptor_kind(desc_type: Seq<char>) -> Option<ScriptKind> {
    script_kind_of(lowercase(desc_type))
}

/// The template used for an extended private key: `wsh` shares BIP-84 with `wpkh`.
pub open spec fn template_for(kind: ScriptKind) -> BipTemplate {
    match kind {
        ScriptKind::Pkh => BipTemplate::Bip44,
        ScriptKind::Sh => BipTemplate::Bip49,
        ScriptKind::Wpkh => BipTemplate::Bip84,
        ScriptKind::Wsh => BipTemplate::Bip84,
        ScriptKind::Tr => BipTemplate::Bip86,
    }
}

/// The purpose number of a template.
pub open spec fn purpose_of(template: BipTemplate) -> u32 {
    match template {
        BipTemplate::Bip44 => 44,
        BipTemplate::Bip49 => 49,
        BipTemplate::Bip84 => 84,
        BipTemplate::Bip86 => 86,
    }
}

/// The purpose used in the account path of an extended public key: that of the template of
/// the script type, and 84 for an unknown type.
pub open spec fn account_purpose(kind: Option<ScriptKind>) -> u32 {
    match kind {
        Some(k) => purpose_of(template_for(k)),
        None => 84,
    }
}

/// The coin type of BIP-44: 0 on the main network, 1 on test networks.
pub open spec fn coin_type(network: NetworkKind) -> u32 {
    match network {
        NetworkKind::Main => 0,
        NetworkKind::Test => 1,
    }
}

/// The hardened account path `m/{purpose}h/{coin}h/0h`.
pub open spec fn account_path_text(purpose: u32, coin: u32) -> Seq<char> {
    seq!['m', '/'] + decimal(purpose as nat) + seq!['h', '/'] + decimal(coin as nat) + seq![
        'h',
        '/',
        '0',
        'h',
    ]
}

/// Whether a key is given as an extended private key (`xprv` or `tprv`).
pub open spec fn is_private_key_text(key: Seq<char>) -> bool {
    starts_with(key, seq!['x', 'p', 'r', 'v']) || starts_with(key, seq!['t', 'p', 'r', 'v'])
}

/// The message of an unknown descriptor type.
pub open spec fn unsupported_type_message(desc_type: Seq<char>) -> Seq<char> {
    "Unsupported descriptor type: "@ + desc_type
}


/// How an extended private key came to be: parsed from its text, or the master key of a seed
/// for networks of a kind.
pub enum PrivateKeyOrigin {
    Parsed(Seq<char>),
    Master(NetworkKind, Seq<u8>),
}

/// The BIP-39 word lists that `bip39` offers as it is built here (`bip39::Language`).
#[derive(Clone, Copy, Debug, PartialEq, Eq, Structural)]
pub enum WordList {
    English,
}

/// The lengths of a new mnemonic (`WordCount` of `bdk_wallet`).
#[derive(Clone, Copy, Debug, PartialEq, Eq, Structural)]
pub enum MnemonicLength {
    Words12,
    Words15,
    Words18,
    Words21,
    Words24,
}

/// The number of words of a mnemonic of length `length`.
pub open spec fn word_count(length: MnemonicLength) -> nat {
    match length {
        MnemonicLength::Words12 => 12,
        MnemonicLength::Words15 => 15,
        MnemonicLength::Words18 => 18,
        MnemonicLength::Words21 => 21,
        MnemonicLength::Words24 => 24,
    }
}

/// A mnemonic given by a phrase and the word list it is read with: the mnemonic that
/// `Mnemonic::parse_in` gives for them.
pub struct MnemonicText {
    pub list: WordList,
    pub phrase: Seq<char>,
}

/// `words` with one space between two.
pub open spec fn joined_by_spaces(words: Seq<Seq<char>>) -> Seq<char>
    decreases words.len(),
{
    if words.len() <= 1 {
        if words.len() == 0 {
            seq![]
        } else {
            words[0]
        }
    } else {
        joined_by_spaces(words.drop_last()) + seq![' '] + words.last()
    }
}

/// Whether `word` is a non-empty word of lowercase ASCII letters.
pub open spec fn lowercase_word(word: Seq<char>) -> bool {
    word.len() > 0 && forall|i: int| 0 <= i < word.len() ==> 'a' <= #[trigger] word[i] <= 'z'
}

/// Whether `phrase` is `n` lowercase words with one space between two.
pub open spec fn phrase_of_words(phrase: Seq<char>, n: nat) -> bool {
    exists|words: Seq<Seq<char>>|
        {
            &&& words.len() == n
            &&& forall|i: int| 0 <= i < words.len() ==> lowercase_word(#[trigger] words[i])
            &&& phrase == joined_by_spaces(words)
        }
}

/// The wildcards that can end the path of an extended descriptor key (`Wildcard` of
/// `miniscript`): none, `*` or `*h`.
#[derive(Clone, Copy, Debug, PartialEq, Eq, Structural)]
pub enum KeyWildcard {
    NoWildcard,
    Unhardened,
    Hardened,
}

/// How a descriptor key came to be: parsed from its text, or made of an extended public key
/// (given by its text) below `branch` and ending in `wildcard`, with the origin of
/// `fingerprint` at `origin` (paths given by their texts).
pub enum DescriptorKeyModel {
    Parsed(Seq<char>),
    XPub {
        fingerprint: Seq<u8>,
        origin: Seq<char>,
        xpub: Seq<char>,
        branch: Seq<char>,
        wildcard: KeyWildcard,
    },
}

/// How a descriptor came to be: built over a key by a `miniscript` constructor, by a BIP
/// template from a private key for a keychain and networks of a kind, or parsed.
pub enum DescriptorModel {
    Pkh(DescriptorKeyModel),
    Wpkh(DescriptorKeyModel),
    ShWpkh(DescriptorKeyModel),
    WshPk(DescriptorKeyModel),
    Tr(DescriptorKeyModel),
    Template(BipTemplate, PrivateKeyOrigin, KeychainKind, NetworkKind),
    /// A wallet descriptor parsed from its text for networks of a kind.
    Wallet(Seq<char>, NetworkKind),
}

/// An extended private key of `bitcoin::bip32`, with how it came to be.
pub struct ExtendedPrivateKey {
    key: Xpriv,
    origin: Ghost<PrivateKeyOrigin>,
}

impl View for ExtendedPrivateKey {
    type V = PrivateKeyOrigin;

    closed spec fn view(&self) -> PrivateKeyOrigin {
        self.origin@
    }
}

/// An extended public key of `bitcoin::bip32`, with the text it was parsed from.
pub struct ExtendedPublicKey {
    key: Xpub,
    text: Ghost<Seq<char>>,
}

impl View for ExtendedPublicKey {
    type V = Seq<char>;

    closed spec fn view(&self) -> Seq<char> {
        self.text@
    }
}

/// A derivation path of `bitcoin::bip32`, with the text it was parsed from.
pub struct KeyPath {
    path: DerivationPath,
    text: Ghost<Seq<char>>,
}

impl View for KeyPath {
    type V = Seq<char>;

    closed spec fn view(&self) -> Seq<char> {
        self.text@
    }
}

/// A public key in a descriptor, of `miniscript`, with how it came to be.
pub struct DescriptorKey {
    key: DescriptorPublicKey,
    model: Ghost<DescriptorKeyModel>,
}

impl View for DescriptorKey {
    type V = DescriptorKeyModel;

    closed spec fn view(&self) -> DescriptorKeyModel {
        self.model@
    }
}

/// A value of `miniscript::Descriptor<DescriptorPublicKey>`, held opaquely in a private field
/// that only the wrappers of `miniscript` reach.
#[verifier::external_body]
pub(crate) struct DescriptorHandle {
    pub(crate) inner: bdk_wallet::descriptor::ExtendedDescriptor,
}

/// An output script descriptor over public descriptor keys, with how it came to be.
pub struct PublicDescriptor {
    pub(crate) handle: DescriptorHandle,
    pub(crate) model: Ghost<DescriptorModel>,
}

impl View for PublicDescriptor {
    type V = DescriptorModel;

    closed spec fn view(&self) -> DescriptorModel {
        self.model@
    }
}

/// A descriptor built by a BIP template, with the secret keys of its public keys.
struct TemplateDescriptor {
    descriptor: PublicDescriptor,
    keymap: KeyMap,
}

/// A value of `miniscript::Miniscript<DescriptorPublicKey, Segwitv0>`, held as
/// `DescriptorHandle` is.
#[verifier::external_body]
struct MiniscriptHandle {
    inner: bdk_wallet::miniscript::Miniscript<
        bdk_wallet::miniscript::descriptor::DescriptorPublicKey,
        bdk_wallet::miniscript::Segwitv0,
    >,
}

/// The segwit fragment `pk(key)`, with the key it is made of.
struct CheckedKey {
    handle: MiniscriptHandle,
    key: Ghost<DescriptorKeyModel>,
}

/// A value of `miniscript`'s `TapTree<DescriptorPublicKey>`, a taproot script tree, held as
/// `DescriptorHandle` is.
#[verifier::external_body]
pub(crate) struct ScriptTreeHandle {
    inner: bdk_wallet::miniscript::descriptor::TapTree<DescriptorPublicKey>,
}

/// A BIP-39 mnemonic of `bip39`, with the phrase and word list it is read from.
pub struct MnemonicKey {
    mnemonic: Mnemonic,
    text: Ghost<MnemonicText>,
}

impl View for MnemonicKey {
    type V = MnemonicText;

    closed spec fn view(&self) -> MnemonicText {
        self.text@
    }
}

/// Whether `Xpriv::from_str` accepts `text`.
pub uninterp spec fn xpriv_parses(text: Seq<char>) -> bool;

/// Whether `Xpub::from_str` accepts `text`.
pub uninterp spec fn xpub_parses(text: Seq<char>) -> bool;

/// The value of the decimal digits `digits`.
pub open spec fn digits_value(digits: Seq<char>) -> int
    decreases digits.len(),
{
    if digits.len() == 0 {
        0
    } else {
        digits_value(digits.drop_last()) * 10 + (digits.last() as int - '0' as int)
    }
}

/// The number that `u32::from_str` reads from `text`, if any: an optional `+` and then one or
/// more decimal digits, of a value that fits in a `u32`.
pub open spec fn u32_text_value(text: Seq<char>) -> Option<int> {
    let digits = if text.len() > 0 && text[0] == '+' {
        text.subrange(1, text.len() as int)
    } else {
        text
    };
    if digits.len() > 0 && (forall|i: int| 0 <= i < digits.len() ==> '0' <= #[trigger] digits[i] <= '9')
        && digits_value(digits) <= u32::MAX {
        Some(digits_value(digits))
    } else {
        None
    }
}

/// Whether `ChildNumber::from_str` accepts `text`: an index below 2^31, hardened where it ends
/// in `h` or `'`.
pub open spec fn child_number_parses(text: Seq<char>) -> bool {
    let hardened = text.len() > 0 && (text.last() == 'h' || text.last() == '\'');
    let index = if hardened {
        text.drop_last()
    } else {
        text
    };
    match u32_text_value(index) {
        Some(v) => v < 0x8000_0000,
        None => false,
    }
}

/// Whether each `/`-separated part of `rest` followed by `part` is a child number, where
/// `part` holds the characters after the last `/` of the text seen so far.
pub open spec fn child_numbers_parse(rest: Seq<char>, part: Seq<char>) -> bool
    decreases rest.len(),
{
    if rest.len() == 0 {
        child_number_parses(part)
    } else if rest.last() == '/' {
        child_number_parses(part) && child_numbers_parse(rest.drop_last(), seq![])
    } else {
        child_numbers_parse(rest.drop_last(), seq![rest.last()] + part)
    }
}

/// Whether `DerivationPath::from_str` accepts `text`: the empty path (``, `m` or `m/`), or
/// child numbers separated by `/`, after an optional `m/`.
pub open spec fn path_parses(text: Seq<char>) -> bool {
    if text.len() == 0 || text == seq!['m'] || text == seq!['m', '/'] {
        true
    } else if starts_with(text, seq!['m', '/']) {
        child_numbers_parse(text.subrange(2, text.len() as int), seq![])
    } else {
        child_numbers_parse(text, seq![])
    }
}

/// Whether `DescriptorPublicKey::from_str` accepts `text`.
pub uninterp spec fn descriptor_key_parses(text: Seq<char>) -> bool;

/// Whether `Mnemonic::parse_in` with the word list `list` accepts `text`.
pub uninterp spec fn mnemonic_parses(list: WordList, text: Seq<char>) -> bool;

/// The bytes of `Xpriv::fingerprint` of a key.
pub uninterp spec fn xpriv_fingerprint_of(key: PrivateKeyOrigin) -> Seq<u8>;

/// The bytes of `Xpub::fingerprint` of the key parsed from `text`.
pub uninterp spec fn xpub_fingerprint_of(text: Seq<char>) -> Seq<u8>;

/// The text that the `Display` of `Xpriv` gives for a key.
pub uninterp spec fn xpriv_text_of(key: PrivateKeyOrigin) -> Seq<char>;

/// Whether `Xpriv::new_master` accepts `seed` for networks of `network`.
pub uninterp spec fn master_key_valid(network: NetworkKind, seed: Seq<u8>) -> bool;

/// The seed that `Mnemonic::to_seed` gives for a mnemonic and a passphrase.
pub uninterp spec fn seed_of_mnemonic(mnemonic: MnemonicText, passphrase: Seq<char>) -> Seq<u8>;

/// Whether `Bip44::build` succeeds for a key, keychain and network kind.
pub uninterp spec fn bip44_builds(key: PrivateKeyOrigin, keychain: KeychainKind, network: NetworkKind) -> bool;

/// Whether `Bip49::build` succeeds for a key, keychain and network kind.
pub uninterp spec fn bip49_builds(key: PrivateKeyOrigin, keychain: KeychainKind, network: NetworkKind) -> bool;

/// Whether `Bip84::build` succeeds for a key, keychain and network kind.
pub uninterp spec fn bip84_builds(key: PrivateKeyOrigin, keychain: KeychainKind, network: NetworkKind) -> bool;

/// Whether `Bip86::build` succeeds for a key, keychain and network kind.
pub uninterp spec fn bip86_builds(key: PrivateKeyOrigin, keychain: KeychainKind, network: NetworkKind) -> bool;

/// Whether `Descriptor::new_pkh` accepts a key.
pub uninterp spec fn pkh_builds(key: DescriptorKeyModel) -> bool;

/// Whether `Descriptor::new_wpkh` accepts a key.
pub uninterp spec fn wpkh_builds(key: DescriptorKeyModel) -> bool;

/// Whether `Descriptor::new_sh_wpkh` accepts a key.
pub uninterp spec fn sh_wpkh_builds(key: DescriptorKeyModel) -> bool;

/// Whether `Descriptor::new_tr` with no script tree accepts a key.
pub uninterp spec fn tr_builds(key: DescriptorKeyModel) -> bool;

/// Whether `Miniscript::from_ast` accepts `pk_k(key)` and then `c:` of it.
pub uninterp spec fn checked_key_builds(key: DescriptorKeyModel) -> bool;

/// Whether `Descriptor::new_wsh` accepts `pk(key)`.
pub uninterp spec fn wsh_builds(key: DescriptorKeyModel) -> bool;

/// The text that the `Display` of `miniscript::Descriptor` gives for a descriptor.
pub uninterp spec fn descriptor_text_of(descriptor: DescriptorModel) -> Seq<char>;

/// The text that `Descriptor::to_string_with_secret` gives for a descriptor built by a BIP
/// template, with the secret keys that the template built along with it.
pub uninterp spec fn secret_text_of(descriptor: DescriptorModel) -> Seq<char>;


/// The lowercase hexadecimal digit of `d`, which is below sixteen.
pub open spec fn hex_digit(d: int) -> char {
    if d < 10 {
        ((d + 48) as u8) as char
    } else {
        ((d + 87) as u8) as char
    }
}

/// The lowercase hexadecimal notation of `bytes`, two digits per byte: how a key fingerprint
/// is shown.
pub open spec fn lower_hex(bytes: Seq<u8>) -> Seq<char>
    decreases bytes.len(),
{
    if bytes.len() == 0 {
        seq![]
    } else {
        lower_hex(bytes.drop_last()) + seq![
            hex_digit(bytes.last() as int / 16),
            hex_digit(bytes.last() as int % 16),
        ]
    }
}

/// Why a step of generating descriptors failed, by the error it reports.
pub enum Failure {
    /// A key or a derivation path could not be parsed or derived.
    Bip32,
    /// A template could not build its descriptor.
    Descriptor,
    /// `miniscript` refused to build a descriptor.
    Miniscript,
    /// The descriptor type is unknown.
    Unsupported,
}

/// Whether `r` reports `failure`; an unknown type is reported with its message.
pub open spec fn reports_failure<T>(r: Result<T, BDKCliError>, failure: Failure, desc_type: Seq<char>) -> bool {
    match failure {
        Failure::Bip32 => r matches Err(BDKCliError::BIP32Error(_)),
        Failure::Descriptor => r matches Err(BDKCliError::DescriptorError(_)),
        Failure::Miniscript => r matches Err(BDKCliError::MiniscriptError(_)),
        Failure::Unsupported => r matches Err(BDKCliError::Generic(m)) && m@
            == unsupported_type_message(desc_type),
    }
}

/// What building a descriptor gives: a failure, or the descriptor.
pub enum BuildOutcome {
    Failed(Failure),
    Built(DescriptorModel),
}

/// The descriptor of script type `kind` over `key`, as `build_public_descriptor` builds it.
pub open spec fn key_descriptor(kind: ScriptKind, key: DescriptorKeyModel) -> BuildOutcome {
    match kind {
        ScriptKind::Pkh => if pkh_builds(key) {
            BuildOutcome::Built(DescriptorModel::Pkh(key))
        } else {
            BuildOutcome::Failed(Failure::Miniscript)
        },
        ScriptKind::Wpkh => if wpkh_builds(key) {
            BuildOutcome::Built(DescriptorModel::Wpkh(key))
        } else {
            BuildOutcome::Failed(Failure::Miniscript)
        },
        ScriptKind::Sh => if sh_wpkh_builds(key) {
            BuildOutcome::Built(DescriptorModel::ShWpkh(key))
        } else {
            BuildOutcome::Failed(Failure::Miniscript)
        },
        ScriptKind::Wsh => if checked_key_builds(key) && wsh_builds(key) {
            BuildOutcome::Built(DescriptorModel::WshPk(key))
        } else {
            BuildOutcome::Failed(Failure::Miniscript)
        },
        ScriptKind::Tr => if tr_builds(key) {
            BuildOutcome::Built(DescriptorModel::Tr(key))
        } else {
            BuildOutcome::Failed(Failure::Miniscript)
        },
    }
}

/// The descriptor of type `desc_type` over `key`; an unknown type fails.
pub open spec fn public_descriptor_of(desc_type: Seq<char>, key: DescriptorKeyModel) -> BuildOutcome {
    match descriptor_kind(desc_type) {
        None => BuildOutcome::Failed(Failure::Unsupported),
        Some(kind) => key_descriptor(kind, key),
    }
}

/// The descriptor key of the unhardened wildcard children of `branch` below the extended
/// public key `xpub` (its text), whose origin is `xpub` itself, by its fingerprint, at `origin`.
pub open spec fn xpub_branch_key(xpub: Seq<char>, origin: Seq<char>, branch: Seq<char>) -> DescriptorKeyModel {
    DescriptorKeyModel::XPub {
        fingerprint: xpub_fingerprint_of(xpub),
        origin,
        xpub,
        branch,
        wildcard: KeyWildcard::Unhardened,
    }
}

/// The descriptor of the children of `branch` below the extended public key `xpub`, with the
/// origin of `fingerprint` at `origin`: the branch path is parsed first.
pub open spec fn branch_descriptor(
    desc_type: Seq<char>,
    fingerprint: Seq<u8>,
    origin: Seq<char>,
    xpub: Seq<char>,
    branch: Seq<char>,
) -> BuildOutcome {
    if !path_parses(branch) {
        BuildOutcome::Failed(Failure::Bip32)
    } else {
        public_descriptor_of(
            desc_type,
            DescriptorKeyModel::XPub {
                fingerprint,
                origin,
                xpub,
                branch,
                wildcard: KeyWildcard::Unhardened,
            },
        )
    }
}

/// The texts of generated descriptors: the public ones of both keychains, the private ones
/// when a private key was given, and the fingerprint of the key.
pub struct GeneratedTexts {
    pub public_external: Seq<char>,
    pub public_internal: Seq<char>,
    pub private: Option<(Seq<char>, Seq<char>)>,
    pub fingerprint: Seq<u8>,
}

/// What generating descriptors gives: a failure, or the generated texts.
pub enum Generation {
    Failed(Failure),
    Generated(GeneratedTexts),
}

/// The external keychain's branch.
pub open spec fn external_branch() -> Seq<char> {
    seq!['0']
}

/// The internal keychain's branch.
pub open spec fn internal_branch() -> Seq<char> {
    seq!['1']
}

/// Generating public descriptors of the extended public key `key` whose origin is the key
/// itself at `origin`: the key is parsed, then the descriptors of its unhardened wildcard
/// children of the external and the internal branch built.
pub open spec fn public_generation(desc_type: Seq<char>, key: Seq<char>, origin: Seq<char>) -> Generation {
    if !xpub_parses(key) {
        Generation::Failed(Failure::Bip32)
    } else {
        match public_descriptor_of(desc_type, xpub_branch_key(key, origin, external_branch())) {
            BuildOutcome::Failed(f) => Generation::Failed(f),
            BuildOutcome::Built(external) => match public_descriptor_of(
                desc_type,
                xpub_branch_key(key, origin, internal_branch()),
            ) {
                BuildOutcome::Failed(f) => Generation::Failed(f),
                BuildOutcome::Built(internal) => Generation::Generated(
                    GeneratedTexts {
                        public_external: descriptor_text_of(external),
                        public_internal: descriptor_text_of(internal),
                        private: None,
                        fingerprint: xpub_fingerprint_of(key),
                    },
                ),
            },
        }
    }
}

/// Whether the template `t` builds its descriptor for a key, keychain and network kind.
pub open spec fn template_builds(
    t: BipTemplate,
    key: PrivateKeyOrigin,
    keychain: KeychainKind,
    network: NetworkKind,
) -> bool {
    match t {
        BipTemplate::Bip44 => bip44_builds(key, keychain, network),
        BipTemplate::Bip49 => bip49_builds(key, keychain, network),
        BipTemplate::Bip84 => bip84_builds(key, keychain, network),
        BipTemplate::Bip86 => bip86_builds(key, keychain, network),
    }
}

/// Generating descriptors of the extended private key `key` with the BIP template of the
/// type: the type is checked, then the external and internal descriptors built.
pub open spec fn key_generation(desc_type: Seq<char>, key: PrivateKeyOrigin, network: NetworkKind) -> Generation {
    match descriptor_kind(desc_type) {
        None => Generation::Failed(Failure::Unsupported),
        Some(kind) => {
            let t = template_for(kind);
            if !template_builds(t, key, KeychainKind::External, network) {
                Generation::Failed(Failure::Descriptor)
            } else if !template_builds(t, key, KeychainKind::Internal, network) {
                Generation::Failed(Failure::Descriptor)
            } else {
                let external = DescriptorModel::Template(t, key, KeychainKind::External, network);
                let internal = DescriptorModel::Template(t, key, KeychainKind::Internal, network);
                Generation::Generated(
                    GeneratedTexts {
                        public_external: descriptor_text_of(external),
                        public_internal: descriptor_text_of(internal),
                        private: Some((secret_text_of(external), secret_text_of(internal))),
                        fingerprint: xpriv_fingerprint_of(key),
                    },
                )
            }
        },
    }
}

/// Generating descriptors of the extended private key given by its text `key`: the key is
/// parsed first.
pub open spec fn private_generation(desc_type: Seq<char>, key: Seq<char>, network: NetworkKind) -> Generation {
    if !xpriv_parses(key) {
        Generation::Failed(Failure::Bip32)
    } else {
        key_generation(desc_type, PrivateKeyOrigin::Parsed(key), network)
    }
}

/// Generating descriptors of `key`: with the BIP template for an extended private key, and
/// below the account path of the type for an extended public key.
pub open spec fn descriptor_generation(desc_type: Seq<char>, key: Seq<char>, network: NetworkKind) -> Generation {
    if is_private_key_text(key) {
        private_generation(desc_type, key, network)
    } else {
        public_generation(
            desc_type,
            key,
            account_path_text(account_purpose(descriptor_kind(desc_type)), coin_type(network)),
        )
    }
}

/// The text of the master key, for networks of `network`, of the seed of `mnemonic` with the
/// empty passphrase.
pub open spec fn master_key_text(mnemonic: MnemonicText, network: NetworkKind) -> Seq<char> {
    xpriv_text_of(PrivateKeyOrigin::Master(network, seed_of_mnemonic(mnemonic, seq![])))
}

/// Whether the master key of `mnemonic`, where there is one, has the text of an extended
/// private key that parses back.
pub open spec fn master_key_text_is_private(mnemonic: MnemonicText, network: NetworkKind) -> bool {
    master_key_valid(network, seed_of_mnemonic(mnemonic, seq![])) ==> {
        &&& is_private_key_text(master_key_text(mnemonic, network))
        &&& xpriv_parses(master_key_text(mnemonic, network))
    }
}

/// Generating descriptors from a mnemonic: from the master key of its seed with the empty
/// passphrase, read back from the key's text.
pub open spec fn mnemonic_generation(mnemonic: MnemonicText, network: NetworkKind, desc_type: Seq<char>) -> Generation {
    if !master_key_valid(network, seed_of_mnemonic(mnemonic, seq![])) {
        Generation::Failed(Failure::Bip32)
    } else {
        key_generation(desc_type, PrivateKeyOrigin::Parsed(master_key_text(mnemonic, network)), network)
    }
}

/// Whether `pair` holds the texts `texts`, where both are present or both absent.
pub open spec fn pair_shows(pair: Option<KeychainPair>, texts: Option<(Seq<char>, Seq<char>)>) -> bool {
    match (pair, texts) {
        (Some(p), Some(t)) => p.external@ == t.0 && p.internal@ == t.1,
        (None, None) => true,
        _ => false,
    }
}

/// Whether `result` shows the generated `texts`, with `mnemonic` recorded if any.
pub open spec fn result_shows(result: DescriptorResult, texts: GeneratedTexts, mnemonic: Option<Seq<char>>) -> bool {
    &&& result.descriptor is None
    &&& result.multipath_descriptor is None
    &&& pair_shows(result.public_descriptors, Some((texts.public_external, texts.public_internal)))
    &&& pair_shows(result.private_descriptors, texts.private)
    &&& result.fingerprint matches Some(f) && f@ == lower_hex(texts.fingerprint)
    &&& result.r is None
    &&& match mnemonic {
        Some(m) => result.mnemonic matches Some(s) && s@ == m,
        None => result.mnemonic is None,
    }
}

/// Whether `r` reports `generation`, with `mnemonic` recorded in a result.
pub open spec fn reports_generation(
    r: Result<DescriptorResult, BDKCliError>,
    generation: Generation,
    desc_type: Seq<char>,
    mnemonic: Option<Seq<char>>,
) -> bool {
    match generation {
        Generation::Failed(f) => reports_failure(r, f, desc_type),
        Generation::Generated(texts) => r matches Ok(result) && result_shows(result, texts, mnemonic),
    }
}

/// Whether `r` reports the outcome of building a descriptor, as its model.
pub open spec fn reports_build(r: Result<PublicDescriptor, BDKCliError>, outcome: BuildOutcome, desc_type: Seq<char>) -> bool {
    match outcome {
        BuildOutcome::Failed(f) => reports_failure(r, f, desc_type),
        BuildOutcome::Built(d) => r matches Ok(descriptor) && descriptor@ == d,
    }
}

/// Returns the script type named by `lower`, a lowercase type name.
pub fn script_kind_of_lowercase(lower: &str) -> (kind: Option<ScriptKind>)
    ensures
        kind == script_kind_of(lower@),
{
    proof {
        reveal_strlit("pkh");
        reveal_strlit("sh");
        reveal_strlit("wpkh");
        reveal_strlit("wsh");
        reveal_strlit("tr");
        assert("pkh"@ =~= seq!['p', 'k', 'h']);
        assert("sh"@ =~= seq!['s', 'h']);
        assert("wpkh"@ =~= seq!['w', 'p', 'k', 'h']);
        assert("wsh"@ =~= seq!['w', 's', 'h']);
        assert("tr"@ =~= seq!['t', 'r']);
    }
    if same_text(lower, "pkh") {
        Some(ScriptKind::Pkh)
    } else if same_text(lower, "sh") {
        Some(ScriptKind::Sh)
    } else if same_text(lower, "wpkh") {
        Some(ScriptKind::Wpkh)
    } else if same_text(lower, "wsh") {
        Some(ScriptKind::Wsh)
    } else if same_text(lower, "tr") {
        Some(ScriptKind::Tr)
    } else {
        None
    }
}

/// Returns the script type named by `desc_type`, whatever its case: an ASCII name is read
/// as its ASCII lowercase.
pub fn script_kind(desc_type: &str) -> (kind: Option<ScriptKind>)
    ensures
        kind == descriptor_kind(desc_type@),
        is_ascii_text(desc_type@) ==> kind == script_kind_of(ascii_lowercase(desc_type@)),
{
    let lower = to_lowercase(desc_type);
    script_kind_of_lowercase(lower.as_str())
}

/// Returns the template used for `kind`.
pub fn template(kind: ScriptKind) -> (t: BipTemplate)
    ensures
        t == template_for(kind),
{
    match kind {
        ScriptKind::Pkh => BipTemplate::Bip44,
        ScriptKind::Sh => BipTemplate::Bip49,
        ScriptKind::Wpkh | ScriptKind::Wsh => BipTemplate::Bip84,
        ScriptKind::Tr => BipTemplate::Bip86,
    }
}

/// Returns whether `key` is an extended private key (`xprv` or `tprv`).
pub fn is_private_key(key: &str) -> (private: bool)
    ensures
        private == is_private_key_text(key@),
{
    proof {
        reveal_strlit("xprv");
        reveal_strlit("tprv");
        assert("xprv"@ =~= seq!['x', 'p', 'r', 'v']);
        assert("tprv"@ =~= seq!['t', 'p', 'r', 'v']);
    }
    text_starts_with(key, "xprv") || text_starts_with(key, "tprv")
}

/// Returns the account path of an extended public key for descriptors of `desc_type`:
/// `m/{purpose}h/{coin}h/0h`.
pub fn account_derivation_path(desc_type: &str, network: NetworkKind) -> (path: String)
    ensures
        path@ == account_path_text(account_purpose(descriptor_kind(desc_type@)), coin_type(network)),
{
    let purpose: u32 = match script_kind(desc_type) {
        Some(ScriptKind::Pkh) => 44,
        Some(ScriptKind::Sh) => 49,
        Some(ScriptKind::Wpkh) | Some(ScriptKind::Wsh) => 84,
        Some(ScriptKind::Tr) => 86,
        None => 84,
    };
    let coin: u32 = match network {
        NetworkKind::Main => 0,
        NetworkKind::Test => 1,
    };
    proof {
        reveal_strlit("m/");
        reveal_strlit("h/");
        reveal_strlit("h/0h");
        assert("m/"@ =~= seq!['m', '/']);
        assert("h/"@ =~= seq!['h', '/']);
        assert("h/0h"@ =~= seq!['h', '/', '0', 'h']);
    }
    let mut path = String::from_str("m/");
    push_decimal(&mut path, purpose as u64);
    path.append("h/");
    push_decimal(&mut path, coin as u64);
    path.append("h/0h");
    assert(path@ =~= account_path_text(purpose, coin));
    path
}

/// Returns the error of an unknown descriptor type.
fn unsupported_type(desc_type: &str) -> (e: BDKCliError)
    ensures
        e matches BDKCliError::Generic(m) && m@ == unsupported_type_message(desc_type@),
{
    let mut message = String::from_str("Unsupported descriptor type: ");
    message.append(desc_type);
    BDKCliError::Generic(message)
}

/// The lowercase hexadecimal digit of `d`, which is below sixteen.
fn hex_char(d: u8) -> (c: char)
    requires
        d < 16,
    ensures
        c == hex_digit(d as int),
{
    if d < 10 {
        (d + 48) as char
    } else {
        (d + 87) as char
    }
}

/// Returns the text of a key fingerprint: its bytes in lowercase hexadecimal.
pub fn fingerprint_text(fingerprint: [u8; 4]) -> (text: String)
    ensures
        text@ == lower_hex(fingerprint@),
{
    let mut text = String::new();
    let mut i: usize = 0;
    assert(fingerprint@.take(0) =~= Seq::<u8>::empty());
    while i < 4
        invariant
            i <= 4,
            fingerprint@.len() == 4,
            text@ == lower_hex(fingerprint@.take(i as int)),
        decreases 4 - i,
    {
        let byte = fingerprint[i];
        let ghost before = text@;
        push_char(&mut text, hex_char(byte / 16));
        push_char(&mut text, hex_char(byte % 16));
        let ghost prefix = fingerprint@.take(i + 1);
        assert(prefix.drop_last() =~= fingerprint@.take(i as int));
        assert(prefix.last() == byte);
        assert(text@ =~= lower_hex(prefix));
        i += 1;
    }
    assert(fingerprint@.take(4) =~= fingerprint@);
    text
}

/// Calls `Xpriv::from_str`: parses an extended private key.
#[verifier::external_body]
fn parse_xpriv(key: &str) -> (r: Result<ExtendedPrivateKey, bdk_wallet::bitcoin::bip32::Error>)
    ensures
        r is Ok <==> xpriv_parses(key@),
        r matches Ok(k) ==> k@ == PrivateKeyOrigin::Parsed(key@),
{
    let origin = Ghost(PrivateKeyOrigin::Parsed(key@));
    Ok(ExtendedPrivateKey { key: key.parse::<Xpriv>()?, origin })
}

/// Calls `Xpub::from_str`: parses an extended public key.
#[verifier::external_body]
fn parse_xpub(key: &str) -> (r: Result<ExtendedPublicKey, bdk_wallet::bitcoin::bip32::Error>)
    ensures
        r is Ok <==> xpub_parses(key@),
        r matches Ok(k) ==> k@ == key@,
{
    let text = Ghost(key@);
    Ok(ExtendedPublicKey { key: key.parse::<Xpub>()?, text })
}

/// A hardened account path `m/{purpose}h/{coin}h/0h` parses, for a purpose and a coin type
/// of two decimal digits and one.
proof fn lemma_account_path_parses(purpose: u32, coin: u32)
    requires
        10 <= purpose < 100,
        coin < 10,
    ensures
        path_parses(account_path_text(purpose, coin)),
{
    let (p1, p0) = (digit_char((purpose / 10) as nat), digit_char((purpose % 10) as nat));
    let c0 = digit_char(coin as nat);
    assert(decimal(purpose as nat) =~= seq![p1, p0]) by {
        reveal_with_fuel(decimal, 2);
    }
    assert(decimal(coin as nat) =~= seq![c0]);
    let text = account_path_text(purpose, coin);
    assert(text =~= seq!['m', '/', p1, p0, 'h', '/', c0, 'h', '/', '0', 'h']);
    let rest = text.subrange(2, text.len() as int);
    assert(rest =~= seq![p1, p0, 'h', '/', c0, 'h', '/', '0', 'h']);
    assert(child_number_parses(seq!['0', 'h'])) by {
        assert(seq!['0', 'h'].drop_last() =~= seq!['0']);
        reveal_with_fuel(digits_value, 2);
    }
    assert(child_number_parses(seq![c0, 'h'])) by {
        assert(seq![c0, 'h'].drop_last() =~= seq![c0]);
        assert(seq![c0].drop_last() =~= Seq::<char>::empty());
        reveal_with_fuel(digits_value, 2);
    }
    assert(child_number_parses(seq![p1, p0, 'h'])) by {
        assert(seq![p1, p0, 'h'].drop_last() =~= seq![p1, p0]);
        assert(seq![p1, p0].drop_last() =~= seq![p1]);
        assert(seq![p1].drop_last() =~= Seq::<char>::empty());
        reveal_with_fuel(digits_value, 3);
    }
    assert(child_numbers_parse(rest, seq![])) by {
        reveal_with_fuel(child_numbers_parse, 10);
        assert(rest.drop_last() =~= seq![p1, p0, 'h', '/', c0, 'h', '/', '0']);
        assert(seq!['h'] + Seq::<char>::empty() =~= seq!['h']);
        assert(seq!['0'] + seq!['h'] =~= seq!['0', 'h']);
        assert(seq![c0] + seq!['h'] =~= seq![c0, 'h']);
        assert(seq![p0] + seq!['h'] =~= seq![p0, 'h']);
        assert(seq![p1] + seq![p0, 'h'] =~= seq![p1, p0, 'h']);
    }
    assert(text.len() == 11);
    assert(text != seq!['m'] && text != seq!['m', '/']);
    assert(text.subrange(0, 2) =~= seq!['m', '/']);
    assert(starts_with(text, seq!['m', '/']));
}

/// The branch paths `0` and `1` parse, and so does the account path of every script type
/// (or none) on every network kind.
pub proof fn lemma_fixed_paths_parse(kind: Option<ScriptKind>, network: NetworkKind)
    ensures
        path_parses(external_branch()),
        path_parses(internal_branch()),
        path_parses(account_path_text(account_purpose(kind), coin_type(network))),
{
    assert(child_numbers_parse(seq!['0'], seq![])) by {
        assert(seq!['0'].drop_last() =~= Seq::<char>::empty());
        assert(seq!['0'] + Seq::<char>::empty() =~= seq!['0']);
        reveal_with_fuel(child_numbers_parse, 2);
        reveal_with_fuel(digits_value, 2);
    }
    assert(child_numbers_parse(seq!['1'], seq![])) by {
        assert(seq!['1'].drop_last() =~= Seq::<char>::empty());
        assert(seq!['1'] + Seq::<char>::empty() =~= seq!['1']);
        reveal_with_fuel(child_numbers_parse, 2);
        reveal_with_fuel(digits_value, 2);
    }
    lemma_account_path_parses(account_purpose(kind), coin_type(network));
}

/// Calls `DerivationPath::from_str`: parses a derivation path (see `path_parses`).
#[verifier::external_body]
fn parse_derivation_path(path: &str) -> (r: Result<KeyPath, bdk_wallet::bitcoin::bip32::Error>)
    ensures
        r is Ok <==> path_parses(path@),
        r matches Ok(p) ==> p@ == path@,
{
    let text = Ghost(path@);
    Ok(KeyPath { path: path.parse::<DerivationPath>()?, text })
}

/// Calls `DescriptorPublicKey::from_str`: parses a descriptor key.
#[verifier::external_body]
fn parse_descriptor_key(text: &str) -> (r: Result<
    DescriptorKey,
    bdk_wallet::miniscript::descriptor::DescriptorKeyParseError,
>)
    ensures
        r is Ok <==> descriptor_key_parses(text@),
        r matches Ok(k) ==> k@ == DescriptorKeyModel::Parsed(text@),
{
    let model = Ghost(DescriptorKeyModel::Parsed(text@));
    Ok(DescriptorKey { key: text.parse::<DescriptorPublicKey>()?, model })
}

/// Calls `Xpriv::fingerprint` with a new `Secp256k1` context: the bytes of the key's
/// fingerprint.
#[verifier::external_body]
fn xpriv_fingerprint(xprv: &ExtendedPrivateKey) -> (fingerprint: [u8; 4])
    ensures
        fingerprint@ == xpriv_fingerprint_of(xprv@),
{
    let secp = Secp256k1::new();
    xprv.key.fingerprint(&secp).to_bytes()
}

/// Calls `Xpub::fingerprint`: the bytes of the key's fingerprint.
#[verifier::external_body]
fn xpub_fingerprint(xpub: &ExtendedPublicKey) -> (fingerprint: [u8; 4])
    ensures
        fingerprint@ == xpub_fingerprint_of(xpub@),
{
    xpub.key.fingerprint().to_bytes()
}

/// Calls the `Display` of `Xpriv`: the key's text, the base58check form of its 78-byte
/// serialization. That serialization begins with the version bytes of private keys on
/// mainnet (`0488ADE4`) or on the testnets (`04358394`), so the text begins with `xprv` or
/// `tprv`; and `Xpriv::from_str` decodes every such serialization (`Xpriv::decode`).
#[verifier::external_body]
fn xpriv_text(xprv: &ExtendedPrivateKey) -> (text: String)
    ensures
        text@ == xpriv_text_of(xprv@),
        is_private_key_text(text@),
        xpriv_parses(text@),
{
    xprv.key.to_string()
}

/// Calls `Bip44::build`: the BIP-44 (`pkh`) descriptor of a keychain of `xprv`, with its
/// secret keys.
#[verifier::external_body]
fn bip44_descriptor(xprv: &ExtendedPrivateKey, keychain: KeychainKind, network: NetworkKind) -> (r: Result<
    TemplateDescriptor,
    bdk_wallet::descriptor::DescriptorError,
>)
    ensures
        r is Ok <==> bip44_builds(xprv@, keychain, network),
        r matches Ok(t) ==> t.descriptor@ == DescriptorModel::Template(BipTemplate::Bip44, xprv@, keychain, network),
{
    let model = Ghost(DescriptorModel::Template(BipTemplate::Bip44, xprv@, keychain, network));
    let keychain = match keychain {
        KeychainKind::External => WalletKeychainKind::External,
        KeychainKind::Internal => WalletKeychainKind::Internal,
    };
    let network = match network {
        NetworkKind::Main => BitcoinNetworkKind::Main,
        NetworkKind::Test => BitcoinNetworkKind::Test,
    };
    let (inner, keymap, _) = Bip44(xprv.key, keychain).build(network)?;
    Ok(TemplateDescriptor { descriptor: PublicDescriptor { handle: DescriptorHandle { inner }, model }, keymap })
}

/// Calls `Bip49::build`: the BIP-49 (`sh(wpkh)`) descriptor of a keychain of `xprv`, with its
/// secret keys.
#[verifier::external_body]
fn bip49_descriptor(xprv: &ExtendedPrivateKey, keychain: KeychainKind, network: NetworkKind) -> (r: Result<
    TemplateDescriptor,
    bdk_wallet::descriptor::DescriptorError,
>)
    ensures
        r is Ok <==> bip49_builds(xprv@, keychain, network),
        r matches Ok(t) ==> t.descriptor@ == DescriptorModel::Template(BipTemplate::Bip49, xprv@, keychain, network),
{
    let model = Ghost(DescriptorModel::Template(BipTemplate::Bip49, xprv@, keychain, network));
    let keychain = match keychain {
        KeychainKind::External => WalletKeychainKind::External,
        KeychainKind::Internal => WalletKeychainKind::Internal,
    };
    let network = match network {
        NetworkKind::Main => BitcoinNetworkKind::Main,
        NetworkKind::Test => BitcoinNetworkKind::Test,
    };
    let (inner, keymap, _) = Bip49(xprv.key, keychain).build(network)?;
    Ok(TemplateDescriptor { descriptor: PublicDescriptor { handle: DescriptorHandle { inner }, model }, keymap })
}

/// Calls `Bip84::build`: the BIP-84 (`wpkh`) descriptor of a keychain of `xprv`, with its
/// secret keys.
#[verifier::external_body]
fn bip84_descriptor(xprv: &ExtendedPrivateKey, keychain: KeychainKind, network: NetworkKind) -> (r: Result<
    TemplateDescriptor,
    bdk_wallet::descriptor::DescriptorError,
>)
    ensures
        r is Ok <==> bip84_builds(xprv@, keychain, network),
        r matches Ok(t) ==> t.descriptor@ == DescriptorModel::Template(BipTemplate::Bip84, xprv@, keychain, network),
{
    let model = Ghost(DescriptorModel::Template(BipTemplate::Bip84, xprv@, keychain, network));
    let keychain = match keychain {
        KeychainKind::External => WalletKeychainKind::External,
        KeychainKind::Internal => WalletKeychainKind::Internal,
    };
    let network = match network {
        NetworkKind::Main => BitcoinNetworkKind::Main,
        NetworkKind::Test => BitcoinNetworkKind::Test,
    };
    let (inner, keymap, _) = Bip84(xprv.key, keychain).build(network)?;
    Ok(TemplateDescriptor { descriptor: PublicDescriptor { handle: DescriptorHandle { inner }, model }, keymap })
}

/// Calls `Bip86::build`: the BIP-86 (`tr`) descriptor of a keychain of `xprv`, with its
/// secret keys.
#[verifier::external_body]
fn bip86_descriptor(xprv: &ExtendedPrivateKey, keychain: KeychainKind, network: NetworkKind) -> (r: Result<
    TemplateDescriptor,
    bdk_wallet::descriptor::DescriptorError,
>)
    ensures
        r is Ok <==> bip86_builds(xprv@, keychain, network),
        r matches Ok(t) ==> t.descriptor@ == DescriptorModel::Template(BipTemplate::Bip86, xprv@, keychain, network),
{
    let model = Ghost(DescriptorModel::Template(BipTemplate::Bip86, xprv@, keychain, network));
    let keychain = match keychain {
        KeychainKind::External => WalletKeychainKind::External,
        KeychainKind::Internal => WalletKeychainKind::Internal,
    };
    let network = match network {
        NetworkKind::Main => BitcoinNetworkKind::Main,
        NetworkKind::Test => BitcoinNetworkKind::Test,
    };
    let (inner, keymap, _) = Bip86(xprv.key, keychain).build(network)?;
    Ok(TemplateDescriptor { descriptor: PublicDescriptor { handle: DescriptorHandle { inner }, model }, keymap })
}

/// Calls the `Display` of `miniscript::Descriptor`: the descriptor with its checksum.
#[verifier::external_body]
fn descriptor_text(descriptor: &PublicDescriptor) -> (text: String)
    ensures
        text@ == descriptor_text_of(descriptor@),
{
    descriptor.handle.inner.to_string()
}

/// Calls `Descriptor::to_string_with_secret` with the secret keys built along with the
/// descriptor.
#[verifier::external_body]
fn descriptor_text_with_secret(template: &TemplateDescriptor) -> (text: String)
    ensures
        text@ == secret_text_of(template.descriptor@),
{
    template.descriptor.handle.inner.to_string_with_secret(&template.keymap)
}

/// Builds the descriptor key of the children of `branch` below `xpub`, ending in `wildcard`,
/// whose origin is the key of `fingerprint` at `origin`, as a `DescriptorXKey` of `miniscript`.
#[verifier::external_body]
fn xpub_descriptor_key(
    fingerprint: [u8; 4],
    origin: &KeyPath,
    xpub: &ExtendedPublicKey,
    branch: KeyPath,
    wildcard: KeyWildcard,
) -> (key: DescriptorKey)
    ensures
        key@ == (DescriptorKeyModel::XPub {
            fingerprint: fingerprint@,
            origin: origin@,
            xpub: xpub@,
            branch: branch@,
            wildcard,
        }),
{
    let model = Ghost(DescriptorKeyModel::XPub { fingerprint: fingerprint@, origin: origin@, xpub: xpub@, branch: branch@, wildcard });
    let wildcard = match wildcard {
        KeyWildcard::NoWildcard => Wildcard::None,
        KeyWildcard::Unhardened => Wildcard::Unhardened,
        KeyWildcard::Hardened => Wildcard::Hardened,
    };
    let origin = Some((bdk_wallet::bitcoin::bip32::Fingerprint::from(fingerprint), origin.path.clone()));
    let xkey = DescriptorXKey { origin, xkey: xpub.key, derivation_path: branch.path, wildcard };
    DescriptorKey { key: DescriptorPublicKey::XPub(xkey), model }
}

/// Calls `Descriptor::new_pkh`.
#[verifier::external_body]
fn new_pkh(key: DescriptorKey) -> (r: Result<PublicDescriptor, bdk_wallet::miniscript::Error>)
    ensures
        r is Ok <==> pkh_builds(key@),
        r matches Ok(d) ==> d@ == DescriptorModel::Pkh(key@),
{
    let model = Ghost(DescriptorModel::Pkh(key@));
    Ok(PublicDescriptor { handle: DescriptorHandle { inner: Descriptor::new_pkh(key.key)? }, model })
}

/// Calls `Descriptor::new_wpkh`.
#[verifier::external_body]
fn new_wpkh(key: DescriptorKey) -> (r: Result<PublicDescriptor, bdk_wallet::miniscript::Error>)
    ensures
        r is Ok <==> wpkh_builds(key@),
        r matches Ok(d) ==> d@ == DescriptorModel::Wpkh(key@),
{
    let model = Ghost(DescriptorModel::Wpkh(key@));
    Ok(PublicDescriptor { handle: DescriptorHandle { inner: Descriptor::new_wpkh(key.key)? }, model })
}

/// Calls `Descriptor::new_sh_wpkh`.
#[verifier::external_body]
fn new_sh_wpkh(key: DescriptorKey) -> (r: Result<PublicDescriptor, bdk_wallet::miniscript::Error>)
    ensures
        r is Ok <==> sh_wpkh_builds(key@),
        r matches Ok(d) ==> d@ == DescriptorModel::ShWpkh(key@),
{
    let model = Ghost(DescriptorModel::ShWpkh(key@));
    Ok(PublicDescriptor { handle: DescriptorHandle { inner: Descriptor::new_sh_wpkh(key.key)? }, model })
}

/// Calls `Descriptor::new_tr` with the internal key `key` and the script tree `tree`. Without
/// a tree, the descriptor spends by the key alone; nothing is stated of one with a tree.
#[verifier::external_body]
fn new_tr(key: DescriptorKey, tree: Option<ScriptTreeHandle>) -> (r: Result<
    PublicDescriptor,
    bdk_wallet::miniscript::Error,
>)
    ensures
        tree is None ==> (r is Ok <==> tr_builds(key@)),
        tree is None ==> (r matches Ok(d) ==> d@ == DescriptorModel::Tr(key@)),
{
    let model = Ghost(DescriptorModel::Tr(key@));
    let tree = tree.map(|t| t.inner);
    Ok(PublicDescriptor { handle: DescriptorHandle { inner: Descriptor::new_tr(key.key, tree)? }, model })
}

/// Calls `Miniscript::from_ast` on `pk_k(key)`, then on `c:` of that fragment: the segwit
/// fragment `pk(key)`.
#[verifier::external_body]
fn checked_key_miniscript(key: DescriptorKey) -> (r: Result<CheckedKey, bdk_wallet::miniscript::Error>)
    ensures
        r is Ok <==> checked_key_builds(key@),
        r matches Ok(c) ==> c.key@ == key@,
{
    let model = Ghost(key@);
    let pk_k: Miniscript<DescriptorPublicKey, Segwitv0> = Miniscript::from_ast(Terminal::PkK(key.key))?;
    let inner = Miniscript::from_ast(Terminal::Check(Arc::new(pk_k)))?;
    Ok(CheckedKey { handle: MiniscriptHandle { inner }, key: model })
}

/// Calls `Descriptor::new_wsh`.
#[verifier::external_body]
fn new_wsh(script: CheckedKey) -> (r: Result<PublicDescriptor, bdk_wallet::miniscript::Error>)
    ensures
        r is Ok <==> wsh_builds(script.key@),
        r matches Ok(d) ==> d@ == DescriptorModel::WshPk(script.key@),
{
    let model = Ghost(DescriptorModel::WshPk(script.key@));
    Ok(PublicDescriptor { handle: DescriptorHandle { inner: Descriptor::new_wsh(script.handle.inner)? }, model })
}

/// Calls `GeneratableKey::generate` for a `bip39::Mnemonic` of `length` words of `list`, from
/// the thread's random generator, and returns it with its phrase (its `Display`: the words,
/// one space between two). The entropy of every length is a multiple of 32 bits between 128
/// and 256, which `Mnemonic::from_entropy_in` accepts, so generating does not fail. The
/// phrase parses back with `list` to the same words; the words of the lists offered here are
/// lowercase ASCII. Which words are drawn is not stated.
#[verifier::external_body]
fn generate_mnemonic(length: MnemonicLength, list: WordList) -> (r: Result<
    (MnemonicKey, String),
    Option<bdk_wallet::bip39::Error>,
>)
    ensures
        r is Ok,
        r matches Ok((m, phrase)) ==> m@ == (MnemonicText { list, phrase: phrase@ }),
        r matches Ok((m, phrase)) ==> mnemonic_parses(list, phrase@),
        r matches Ok((m, phrase)) ==> phrase_of_words(phrase@, word_count(length)),
{
    let count = match length {
        MnemonicLength::Words12 => WordCount::Words12, MnemonicLength::Words15 => WordCount::Words15,
        MnemonicLength::Words18 => WordCount::Words18, MnemonicLength::Words21 => WordCount::Words21,
        MnemonicLength::Words24 => WordCount::Words24,
    };
    let language = match list { WordList::English => Language::English };
    let generated: GeneratedKey<Mnemonic, Segwitv0> = Mnemonic::generate((count, language))?;
    let mnemonic = generated.into_key();
    let phrase = mnemonic.to_string();
    let text = Ghost(MnemonicText { list, phrase: phrase@ });
    Ok((MnemonicKey { mnemonic, text }, phrase))
}

/// Calls `Mnemonic::parse_in` with the word list `list`.
#[verifier::external_body]
fn parse_mnemonic(list: WordList, phrase: &str) -> (r: Result<MnemonicKey, bdk_wallet::bip39::Error>)
    ensures
        r is Ok <==> mnemonic_parses(list, phrase@),
        r matches Ok(m) ==> m@ == (MnemonicText { list, phrase: phrase@ }),
{
    let text = Ghost(MnemonicText { list, phrase: phrase@ });
    let language = match list { WordList::English => Language::English };
    Ok(MnemonicKey { mnemonic: Mnemonic::parse_in(language, phrase)?, text })
}

/// Calls `Mnemonic::to_seed` with the passphrase `passphrase`.
#[verifier::external_body]
fn mnemonic_seed(mnemonic: &MnemonicKey, passphrase: &str) -> (seed: [u8; 64])
    ensures
        seed@ == seed_of_mnemonic(mnemonic@, passphrase@),
{
    mnemonic.mnemonic.to_seed(passphrase)
}

/// Calls `Xpriv::new_master`: the master key of `seed` for networks of `network`.
#[verifier::external_body]
fn master_xpriv(network: NetworkKind, seed: &[u8; 64]) -> (r: Result<
    ExtendedPrivateKey,
    bdk_wallet::bitcoin::bip32::Error,
>)
    ensures
        r is Ok <==> master_key_valid(network, seed@),
        r matches Ok(k) ==> k@ == PrivateKeyOrigin::Master(network, seed@),
{
    let origin = Ghost(PrivateKeyOrigin::Master(network, seed@));
    let kind = match network {
        NetworkKind::Main => BitcoinNetworkKind::Main,
        NetworkKind::Test => BitcoinNetworkKind::Test,
    };
    Ok(ExtendedPrivateKey { key: Xpriv::new_master(kind, seed)?, origin })
}

impl ExtendedPublicKey {
    /// Parses an extended public key (`xpub`/`tpub`).
    pub fn parse(key: &str) -> (r: Result<ExtendedPublicKey, BDKCliError>)
        ensures
            r is Ok <==> xpub_parses(key@),
            r matches Ok(k) ==> k@ == key@,
            r matches Err(e) ==> e is BIP32Error,
    {
        match parse_xpub(key) {
            Ok(k) => Ok(k),
            Err(e) => Err(BDKCliError::BIP32Error(e)),
        }
    }
}

impl KeyPath {
    /// Parses a derivation path such as `m/84h/1h/0h`.
    pub fn parse(path: &str) -> (r: Result<KeyPath, BDKCliError>)
        ensures
            r is Ok <==> path_parses(path@),
            r matches Ok(p) ==> p@ == path@,
            r matches Err(e) ==> e is BIP32Error,
    {
        match parse_derivation_path(path) {
            Ok(p) => Ok(p),
            Err(e) => Err(BDKCliError::BIP32Error(e)),
        }
    }
}

impl DescriptorKey {
    /// Parses a descriptor key, such as `[fingerprint/path]xpub/0/*`.
    pub fn parse(text: &str) -> (r: Result<DescriptorKey, BDKCliError>)
        ensures
            r is Ok <==> descriptor_key_parses(text@),
            r matches Ok(k) ==> k@ == DescriptorKeyModel::Parsed(text@),
            r matches Err(e) ==> e is DescriptorKeyError,
    {
        match parse_descriptor_key(text) {
            Ok(k) => Ok(k),
            Err(e) => Err(BDKCliError::DescriptorKeyError(e)),
        }
    }

    /// The key of the unhardened wildcard children of `branch` below `xpub`, whose origin is
    /// `xpub` itself (by its fingerprint) at `origin`.
    pub fn below_xpub(xpub: &ExtendedPublicKey, origin: &KeyPath, branch: KeyPath) -> (key: DescriptorKey)
        ensures
            key@ == xpub_branch_key(xpub@, origin@, branch@),
    {
        let fingerprint = xpub_fingerprint(xpub);
        xpub_descriptor_key(fingerprint, origin, xpub, branch, KeyWildcard::Unhardened)
    }
}

impl MnemonicKey {
    /// Parses an English mnemonic phrase.
    pub fn parse(phrase: &str) -> (r: Result<MnemonicKey, BDKCliError>)
        ensures
            r is Ok <==> mnemonic_parses(WordList::English, phrase@),
            r matches Ok(m) ==> m@ == (MnemonicText { list: WordList::English, phrase: phrase@ }),
            r matches Err(e) ==> e matches BDKCliError::BIP39Error(Some(_)),
    {
        match parse_mnemonic(WordList::English, phrase) {
            Ok(m) => Ok(m),
            Err(e) => Err(BDKCliError::BIP39Error(Some(e))),
        }
    }
}

impl PublicDescriptor {
    /// The descriptor's text, with its checksum.
    pub fn text(&self) -> (text: String)
        ensures
            text@ == descriptor_text_of(self@),
    {
        descriptor_text(self)
    }
}

/// Builds the descriptor of type `desc_type` (whatever its case) over `key`: `pkh(key)`,
/// `wpkh(key)`, `sh(wpkh(key))`, `wsh(pk(key))` or `tr(key)`. An unknown type is refused
/// with its message; `miniscript` may refuse the key.
pub fn build_public_descriptor(desc_type: &str, key: DescriptorKey) -> (r: Result<PublicDescriptor, BDKCliError>)
    ensures
        reports_build(r, public_descriptor_of(desc_type@, key@), desc_type@),
{
    let built = match script_kind(desc_type) {
        Some(ScriptKind::Pkh) => new_pkh(key),
        Some(ScriptKind::Wpkh) => new_wpkh(key),
        Some(ScriptKind::Sh) => new_sh_wpkh(key),
        Some(ScriptKind::Wsh) => match checked_key_miniscript(key) {
            Ok(script) => new_wsh(script),
            Err(e) => Err(e),
        },
        Some(ScriptKind::Tr) => new_tr(key, None),
        None => {
            return Err(unsupported_type(desc_type));
        },
    };
    match built {
        Ok(descriptor) => Ok(descriptor),
        Err(e) => Err(BDKCliError::MiniscriptError(e)),
    }
}

/// The public descriptor, as text, of the children of `branch` below `xpub`.
fn public_branch_descriptor(
    desc_type: &str,
    xpub: &ExtendedPublicKey,
    fingerprint: [u8; 4],
    origin: &KeyPath,
    branch: &str,
) -> (r: Result<String, BDKCliError>)
    ensures
        match branch_descriptor(desc_type@, fingerprint@, origin@, xpub@, branch@) {
            BuildOutcome::Failed(f) => reports_failure(r, f, desc_type@),
            BuildOutcome::Built(d) => r matches Ok(text) && text@ == descriptor_text_of(d),
        },
{
    let branch_path = match parse_derivation_path(branch) {
        Ok(path) => path,
        Err(e) => {
            return Err(BDKCliError::BIP32Error(e));
        },
    };
    let key = xpub_descriptor_key(fingerprint, origin, xpub, branch_path, KeyWildcard::Unhardened);
    match build_public_descriptor(desc_type, key) {
        Ok(descriptor) => Ok(descriptor_text(&descriptor)),
        Err(e) => Err(e),
    }
}

/// Generates the public descriptors of both keychains (branches 0 and 1, unhardened
/// wildcard) of the extended public key `key`, whose origin is the key itself at
/// `derivation_path`.
pub fn generate_public_descriptors(desc_type: &str, key: &str, derivation_path: &KeyPath) -> (r: Result<
    DescriptorResult,
    BDKCliError,
>)
    ensures
        reports_generation(r, public_generation(desc_type@, key@, derivation_path@), desc_type@, None),
{
    let xpub = match parse_xpub(key) {
        Ok(xpub) => xpub,
        Err(e) => {
            return Err(BDKCliError::BIP32Error(e));
        },
    };
    let fingerprint = xpub_fingerprint(&xpub);
    proof {
        reveal_strlit("0");
        reveal_strlit("1");
        assert("0"@ =~= external_branch());
        assert("1"@ =~= internal_branch());
        lemma_fixed_paths_parse(None, NetworkKind::Main);
    }
    let external_pub = match public_branch_descriptor(desc_type, &xpub, fingerprint, derivation_path, "0") {
        Ok(text) => text,
        Err(e) => {
            return Err(e);
        },
    };
    let internal_pub = match public_branch_descriptor(desc_type, &xpub, fingerprint, derivation_path, "1") {
        Ok(text) => text,
        Err(e) => {
            return Err(e);
        },
    };
    Ok(DescriptorResult {
        descriptor: None,
        multipath_descriptor: None,
        public_descriptors: Some(KeychainPair { external: external_pub, internal: internal_pub }),
        private_descriptors: None,
        mnemonic: None,
        fingerprint: Some(fingerprint_text(fingerprint)),
        r: None,
    })
}

/// The descriptor of template `t` for a keychain of `xprv`, with its secret keys.
fn template_descriptor(
    t: BipTemplate,
    xprv: &ExtendedPrivateKey,
    keychain: KeychainKind,
    network: NetworkKind,
) -> (r: Result<TemplateDescriptor, BDKCliError>)
    ensures
        r is Ok <==> template_builds(t, xprv@, keychain, network),
        r matches Ok(d) ==> d.descriptor@ == DescriptorModel::Template(t, xprv@, keychain, network),
        r matches Err(e) ==> e is DescriptorError,
{
    let built = match t {
        BipTemplate::Bip44 => bip44_descriptor(xprv, keychain, network),
        BipTemplate::Bip49 => bip49_descriptor(xprv, keychain, network),
        BipTemplate::Bip84 => bip84_descriptor(xprv, keychain, network),
        BipTemplate::Bip86 => bip86_descriptor(xprv, keychain, network),
    };
    match built {
        Ok(d) => Ok(d),
        Err(e) => Err(BDKCliError::DescriptorError(e)),
    }
}

/// Generates the private and public descriptors of both keychains of the extended private key
/// `key` with the BIP template of `desc_type`.
pub fn generate_private_descriptors(desc_type: &str, key: &str, network: NetworkKind) -> (r: Result<
    DescriptorResult,
    BDKCliError,
>)
    ensures
        reports_generation(r, private_generation(desc_type@, key@, network), desc_type@, None),
{
    let xprv = match parse_xpriv(key) {
        Ok(xprv) => xprv,
        Err(e) => {
            return Err(BDKCliError::BIP32Error(e));
        },
    };
    let fingerprint = xpriv_fingerprint(&xprv);
    let t = match script_kind(desc_type) {
        Some(kind) => template(kind),
        None => {
            return Err(unsupported_type(desc_type));
        },
    };
    let external = match template_descriptor(t, &xprv, KeychainKind::External, network) {
        Ok(d) => d,
        Err(e) => {
            return Err(e);
        },
    };
    let internal = match template_descriptor(t, &xprv, KeychainKind::Internal, network) {
        Ok(d) => d,
        Err(e) => {
            return Err(e);
        },
    };
    let external_priv = descriptor_text_with_secret(&external);
    let external_pub = descriptor_text(&external.descriptor);
    let internal_priv = descriptor_text_with_secret(&internal);
    let internal_pub = descriptor_text(&internal.descriptor);
    Ok(DescriptorResult {
        descriptor: None,
        multipath_descriptor: None,
        public_descriptors: Some(KeychainPair { external: external_pub, internal: internal_pub }),
        private_descriptors: Some(KeychainPair { external: external_priv, internal: internal_priv }),
        mnemonic: None,
        fingerprint: Some(fingerprint_text(fingerprint)),
        r: None,
    })
}

/// Generates the descriptors of both keychains of `key`: from an extended private key
/// (`xprv`/`tprv`) with the BIP template of `desc_type`, private and public ones; from an
/// extended public key, the public ones below the account path of `desc_type` on `network`.
pub fn generate_descriptors(desc_type: &str, key: &str, network: NetworkKind) -> (r: Result<
    DescriptorResult,
    BDKCliError,
>)
    ensures
        reports_generation(r, descriptor_generation(desc_type@, key@, network), desc_type@, None),
{
    if is_private_key(key) {
        generate_private_descriptors(desc_type, key, network)
    } else {
        let path_text = account_derivation_path(desc_type, network);
        proof {
            lemma_fixed_paths_parse(descriptor_kind(desc_type@), network);
        }
        let derivation_path = match parse_derivation_path(path_text.as_str()) {
            Ok(path) => path,
            Err(e) => {
                return Err(BDKCliError::BIP32Error(e));
            },
        };
        generate_public_descriptors(desc_type, key, &derivation_path)
    }
}

/// Generates descriptors from the master key of `mnemonic` on networks of `network`, and
/// records `phrase` in the result.
pub fn descriptors_for_mnemonic(
    mnemonic: &MnemonicKey,
    phrase: String,
    network: NetworkKind,
    desc_type: &str,
) -> (r: Result<DescriptorResult, BDKCliError>)
    ensures
        reports_generation(r, mnemonic_generation(mnemonic@, network, desc_type@), desc_type@, Some(phrase@)),
        master_key_text_is_private(mnemonic@, network),
{
    proof {
        reveal_strlit("");
        assert(""@ =~= Seq::<char>::empty());
    }
    let seed = mnemonic_seed(mnemonic, "");
    let xprv = match master_xpriv(network, &seed) {
        Ok(xprv) => xprv,
        Err(e) => {
            return Err(BDKCliError::BIP32Error(e));
        },
    };
    let key = xpriv_text(&xprv);
    match generate_descriptors(desc_type, key.as_str(), network) {
        Ok(result) => {
            let mut result = result;
            result.mnemonic = Some(phrase);
            Ok(result)
        },
        Err(e) => Err(e),
    }
}

/// Generates a new twelve-word English mnemonic and the descriptors of its master key, and
/// records the mnemonic's phrase in the result.
pub fn generate_descriptor_with_mnemonic(network: NetworkKind, desc_type: &str) -> (r: Result<
    DescriptorResult,
    BDKCliError,
>)
    ensures
        !(r matches Err(BDKCliError::BIP39Error(_))),
        exists|phrase: Seq<char>|
            {
                &&& phrase_of_words(phrase, 12)
                &&& mnemonic_parses(WordList::English, phrase)
                &&& master_key_text_is_private(MnemonicText { list: WordList::English, phrase }, network)
                &&& reports_generation(
                    r,
                    mnemonic_generation(
                        MnemonicText { list: WordList::English, phrase },
                        network,
                        desc_type@,
                    ),
                    desc_type@,
                    Some(phrase),
                )
            },
{
    let (mnemonic, phrase) = match generate_mnemonic(MnemonicLength::Words12, WordList::English) {
        Ok(drawn) => drawn,
        Err(e) => {
            return Err(BDKCliError::BIP39Error(e));
        },
    };
    let ghost p = phrase@;
    let r = descriptors_for_mnemonic(&mnemonic, phrase, network, desc_type);
    assert(phrase_of_words(p, 12) && mnemonic_parses(WordList::English, p) && master_key_text_is_private(
        MnemonicText { list: WordList::English, phrase: p },
        network,
    ) && reports_generation(
        r,
        mnemonic_generation(MnemonicText { list: WordList::English, phrase: p }, network, desc_type@),
        desc_type@,
        Some(p),
    ));
    r
}

/// Generates the descriptors of the master key of the English mnemonic `mnemonic_str`, and
/// records the phrase as given in the result.
pub fn generate_descriptor_from_mnemonic(
    mnemonic_str: &str,
    network: NetworkKind,
    desc_type: &str,
) -> (r: Result<DescriptorResult, BDKCliError>)
    ensures
        mnemonic_parses(WordList::English, mnemonic_str@) ==> reports_generation(
            r,
            mnemonic_generation(
                MnemonicText { list: WordList::English, phrase: mnemonic_str@ },
                network,
                desc_type@,
            ),
            desc_type@,
            Some(mnemonic_str@),
        ),
        mnemonic_parses(WordList::English, mnemonic_str@) ==> master_key_text_is_private(
            MnemonicText { list: WordList::English, phrase: mnemonic_str@ },
            network,
        ),
        !mnemonic_parses(WordList::English, mnemonic_str@) ==> r matches Err(
            BDKCliError::BIP39Error(Some(_)),
        ),
{
    let mnemonic = match parse_mnemonic(WordList::English, mnemonic_str) {
        Ok(mnemonic) => mnemonic,
        Err(e) => {
            return Err(BDKCliError::BIP39Error(Some(e)));
        },
    };
    let phrase = String::from_str(mnemonic_str);
    descriptors_for_mnemonic(&mnemonic, phrase, network, desc_type)
}

/// Whether two results hold the same descriptors and fingerprint.
pub open spec fn same_descriptors(a: DescriptorResult, b: DescriptorResult) -> bool {
    &&& pair_texts(a.public_descriptors) == pair_texts(b.public_descriptors)
    &&& pair_texts(a.private_descriptors) == pair_texts(b.private_descriptors)
    &&& optional_view(a.fingerprint) == optional_view(b.fingerprint)
}

/// The texts of an optional pair of descriptors.
pub open spec fn pair_texts(pair: Option<KeychainPair>) -> Option<(Seq<char>, Seq<char>)> {
    match pair {
        Some(p) => Some((p.external@, p.internal@)),
        None => None,
    }
}

/// The text of an optional string.
pub open spec fn optional_view(s: Option<String>) -> Option<Seq<char>> {
    match s {
        Some(t) => Some(t@),
        None => None,
    }
}

/// Whether two errors report the same failure: of the same kind, with the same message where
/// they have one.
pub open spec fn same_failure(a: BDKCliError, b: BDKCliError) -> bool {
    match (a, b) {
        (BDKCliError::BIP32Error(_), BDKCliError::BIP32Error(_)) => true,
        (BDKCliError::DescriptorError(_), BDKCliError::DescriptorError(_)) => true,
        (BDKCliError::MiniscriptError(_), BDKCliError::MiniscriptError(_)) => true,
        (BDKCliError::Generic(m), BDKCliError::Generic(n)) => m@ == n@,
        _ => false,
    }
}

/// The phrase that generating descriptors with a new mnemonic records gives, handed back to
/// generating descriptors from a mnemonic, the same outcome: both fail alike, or both hold the
/// same descriptors and fingerprint, and record the same phrase.
pub proof fn lemma_recorded_phrase_generates_alike(
    network: NetworkKind,
    desc_type: Seq<char>,
    phrase: Seq<char>,
    drawn: Result<DescriptorResult, BDKCliError>,
    given: Result<DescriptorResult, BDKCliError>,
)
    requires
        mnemonic_parses(WordList::English, phrase),
        reports_generation(
            drawn,
            mnemonic_generation(MnemonicText { list: WordList::English, phrase }, network, desc_type),
            desc_type,
            Some(phrase),
        ),
        reports_generation(
            given,
            mnemonic_generation(MnemonicText { list: WordList::English, phrase }, network, desc_type),
            desc_type,
            Some(phrase),
        ),
    ensures
        drawn is Ok <==> given is Ok,
        drawn matches Err(e1) ==> given matches Err(e2) && same_failure(e1, e2),
        drawn matches Ok(a) ==> given matches Ok(b) && same_descriptors(a, b) && optional_view(a.mnemonic)
            == optional_view(b.mnemonic),
{
}

/// The public descriptors generated from an extended public key are those that
/// `build_public_descriptor` builds over the key's unhardened wildcard children of branch `0`
/// (external) and branch `1` (internal), with the key itself at `origin` as their origin; the
/// fingerprint is the key's. Where building either fails, the first failure is reported.
pub proof fn lemma_public_generation_builds(desc_type: Seq<char>, key: Seq<char>, origin: Seq<char>)
    requires
        xpub_parses(key),
    ensures
        public_generation(desc_type, key, origin) == match public_descriptor_of(
            desc_type,
            xpub_branch_key(key, origin, external_branch()),
        ) {
            BuildOutcome::Failed(f) => Generation::Failed(f),
            BuildOutcome::Built(external) => match public_descriptor_of(
                desc_type,
                xpub_branch_key(key, origin, internal_branch()),
            ) {
                BuildOutcome::Failed(f) => Generation::Failed(f),
                BuildOutcome::Built(internal) => Generation::Generated(
                    GeneratedTexts {
                        public_external: descriptor_text_of(external),
                        public_internal: descriptor_text_of(internal),
                        private: None,
                        fingerprint: xpub_fingerprint_of(key),
                    },
                ),
            },
        },
{
}

/// Generating descriptors from a mnemonic whose master key's text is that of an extended
/// private key that parses back is generating descriptors (as `generate_descriptors` does)
/// from that text, where the master key exists.
pub proof fn lemma_mnemonic_generation_is_master_key_generation(
    mnemonic: MnemonicText,
    network: NetworkKind,
    desc_type: Seq<char>,
)
    requires
        master_key_text_is_private(mnemonic, network),
    ensures
        mnemonic_generation(mnemonic, network, desc_type) == if !master_key_valid(
            network,
            seed_of_mnemonic(mnemonic, seq![]),
        ) {
            Generation::Failed(Failure::Bip32)
        } else {
            descriptor_generation(desc_type, master_key_text(mnemonic, network), network)
        },
{
}

/// A key whose text begins with `xprv` or `tprv` is generated from as an extended private key;
/// any other key is generated from as an extended public key, below the account path of the
/// type on the network, and gives no private descriptors.
pub proof fn lemma_key_kind_by_prefix(desc_type: Seq<char>, key: Seq<char>, network: NetworkKind)
    ensures
        is_private_key_text(key) <==> (key.len() >= 4 && (key[0] == 'x' || key[0] == 't') && key[1]
            == 'p' && key[2] == 'r' && key[3] == 'v'),
        !(key.len() >= 4 && (key[0] == 'x' || key[0] == 't') && key[1] == 'p' && key[2] == 'r'
            && key[3] == 'v') ==> descriptor_generation(desc_type, key, network) == public_generation(
            desc_type,
            key,
            account_path_text(account_purpose(descriptor_kind(desc_type)), coin_type(network)),
        ),
        !(key.len() >= 4 && (key[0] == 'x' || key[0] == 't') && key[1] == 'p' && key[2] == 'r'
            && key[3] == 'v') ==> (descriptor_generation(desc_type, key, network) matches Generation::Generated(g)
            ==> g.private is None),
        (key.len() >= 4 && (key[0] == 'x' || key[0] == 't') && key[1] == 'p' && key[2] == 'r'
            && key[3] == 'v') ==> descriptor_generation(desc_type, key, network) == private_generation(
            desc_type,
            key,
            network,
        ),
{
    if key.len() >= 4 {
        let head = key.subrange(0, 4);
        assert(head[0] == key[0] && head[1] == key[1] && head[2] == key[2] && head[3] == key[3]);
        if (key[0] == 'x' || key[0] == 't') && key[1] == 'p' && key[2] == 'r' && key[3] == 'v' {
            if key[0] == 'x' {
                assert(head =~= seq!['x', 'p', 'r', 'v']);
            } else {
                assert(head =~= seq!['t', 'p', 'r', 'v']);
            }
        }
    }
}

/// The descriptors generated from an extended private key come from one BIP template, that
/// of the type: the public and the private external descriptor are those of the external
/// keychain, the public and the private internal one those of the internal keychain, each
/// private one the same descriptor as the public one with its secret keys, and the
/// fingerprint is the key's.
pub proof fn lemma_private_descriptors_follow_keychains(
    desc_type: Seq<char>,
    key: PrivateKeyOrigin,
    network: NetworkKind,
)
    ensures
        key_generation(desc_type, key, network) matches Generation::Generated(g) ==> exists|t: BipTemplate|
            {
                &&& descriptor_kind(desc_type) matches Some(k) && t == template_for(k)
                &&& g.public_external == descriptor_text_of(
                    DescriptorModel::Template(t, key, KeychainKind::External, network),
                )
                &&& g.public_internal == descriptor_text_of(
                    DescriptorModel::Template(t, key, KeychainKind::Internal, network),
                )
                &&& g.private == Some(
                    (
                        secret_text_of(DescriptorModel::Template(t, key, KeychainKind::External, network)),
                        secret_text_of(DescriptorModel::Template(t, key, KeychainKind::Internal, network)),
                    ),
                )
                &&& g.fingerprint == xpriv_fingerprint_of(key)
            },
{
    if let Some(k) = descriptor_kind(desc_type) {
        let t = template_for(k);
        assert(descriptor_kind(desc_type) matches Some(k2) && t == template_for(k2));
    }
}

} // verus!
