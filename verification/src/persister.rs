use vstd::prelude::*;
use vstd::string::*;
use bdk_wallet::bitcoin::Network as BitcoinNetwork;
use bdk_wallet::{CreateParams, LoadParams, Wallet};
use bdk_wallet::KeychainKind as WalletKeychainKind;
use crate::descriptor_pair::{
    descriptor_paths, is_multipath_descriptor, optional_text, pair_outcome, reports_path_failure,
};
use crate::descriptors::KeychainKind;
use crate::error::BDKCliError;
use crate::network::{kind_of, Network};

verus! {

/// A wallet of `bdk_wallet`.
#[verifier::external_type_specification]
#[verifier::external_body]
pub struct ExWallet(bdk_wallet::Wallet);

/// The parameters of loading a wallet, of `bdk_wallet`.
#[verifier::external_type_specification]
#[verifier::external_body]
pub struct ExLoadParams(bdk_wallet::LoadParams);

/// The parameters of a new wallet, of `bdk_wallet`.
#[verifier::external_type_specification]
#[verifier::external_body]
pub struct ExCreateParams(bdk_wallet::CreateParams);

/// The database backends that can persist a wallet.
#[derive(Clone, Copy, Debug, PartialEq, Eq, Structural)]
pub enum DatabaseType {
    /// Sqlite database
    Sqlite,
    /// Redb database
    Redb,
}

/// How a wallet is set up from its descriptors.
#[derive(Clone, Copy, Debug, PartialEq, Eq, Structural)]
pub enum WalletKind {
    /// An external and a separate internal descriptor.
    Pair,
    /// A two-path (BIP-389) external descriptor that holds both keychains.
    TwoPath,
    /// An external descriptor alone.
    Single,
}

/// The set-up of a wallet: a separate internal descriptor makes a pair; otherwise a multipath
/// external descriptor holds both keychains, and a plain one stands alone.
pub open spec fn wallet_kind(ext_is_multipath: bool, has_internal: bool) -> WalletKind {
    if has_internal {
        WalletKind::Pair
    } else if ext_is_multipath {
        WalletKind::TwoPath
    } else {
        WalletKind::Single
    }
}

/// What planning a wallet from `ext` and, if any, an internal descriptor reports.
pub open spec fn plan_outcome(
    ext: Seq<char>,
    has_internal: bool,
    network: Network,
    r: Result<WalletKind, BDKCliError>,
) -> bool {
    match descriptor_paths(ext, kind_of(network)) {
        None => reports_path_failure(r, ext, kind_of(network)),
        Some(n) => if n > 1 && has_internal {
            r matches Err(BDKCliError::AmbiguousDescriptors)
        } else {
            r == Ok::<WalletKind, BDKCliError>(wallet_kind(n > 1, has_internal))
        },
    }
}

/// A pair of descriptors that `validate_descriptor_pair` accepts, reporting whether the
/// external one is a two-path descriptor, is planned by `plan_wallet` accordingly: as a
/// two-path wallet exactly when it reported so, as a pair when there is an internal
/// descriptor, and as a single descriptor otherwise.
pub proof fn lemma_accepted_pair_is_planned(
    ext: Seq<char>,
    internal: Option<Seq<char>>,
    network: Network,
    two_path: bool,
)
    requires
        pair_outcome(ext, internal, network, Ok(two_path)),
    ensures
        plan_outcome(ext, internal is Some, network, Ok(wallet_kind(two_path, internal is Some))),
{
}

/// Decides the set-up of a wallet from whether its external descriptor is a multipath one
/// and whether an internal descriptor is given: the two cannot go together.
pub fn wallet_kind_for(ext_is_multipath: bool, has_internal: bool) -> (r: Result<
    WalletKind,
    BDKCliError,
>)
    ensures
        ext_is_multipath && has_internal ==> r matches Err(BDKCliError::AmbiguousDescriptors),
        !(ext_is_multipath && has_internal) ==> r == Ok::<WalletKind, BDKCliError>(
            wallet_kind(ext_is_multipath, has_internal),
        ),
{
    if ext_is_multipath && has_internal {
        return Err(BDKCliError::AmbiguousDescriptors);
    }
    if has_internal {
        Ok(WalletKind::Pair)
    } else if ext_is_multipath {
        Ok(WalletKind::TwoPath)
    } else {
        Ok(WalletKind::Single)
    }
}

/// Decides how a wallet is set up from its external descriptor and optional internal one: a
/// multipath external descriptor cannot be paired with an internal one.
pub fn plan_wallet(network: Network, ext_descriptor: &str, int_descriptor: Option<&str>) -> (r: Result<
    WalletKind,
    BDKCliError,
>)
    ensures
        plan_outcome(ext_descriptor@, int_descriptor is Some, network, r),
{
    let ext_is_multipath = match is_multipath_descriptor(ext_descriptor, network) {
        Ok(b) => b,
        Err(e) => {
            return Err(e);
        },
    };
    wallet_kind_for(ext_is_multipath, int_descriptor.is_some())
}

/// How the parameters of a new wallet were made: by which `Wallet` constructor, from which
/// descriptor texts, and for which network.
pub struct ParamsModel {
    pub kind: WalletKind,
    pub external: Seq<char>,
    pub internal: Option<Seq<char>>,
    pub network: Network,
}

/// The parameters of a new wallet (`bdk_wallet::CreateParams`), with how they were made.
pub struct WalletParams {
    params: CreateParams,
    model: Ghost<ParamsModel>,
}

impl View for WalletParams {
    type V = ParamsModel;

    closed spec fn view(&self) -> ParamsModel {
        self.model@
    }
}

/// Whether `CreateParams::create_wallet_no_persist` creates a wallet from parameters.
pub uninterp spec fn creates_wallet(params: ParamsModel) -> bool;

/// Calls `Wallet::create`: the parameters of a wallet of two descriptors, for the default
/// network (`Network::Bitcoin`).
#[verifier::external_body]
fn create_params_pair(ext_descriptor: String, int_descriptor: String) -> (p: WalletParams)
    ensures
        p@ == (ParamsModel {
            kind: WalletKind::Pair,
            external: ext_descriptor@,
            internal: Some(int_descriptor@),
            network: Network::Bitcoin,
        }),
{
    let model = Ghost(ParamsModel { kind: WalletKind::Pair, external: ext_descriptor@, internal: Some(int_descriptor@), network: Network::Bitcoin });
    WalletParams { params: Wallet::create(ext_descriptor, int_descriptor), model }
}

/// Calls `Wallet::create_from_two_path_descriptor`, for the default network.
#[verifier::external_body]
fn create_params_two_path(ext_descriptor: String) -> (p: WalletParams)
    ensures
        p@ == (ParamsModel {
            kind: WalletKind::TwoPath,
            external: ext_descriptor@,
            internal: None,
            network: Network::Bitcoin,
        }),
{
    let model = Ghost(ParamsModel { kind: WalletKind::TwoPath, external: ext_descriptor@, internal: None, network: Network::Bitcoin });
    WalletParams { params: Wallet::create_from_two_path_descriptor(ext_descriptor), model }
}

/// Calls `Wallet::create_single`, for the default network.
#[verifier::external_body]
fn create_params_single(ext_descriptor: String) -> (p: WalletParams)
    ensures
        p@ == (ParamsModel {
            kind: WalletKind::Single,
            external: ext_descriptor@,
            internal: None,
            network: Network::Bitcoin,
        }),
{
    let model = Ghost(ParamsModel { kind: WalletKind::Single, external: ext_descriptor@, internal: None, network: Network::Bitcoin });
    WalletParams { params: Wallet::create_single(ext_descriptor), model }
}

/// Calls `CreateParams::network`: the same parameters for `network`.
#[verifier::external_body]
fn params_on_network(params: WalletParams, network: Network) -> (p: WalletParams)
    ensures
        p@ == (ParamsModel { network, ..params@ }),
{
    let model = Ghost(ParamsModel { network, ..params@ });
    let network = match network {
        Network::Bitcoin => BitcoinNetwork::Bitcoin,
        Network::Testnet => BitcoinNetwork::Testnet,
        Network::Testnet4 => BitcoinNetwork::Testnet4,
        Network::Signet => BitcoinNetwork::Signet,
        Network::Regtest => BitcoinNetwork::Regtest,
    };
    WalletParams { params: params.params.network(network), model }
}

/// A wallet that is not persisted (`bdk_wallet::Wallet`), with the parameters it was
/// created from.
pub struct CreatedWallet {
    wallet: Wallet,
    params: Ghost<ParamsModel>,
}

impl View for CreatedWallet {
    type V = ParamsModel;

    closed spec fn view(&self) -> ParamsModel {
        self.params@
    }
}

impl CreatedWallet {
    /// The wallet itself.
    pub fn into_wallet(self) -> Wallet {
        self.wallet
    }

    /// A reference to the wallet.
    pub fn wallet(&self) -> &Wallet {
        &self.wallet
    }
}

/// Calls `CreateParams::create_wallet_no_persist`: the wallet of the parameters' descriptors
/// on their network.
#[verifier::external_body]
fn create_wallet_no_persist(params: WalletParams) -> (r: Result<
    CreatedWallet,
    bdk_wallet::descriptor::DescriptorError,
>)
    ensures
        r is Ok <==> creates_wallet(params@),
        r matches Ok(w) ==> w@ == params@,
{
    let model = Ghost(params@);
    Ok(CreatedWallet { wallet: params.params.create_wallet_no_persist()?, params: model })
}

/// The parameters that a wallet of set-up `kind` is created with: both descriptors for a
/// pair, else the external one alone, on `network`.
pub open spec fn planned_params(
    kind: WalletKind,
    external: Seq<char>,
    internal: Option<Seq<char>>,
    network: Network,
) -> ParamsModel {
    match (kind, internal) {
        (WalletKind::Pair, Some(i)) => ParamsModel { kind: WalletKind::Pair, external, internal: Some(i), network },
        (WalletKind::TwoPath, _) => ParamsModel { kind: WalletKind::TwoPath, external, internal: None, network },
        _ => ParamsModel { kind: WalletKind::Single, external, internal: None, network },
    }
}

impl WalletParams {
    /// The parameters themselves, to create a wallet with a persister.
    pub fn into_create_params(self) -> CreateParams {
        self.params
    }
}

/// Returns the parameters of a new wallet of set-up `kind` from its descriptors, on `network`.
pub fn wallet_params(
    kind: WalletKind,
    ext_descriptor: &str,
    int_descriptor: Option<&str>,
    network: Network,
) -> (p: WalletParams)
    ensures
        p@ == planned_params(kind, ext_descriptor@, optional_text(int_descriptor), network),
{
    let ext = String::from_str(ext_descriptor);
    let params = match (kind, int_descriptor) {
        (WalletKind::Pair, Some(internal)) => create_params_pair(ext, String::from_str(internal)),
        (WalletKind::TwoPath, _) => create_params_two_path(ext),
        _ => create_params_single(ext),
    };
    params_on_network(params, network)
}

/// Creates a wallet that is not persisted, from an external descriptor and an optional
/// internal one, as `plan_wallet` decides, on `network`.
pub fn new_wallet(network: Network, ext_descriptor: &str, int_descriptor: Option<&str>) -> (r: Result<
    CreatedWallet,
    BDKCliError,
>)
    ensures
        match descriptor_paths(ext_descriptor@, kind_of(network)) {
            None => reports_path_failure(r, ext_descriptor@, kind_of(network)),
            Some(n) => if n > 1 && int_descriptor is Some {
                r matches Err(BDKCliError::AmbiguousDescriptors)
            } else {
                let params = planned_params(
                    wallet_kind(n > 1, int_descriptor is Some),
                    ext_descriptor@,
                    optional_text(int_descriptor),
                    network,
                );
                &&& r is Ok <==> creates_wallet(params)
                &&& r matches Ok(w) ==> w@ == params
                &&& r matches Err(e) ==> e is DescriptorError
            },
        },
{
    let kind = match plan_wallet(network, ext_descriptor, int_descriptor) {
        Ok(kind) => kind,
        Err(e) => {
            return Err(e);
        },
    };
    let params = wallet_params(kind, ext_descriptor, int_descriptor, network);
    match create_wallet_no_persist(params) {
        Ok(wallet) => Ok(wallet),
        Err(e) => Err(BDKCliError::DescriptorError(e)),
    }
}


/// A descriptor that a loaded keychain is checked against: a descriptor text, or one path of
/// a two-path descriptor text.
pub enum ExpectedDescriptor {
    Text(Seq<char>),
    TwoPathBranch(Seq<char>, nat),
}

/// How the parameters of loading a wallet were made: the check of each keychain's descriptor
/// (`None` when not checked, `Some(None)` when checked to be absent), whether secret keys are
/// extracted, and the network checked, if any.
pub struct LoadModel {
    pub external: Option<Option<ExpectedDescriptor>>,
    pub internal: Option<Option<ExpectedDescriptor>>,
    pub extract_keys: bool,
    pub network: Option<Network>,
}

/// The parameters of loading a wallet (`bdk_wallet::LoadParams`), with how they were made.
pub struct WalletLoadParams {
    params: LoadParams,
    model: Ghost<LoadModel>,
}

impl View for WalletLoadParams {
    type V = LoadModel;

    closed spec fn view(&self) -> LoadModel {
        self.model@
    }
}

impl WalletLoadParams {
    /// The parameters themselves, to load a wallet from a persister.
    pub fn into_load_params(self) -> LoadParams {
        self.params
    }
}

/// The check of a descriptor given as an optional text.
pub open spec fn expected_text(descriptor: Option<Seq<char>>) -> Option<ExpectedDescriptor> {
    match descriptor {
        Some(d) => Some(ExpectedDescriptor::Text(d)),
        None => None,
    }
}

/// Calls `Wallet::load`: parameters that check nothing and extract no keys.
#[verifier::external_body]
fn load_params_new() -> (p: WalletLoadParams)
    ensures
        p@ == (LoadModel { external: None, internal: None, extract_keys: false, network: None }),
{
    let model = Ghost(LoadModel { external: None, internal: None, extract_keys: false, network: None });
    WalletLoadParams { params: Wallet::load(), model }
}

/// Calls `LoadParams::descriptor`: checks the descriptor of `keychain` against `expected`.
#[verifier::external_body]
fn load_check_descriptor(
    params: WalletLoadParams,
    keychain: KeychainKind,
    expected: Option<String>,
) -> (p: WalletLoadParams)
    ensures
        p@ == (match keychain {
            KeychainKind::External => LoadModel {
                external: Some(expected_text(optional_string(expected))),
                ..params@
            },
            KeychainKind::Internal => LoadModel {
                internal: Some(expected_text(optional_string(expected))),
                ..params@
            },
        }),
{
    let model = Ghost(match keychain {
        KeychainKind::External => LoadModel { external: Some(expected_text(optional_string(expected))), ..params@ },
        KeychainKind::Internal => LoadModel { internal: Some(expected_text(optional_string(expected))), ..params@ },
    });
    let keychain = match keychain {
        KeychainKind::External => WalletKeychainKind::External,
        KeychainKind::Internal => WalletKeychainKind::Internal,
    };
    WalletLoadParams { params: params.params.descriptor(keychain, expected), model }
}

/// Calls `LoadParams::two_path_descriptor`: checks the external keychain against the first
/// path of `expected` and the internal keychain against its second.
#[verifier::external_body]
fn load_check_two_path(params: WalletLoadParams, expected: String) -> (p: WalletLoadParams)
    ensures
        p@ == (LoadModel {
            external: Some(Some(ExpectedDescriptor::TwoPathBranch(expected@, 0))),
            internal: Some(Some(ExpectedDescriptor::TwoPathBranch(expected@, 1))),
            ..params@
        }),
{
    let model = Ghost(LoadModel {
        external: Some(Some(ExpectedDescriptor::TwoPathBranch(expected@, 0))),
        internal: Some(Some(ExpectedDescriptor::TwoPathBranch(expected@, 1))),
        ..params@
    });
    WalletLoadParams { params: params.params.two_path_descriptor(expected), model }
}

/// Calls `LoadParams::extract_keys`.
#[verifier::external_body]
fn load_extract_keys(params: WalletLoadParams) -> (p: WalletLoadParams)
    ensures
        p@ == (LoadModel { extract_keys: true, ..params@ }),
{
    let model = Ghost(LoadModel { extract_keys: true, ..params@ });
    WalletLoadParams { params: params.params.extract_keys(), model }
}

/// Calls `LoadParams::check_network`.
#[verifier::external_body]
fn load_check_network(params: WalletLoadParams, network: Network) -> (p: WalletLoadParams)
    ensures
        p@ == (LoadModel { network: Some(network), ..params@ }),
{
    let model = Ghost(LoadModel { network: Some(network), ..params@ });
    let network = match network {
        Network::Bitcoin => BitcoinNetwork::Bitcoin,
        Network::Testnet => BitcoinNetwork::Testnet,
        Network::Testnet4 => BitcoinNetwork::Testnet4,
        Network::Signet => BitcoinNetwork::Signet,
        Network::Regtest => BitcoinNetwork::Regtest,
    };
    WalletLoadParams { params: params.params.check_network(network), model }
}

/// The text of an optional string.
pub open spec fn optional_string(s: Option<String>) -> Option<Seq<char>> {
    match s {
        Some(t) => Some(t@),
        None => None,
    }
}

/// The parameters that a wallet of set-up `kind` is loaded with: a two-path external
/// descriptor checks both keychains; otherwise the external descriptor is checked, and the
/// internal one where given. Secret keys are extracted and the network is checked.
pub open spec fn planned_load(
    kind: WalletKind,
    external: Seq<char>,
    internal: Option<Seq<char>>,
    network: Network,
) -> LoadModel {
    match kind {
        WalletKind::TwoPath => LoadModel {
            external: Some(Some(ExpectedDescriptor::TwoPathBranch(external, 0))),
            internal: Some(Some(ExpectedDescriptor::TwoPathBranch(external, 1))),
            extract_keys: true,
            network: Some(network),
        },
        _ => LoadModel {
            external: Some(Some(ExpectedDescriptor::Text(external))),
            internal: match internal {
                Some(i) => Some(Some(ExpectedDescriptor::Text(i))),
                None => None,
            },
            extract_keys: true,
            network: Some(network),
        },
    }
}

/// Returns the parameters of loading a wallet of set-up `kind` from its descriptors, checked
/// against `network`.
pub fn wallet_load_params(
    kind: WalletKind,
    ext_descriptor: &str,
    int_descriptor: Option<&str>,
    network: Network,
) -> (p: WalletLoadParams)
    ensures
        p@ == planned_load(kind, ext_descriptor@, optional_text(int_descriptor), network),
{
    let params = load_params_new();
    let params = match kind {
        WalletKind::TwoPath => load_check_two_path(params, String::from_str(ext_descriptor)),
        _ => {
            let params = load_check_descriptor(
                params,
                KeychainKind::External,
                Some(String::from_str(ext_descriptor)),
            );
            match int_descriptor {
                Some(internal) => load_check_descriptor(
                    params,
                    KeychainKind::Internal,
                    Some(String::from_str(internal)),
                ),
                None => params,
            }
        },
    };
    load_check_network(load_extract_keys(params), network)
}

/// Whether loading with `load` checks exactly what a wallet created with `params` was made of:
/// its network; for a two-path descriptor, each keychain against its path; else the external
/// descriptor, and the internal one for a pair (a single-descriptor wallet has no internal
/// one to check). Secret keys are extracted.
pub open spec fn load_checks_params(load: LoadModel, params: ParamsModel) -> bool {
    &&& load.network == Some(params.network)
    &&& load.extract_keys
    &&& match params.kind {
        WalletKind::TwoPath => {
            &&& load.external == Some(Some(ExpectedDescriptor::TwoPathBranch(params.external, 0)))
            &&& load.internal == Some(Some(ExpectedDescriptor::TwoPathBranch(params.external, 1)))
        },
        WalletKind::Pair => {
            &&& load.external == Some(Some(ExpectedDescriptor::Text(params.external)))
            &&& params.internal matches Some(i) && load.internal == Some(
                Some(ExpectedDescriptor::Text(i)),
            )
        },
        WalletKind::Single => {
            &&& load.external == Some(Some(ExpectedDescriptor::Text(params.external)))
            &&& load.internal is None
        },
    }
}

/// For every set-up that planning gives (a pair exactly when an internal descriptor is
/// given), the parameters a persisted wallet is loaded with check exactly the descriptors and
/// the network that its parameters of creation make it of.
pub proof fn lemma_load_checks_what_was_created(
    kind: WalletKind,
    external: Seq<char>,
    internal: Option<Seq<char>>,
    network: Network,
)
    requires
        (kind == WalletKind::Pair) == (internal is Some),
    ensures
        load_checks_params(
            planned_load(kind, external, internal, network),
            planned_params(kind, external, internal, network),
        ),
{
}

/// A wallet is created on, and loaded against, exactly the network asked for, from the
/// external descriptor given, for every set-up and network.
pub proof fn lemma_wallet_keeps_network(
    kind: WalletKind,
    external: Seq<char>,
    internal: Option<Seq<char>>,
    network: Network,
)
    ensures
        planned_params(kind, external, internal, network).network == network,
        planned_params(kind, external, internal, network).external == external,
        planned_load(kind, external, internal, network).network == Some(network),
{
}

} // verus!
