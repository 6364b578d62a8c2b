use vstd::prelude::*;
use vstd::string::*;
use bdk_wallet::bitcoin::secp256k1::Secp256k1;
use bdk_wallet::bitcoin::NetworkKind as BitcoinNetworkKind;
use bdk_wallet::descriptor::IntoWalletDescriptor;
use crate::descriptors::{DescriptorHandle, DescriptorModel, PublicDescriptor};
use crate::error::BDKCliError;
use crate::network::{kind_of, network_kind, Network, NetworkKind};
use crate::text::{decimal, push_decimal};

verus! {

/// Whether `IntoWalletDescriptor::into_wallet_descriptor` accepts the descriptor text
/// `descriptor` for networks of `network` (its `#` checksum, if any, included).
pub uninterp spec fn wallet_descriptor_parses(descriptor: Seq<char>, network: NetworkKind) -> bool;

/// The number of descriptors that `Descriptor::into_single_descriptors` splits a descriptor
/// into, or `None` where it fails.
pub uninterp spec fn split_count(descriptor: DescriptorModel) -> Option<usize>;

/// The number of single-path descriptors that the descriptor text `descriptor` stands for on
/// networks of `network` (two for a `<0;1>` multipath descriptor, one for a plain one), or
/// `None` where it cannot be parsed or split.
pub open spec fn descriptor_paths(descriptor: Seq<char>, network: NetworkKind) -> Option<usize> {
    if wallet_descriptor_parses(descriptor, network) {
        split_count(DescriptorModel::Wallet(descriptor, network))
    } else {
        None
    }
}

/// Calls `IntoWalletDescriptor::into_wallet_descriptor` on the text `descriptor`, which checks
/// a `#` checksum and that the keys suit networks of `network`; the secret keys are dropped.
#[verifier::external_body]
fn parse_wallet_descriptor(descriptor: &str, network: NetworkKind) -> (r: Result<
    PublicDescriptor,
    bdk_wallet::descriptor::DescriptorError,
>)
    ensures
        r is Ok <==> wallet_descriptor_parses(descriptor@, network),
        r matches Ok(d) ==> d@ == DescriptorModel::Wallet(descriptor@, network),
{
    let model = Ghost(DescriptorModel::Wallet(descriptor@, network));
    let kind = match network {
        NetworkKind::Main => BitcoinNetworkKind::Main,
        NetworkKind::Test => BitcoinNetworkKind::Test,
    };
    let (inner, _) = descriptor.into_wallet_descriptor(&Secp256k1::new(), kind)?;
    Ok(PublicDescriptor { handle: DescriptorHandle { inner }, model })
}

/// Calls `Descriptor::into_single_descriptors` and counts the descriptors it gives: the
/// descriptor itself where it has no multipath key, else one per path, so at least one.
#[verifier::external_body]
fn single_descriptor_count(descriptor: PublicDescriptor) -> (r: Result<
    usize,
    bdk_wallet::miniscript::Error,
>)
    ensures
        r matches Ok(n) ==> n >= 1,
        match r {
            Ok(n) => split_count(descriptor@) == Some(n),
            Err(_) => split_count(descriptor@) is None,
        },
{
    Ok(descriptor.handle.inner.into_single_descriptors()?.len())
}

/// Whether `r` reports why the descriptor text `descriptor` has no path count on networks of
/// `network`: a descriptor error where it does not parse, else a `miniscript` error where it
/// cannot be split.
pub open spec fn reports_path_failure<T>(
    r: Result<T, BDKCliError>,
    descriptor: Seq<char>,
    network: NetworkKind,
) -> bool {
    if !wallet_descriptor_parses(descriptor, network) {
        r matches Err(BDKCliError::DescriptorError(_))
    } else {
        r matches Err(BDKCliError::MiniscriptError(_))
    }
}

/// What counting the paths of `descriptor` on `network` reports.
pub open spec fn path_count_outcome(
    descriptor: Seq<char>,
    network: Network,
    r: Result<usize, BDKCliError>,
) -> bool {
    match descriptor_paths(descriptor, kind_of(network)) {
        Some(n) => r == Ok::<usize, BDKCliError>(n),
        None => reports_path_failure(r, descriptor, kind_of(network)),
    }
}

/// Returns the number of derivation paths in `descriptor`.
///
/// Errors if the descriptor is unparseable or its keys don't match `network`.
pub fn descriptor_path_count(descriptor: &str, network: Network) -> (r: Result<usize, BDKCliError>)
    ensures
        path_count_outcome(descriptor@, network, r),
        r matches Ok(n) ==> n >= 1,
{
    let parsed = match parse_wallet_descriptor(descriptor, network_kind(network)) {
        Ok(d) => d,
        Err(e) => {
            return Err(BDKCliError::DescriptorError(e));
        },
    };
    match single_descriptor_count(parsed) {
        Ok(n) => Ok(n),
        Err(e) => Err(BDKCliError::MiniscriptError(e)),
    }
}

/// Returns whether `descriptor` stands for more than one derivation path.
pub fn is_multipath_descriptor(descriptor: &str, network: Network) -> (r: Result<bool, BDKCliError>)
    ensures
        match descriptor_paths(descriptor@, kind_of(network)) {
            Some(n) => r == Ok::<bool, BDKCliError>(n > 1),
            None => reports_path_failure(r, descriptor@, kind_of(network)),
        },
{
    match descriptor_path_count(descriptor, network) {
        Ok(n) => Ok(n > 1),
        Err(e) => Err(e),
    }
}

/// The message of an external descriptor with more than two paths.
pub open spec fn too_many_paths_message(n: usize) -> Seq<char> {
    "Unsupported multipath descriptor: expected exactly 2 paths (external/internal), found "@
        + decimal(n as nat) + "."@
}

/// What validating the pair `ext`/`int` on `network` reports.
pub open spec fn pair_outcome(
    ext: Seq<char>,
    internal: Option<Seq<char>>,
    network: Network,
    r: Result<bool, BDKCliError>,
) -> bool {
    match descriptor_paths(ext, kind_of(network)) {
        None => reports_path_failure(r, ext, kind_of(network)),
        Some(n) => if n > 2 {
            r matches Err(BDKCliError::Generic(m)) && m@ == too_many_paths_message(n)
        } else {
            match internal {
                None => r == Ok::<bool, BDKCliError>(n == 2),
                Some(i) => if n == 2 {
                    r matches Err(BDKCliError::AmbiguousDescriptors)
                } else {
                    match descriptor_paths(i, kind_of(network)) {
                        None => reports_path_failure(r, i, kind_of(network)),
                        Some(m) => if m > 1 {
                            r matches Err(BDKCliError::MultipathInternalDescriptor)
                        } else {
                            r == Ok::<bool, BDKCliError>(false)
                        },
                    }
                },
            }
        },
    }
}

/// The text of an optional descriptor.
pub open spec fn optional_text(descriptor: Option<&str>) -> Option<Seq<char>> {
    match descriptor {
        Some(d) => Some(d@),
        None => None,
    }
}

/// Decides a pair from the path count of its external descriptor: more than two paths are
/// refused, and a two-path descriptor cannot be paired with an internal one. Otherwise returns
/// whether the external descriptor is a two-path one.
pub fn external_path_verdict(ext_paths: usize, has_internal: bool) -> (r: Result<bool, BDKCliError>)
    ensures
        ext_paths > 2 ==> (r matches Err(BDKCliError::Generic(m)) && m@ == too_many_paths_message(
            ext_paths,
        )),
        ext_paths == 2 && has_internal ==> r matches Err(BDKCliError::AmbiguousDescriptors),
        ext_paths < 2 || (ext_paths == 2 && !has_internal) ==> r == Ok::<bool, BDKCliError>(
            ext_paths == 2,
        ),
{
    if ext_paths > 2 {
        let mut message = String::from_str(
            "Unsupported multipath descriptor: expected exactly 2 paths (external/internal), found ",
        );
        push_decimal(&mut message, ext_paths as u64);
        message.append(".");
        return Err(BDKCliError::Generic(message));
    }
    let ext_is_multipath = ext_paths == 2;
    if ext_is_multipath && has_internal {
        return Err(BDKCliError::AmbiguousDescriptors);
    }
    Ok(ext_is_multipath)
}

/// Decides an internal descriptor from its path count: it cannot be a multipath descriptor.
pub fn internal_path_verdict(int_paths: usize) -> (r: Result<(), BDKCliError>)
    ensures
        int_paths > 1 ==> r matches Err(BDKCliError::MultipathInternalDescriptor),
        int_paths <= 1 ==> r is Ok,
{
    if int_paths > 1 {
        Err(BDKCliError::MultipathInternalDescriptor)
    } else {
        Ok(())
    }
}

/// Validates the external/internal descriptor pair, returning `true` if `ext_descriptor` is a
/// supported two-path BIP-389 multipath descriptor.
///
/// Errors if either descriptor is unparseable or doesn't match `network`, if `ext_descriptor` is
/// a multipath descriptor with a number of paths other than two (only external/internal two-path
/// multipath is supported), if a multipath `ext_descriptor` is paired with a separate
/// `int_descriptor`, or if `int_descriptor` is itself a multipath descriptor.
pub fn validate_descriptor_pair(
    ext_descriptor: &str,
    int_descriptor: Option<&str>,
    network: Network,
) -> (r: Result<bool, BDKCliError>)
    ensures
        pair_outcome(ext_descriptor@, optional_text(int_descriptor), network, r),
{
    let ext_paths = match descriptor_path_count(ext_descriptor, network) {
        Ok(n) => n,
        Err(e) => {
            return Err(e);
        },
    };
    let ext_is_multipath = match external_path_verdict(ext_paths, int_descriptor.is_some()) {
        Ok(b) => b,
        Err(e) => {
            return Err(e);
        },
    };
    if let Some(int_descriptor) = int_descriptor {
        let int_paths = match descriptor_path_count(int_descriptor, network) {
            Ok(n) => n,
            Err(e) => {
                return Err(e);
            },
        };
        if let Err(e) = internal_path_verdict(int_paths) {
            return Err(e);
        }
    }
    Ok(ext_is_multipath)
}

/// Both descriptors of a pair are judged on the network asked for: an external descriptor that
/// does not parse there is reported as such; with an external descriptor of one path there,
/// an internal one of one path there is accepted (not a two-path pair), one of more paths is
/// refused, and one that does not parse there is reported as such.
pub proof fn lemma_pair_judged_on_its_network(
    ext: Seq<char>,
    internal: Seq<char>,
    network: Network,
    r: Result<bool, BDKCliError>,
)
    requires
        pair_outcome(ext, Some(internal), network, r),
    ensures
        descriptor_paths(ext, kind_of(network)) is None ==> reports_path_failure(
            r,
            ext,
            kind_of(network),
        ),
        descriptor_paths(ext, kind_of(network)) == Some(1usize) ==> {
            &&& descriptor_paths(internal, kind_of(network)) == Some(1usize) ==> r == Ok::<
                bool,
                BDKCliError,
            >(false)
            &&& descriptor_paths(internal, kind_of(network)) is None ==> reports_path_failure(
                r,
                internal,
                kind_of(network),
            )
            &&& (descriptor_paths(internal, kind_of(network)) matches Some(m) && m > 1) ==> r matches Err(
                BDKCliError::MultipathInternalDescriptor,
            )
        },
{
}

} // verus!
