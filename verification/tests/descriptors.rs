use bdk_cli::descriptor_pair::{
    descriptor_path_count, external_path_verdict, internal_path_verdict, is_multipath_descriptor,
    validate_descriptor_pair,
};
use bdk_cli::descriptors::{
    account_derivation_path, build_public_descriptor, descriptors_for_mnemonic,
    fingerprint_text, generate_descriptor_from_mnemonic, generate_descriptor_with_mnemonic,
    generate_descriptors, generate_private_descriptors, generate_public_descriptors,
    is_private_key, script_kind, script_kind_of_lowercase, template, BipTemplate, DescriptorKey,
    ExtendedPublicKey, KeyPath, MnemonicKey, ScriptKind,
};
use bdk_cli::error::BDKCliError as Error;
use bdk_cli::network::{network_kind, Network, NetworkKind};

const MULTIPATH: &str = "wpkh([9a6a2580/84'/1'/0']tpubDDnGNapGEY6AZAdQbfRJgMg9fvz8pUBrLwvyvUqEgcUfgzM6zc2eVK4vY9x9L5FJWdX8WumXuLEDV5zDZnTfbn87vLe9XceCFwTu9so9Kks/<0;1>/*)";
const SINGLE: &str = "wpkh([07234a14/84'/1'/0']tpubDCSgT6PaVLQH9h2TAxKryhvkEurUBcYRJc9dhTcMDyahhWiMWfEWvQQX89yaw7w7XU8bcVujoALfxq59VkFATri3Cxm5mkp9kfHfRFDckEh/0/*)#429nsxmg";
const THREE_PATHS: &str = "wpkh([9a6a2580/84'/1'/0']tpubDDnGNapGEY6AZAdQbfRJgMg9fvz8pUBrLwvyvUqEgcUfgzM6zc2eVK4vY9x9L5FJWdX8WumXuLEDV5zDZnTfbn87vLe9XceCFwTu9so9Kks/<0;1;2>/*)";
const TPRV: &str = "tprv8ZgxMBicQKsPdy6LMhUtFHAgpocR8GC6QmwMSFpZs7h6Eziw3SpThFfczTDh5rW2krkqffa11UpX3XkeTTB2FvzZKWXqPY54Y6Rq4AQ5R8L";
const TPUB: &str = "tpubDDnGNapGEY6AZAdQbfRJgMg9fvz8pUBrLwvyvUqEgcUfgzM6zc2eVK4vY9x9L5FJWdX8WumXuLEDV5zDZnTfbn87vLe9XceCFwTu9so9Kks";
const MNEMONIC: &str = "abandon abandon abandon abandon abandon abandon abandon abandon abandon abandon abandon about";

fn is_fingerprint(text: &str) -> bool {
    text.len() == 8 && text.chars().all(|c| c.is_ascii_digit() || ('a'..='f').contains(&c))
}

#[test]
fn rejects_multipath_with_internal_descriptor() {
    assert!(matches!(
        validate_descriptor_pair(MULTIPATH, Some(SINGLE), Network::Testnet),
        Err(Error::AmbiguousDescriptors)
    ));
}

#[test]
fn accepts_single_path_with_internal_descriptor() {
    assert!(!validate_descriptor_pair(SINGLE, Some(SINGLE), Network::Testnet).unwrap());
}

#[test]
fn accepts_two_path_descriptor_alone() {
    assert!(validate_descriptor_pair(MULTIPATH, None, Network::Testnet).unwrap());
}

#[test]
fn accepts_single_path_descriptor_alone() {
    assert!(!validate_descriptor_pair(SINGLE, None, Network::Regtest).unwrap());
}

#[test]
fn rejects_multipath_internal_descriptor() {
    assert!(matches!(
        validate_descriptor_pair(SINGLE, Some(MULTIPATH), Network::Testnet),
        Err(Error::MultipathInternalDescriptor)
    ));
}

#[test]
fn rejects_descriptor_with_three_paths() {
    match validate_descriptor_pair(THREE_PATHS, None, Network::Testnet) {
        Err(Error::Generic(message)) => assert_eq!(
            message,
            "Unsupported multipath descriptor: expected exactly 2 paths (external/internal), found 3."
        ),
        other => panic!("unexpected {:?}", other),
    }
}

#[test]
fn rejects_unparsable_descriptors() {
    assert!(matches!(
        validate_descriptor_pair("wpkh(nonsense)", None, Network::Testnet),
        Err(Error::DescriptorError(_))
    ));
    assert!(matches!(
        validate_descriptor_pair(SINGLE, Some("nonsense"), Network::Testnet),
        Err(Error::DescriptorError(_))
    ));
}

#[test]
fn rejects_test_keys_on_main_network() {
    assert!(validate_descriptor_pair(SINGLE, None, Network::Bitcoin).is_err());
}

#[test]
fn rejects_wrong_checksum() {
    let wrong = SINGLE.replace("#429nsxmg", "#aaaaaaaa");
    assert!(matches!(
        validate_descriptor_pair(&wrong, None, Network::Testnet),
        Err(Error::DescriptorError(_))
    ));
}

#[test]
fn counts_descriptor_paths() {
    assert_eq!(descriptor_path_count(SINGLE, Network::Testnet).unwrap(), 1);
    assert_eq!(descriptor_path_count(MULTIPATH, Network::Testnet).unwrap(), 2);
    assert_eq!(descriptor_path_count(THREE_PATHS, Network::Signet).unwrap(), 3);
    assert!(is_multipath_descriptor(MULTIPATH, Network::Testnet).unwrap());
    assert!(!is_multipath_descriptor(SINGLE, Network::Testnet).unwrap());
}

#[test]
fn network_kinds() {
    assert_eq!(network_kind(Network::Bitcoin), NetworkKind::Main);
    assert_eq!(network_kind(Network::Testnet), NetworkKind::Test);
    assert_eq!(network_kind(Network::Testnet4), NetworkKind::Test);
    assert_eq!(network_kind(Network::Signet), NetworkKind::Test);
    assert_eq!(network_kind(Network::Regtest), NetworkKind::Test);
}

#[test]
fn script_kinds_ignore_case() {
    assert_eq!(script_kind("WPKH"), Some(ScriptKind::Wpkh));
    assert_eq!(script_kind("Pkh"), Some(ScriptKind::Pkh));
    assert_eq!(script_kind("sh"), Some(ScriptKind::Sh));
    assert_eq!(script_kind("wsh"), Some(ScriptKind::Wsh));
    assert_eq!(script_kind("TR"), Some(ScriptKind::Tr));
    assert_eq!(script_kind("segwit"), None);
    assert_eq!(script_kind(""), None);
    assert_eq!(template(ScriptKind::Wsh), BipTemplate::Bip84);
    assert_eq!(template(ScriptKind::Tr), BipTemplate::Bip86);
}

#[test]
fn account_paths() {
    assert_eq!(account_derivation_path("wpkh", NetworkKind::Test), "m/84h/1h/0h");
    assert_eq!(account_derivation_path("pkh", NetworkKind::Main), "m/44h/0h/0h");
    assert_eq!(account_derivation_path("SH", NetworkKind::Test), "m/49h/1h/0h");
    assert_eq!(account_derivation_path("tr", NetworkKind::Main), "m/86h/0h/0h");
    assert_eq!(account_derivation_path("wsh", NetworkKind::Main), "m/84h/0h/0h");
    assert_eq!(account_derivation_path("unknown", NetworkKind::Test), "m/84h/1h/0h");
}

#[test]
fn private_key_prefixes() {
    assert!(is_private_key(TPRV));
    assert!(is_private_key("xprv..."));
    assert!(!is_private_key(TPUB));
    assert!(!is_private_key("xpr"));
    assert!(!is_private_key(""));
}

#[test]
fn private_key_gives_private_and_public_descriptors() {
    let result = generate_descriptors("wpkh", TPRV, NetworkKind::Test).unwrap();
    assert!(result.descriptor.is_none());
    assert!(result.multipath_descriptor.is_none());
    assert!(result.mnemonic.is_none());
    assert!(result.r.is_none());
    let public = result.public_descriptors.unwrap();
    let private = result.private_descriptors.unwrap();
    assert!(public.external.starts_with("wpkh(["));
    assert!(public.external.contains("/84'/1'/0']tpub"));
    assert!(public.external.contains("/0/*)#"));
    assert!(public.internal.contains("/1/*)#"));
    assert!(private.external.contains("tprv"));
    assert!(private.internal.contains("tprv"));
    assert!(is_fingerprint(&result.fingerprint.unwrap()));
}

#[test]
fn private_key_templates_follow_type() {
    let pkh = generate_descriptors("PKH", TPRV, NetworkKind::Test).unwrap();
    assert!(pkh.public_descriptors.unwrap().external.starts_with("pkh("));
    let sh = generate_descriptors("sh", TPRV, NetworkKind::Test).unwrap();
    assert!(sh.public_descriptors.unwrap().external.starts_with("sh(wpkh("));
    let wsh = generate_descriptors("wsh", TPRV, NetworkKind::Test).unwrap();
    assert!(wsh.public_descriptors.unwrap().external.starts_with("wpkh("));
    let tr = generate_descriptors("tr", TPRV, NetworkKind::Test).unwrap();
    assert!(tr.public_descriptors.unwrap().external.starts_with("tr("));
}

#[test]
fn private_key_with_unknown_type_is_refused() {
    match generate_descriptors("foo", TPRV, NetworkKind::Test) {
        Err(Error::Generic(message)) => assert_eq!(message, "Unsupported descriptor type: foo"),
        other => panic!("unexpected {:?}", other),
    }
}

#[test]
fn malformed_private_key_is_refused() {
    assert!(matches!(
        generate_descriptors("wpkh", "tprvnonsense", NetworkKind::Test),
        Err(Error::BIP32Error(_))
    ));
}

#[test]
fn public_key_gives_public_descriptors_only() {
    let result = generate_descriptors("wpkh", TPUB, NetworkKind::Test).unwrap();
    assert!(result.private_descriptors.is_none());
    assert!(result.mnemonic.is_none());
    let public = result.public_descriptors.unwrap();
    assert!(public.external.starts_with("wpkh(["));
    assert!(public.external.contains("/84'/1'/0']tpub"));
    assert!(public.external.contains("/0/*)#"));
    assert!(public.internal.contains("/1/*)#"));
    assert!(is_fingerprint(&result.fingerprint.unwrap()));
}

#[test]
fn public_key_descriptor_types() {
    let wsh = generate_descriptors("wsh", TPUB, NetworkKind::Test).unwrap();
    assert!(wsh.public_descriptors.unwrap().external.starts_with("wsh(pk(["));
    let sh = generate_descriptors("sh", TPUB, NetworkKind::Test).unwrap();
    let sh_external = sh.public_descriptors.unwrap().external;
    assert!(sh_external.starts_with("sh(wpkh(["));
    assert!(sh_external.contains("/49'/1'/0']"));
    let tr = generate_descriptors("tr", TPUB, NetworkKind::Test).unwrap();
    assert!(tr.public_descriptors.unwrap().external.starts_with("tr(["));
}

#[test]
fn public_key_with_unknown_type_is_refused() {
    match generate_descriptors("segwit", TPUB, NetworkKind::Test) {
        Err(Error::Generic(message)) => assert_eq!(message, "Unsupported descriptor type: segwit"),
        other => panic!("unexpected {:?}", other),
    }
}

#[test]
fn public_descriptors_at_given_path() {
    let path = KeyPath::parse("m/48h/1h/0h/2h").unwrap();
    let result = generate_public_descriptors("pkh", TPUB, &path).unwrap();
    let public = result.public_descriptors.unwrap();
    assert!(public.external.starts_with("pkh(["));
    assert!(public.external.contains("/48'/1'/0'/2']"));
    assert!(matches!(
        generate_public_descriptors("pkh", "tpubnonsense", &path),
        Err(Error::BIP32Error(_))
    ));
}

#[test]
fn build_public_descriptor_by_type() {
    let key = || DescriptorKey::parse(&format!("{TPUB}/0/*")).unwrap();
    assert!(build_public_descriptor("wpkh", key()).unwrap().text().starts_with("wpkh(tpub"));
    assert!(build_public_descriptor("PKH", key()).unwrap().text().starts_with("pkh(tpub"));
    assert!(build_public_descriptor("sh", key()).unwrap().text().starts_with("sh(wpkh(tpub"));
    assert!(build_public_descriptor("tr", key()).unwrap().text().starts_with("tr(tpub"));
    assert!(build_public_descriptor("WSH", key()).unwrap().text().starts_with("wsh(pk(tpub"));
    match build_public_descriptor("multi", key()) {
        Err(Error::Generic(message)) => assert_eq!(message, "Unsupported descriptor type: multi"),
        Err(other) => panic!("unexpected {:?}", other),
        Ok(_) => panic!("unexpected descriptor"),
    }
}

#[test]
fn descriptors_from_known_mnemonic() {
    let result = generate_descriptor_from_mnemonic(MNEMONIC, NetworkKind::Test, "wpkh").unwrap();
    assert_eq!(result.mnemonic.as_deref(), Some(MNEMONIC));
    assert!(result.private_descriptors.is_some());
    assert!(result.public_descriptors.is_some());
    assert_eq!(result.fingerprint.as_deref(), Some("73c5da0a"));
}

#[test]
fn invalid_mnemonic_is_refused() {
    assert!(matches!(
        generate_descriptor_from_mnemonic("not a mnemonic", NetworkKind::Test, "wpkh"),
        Err(Error::BIP39Error(Some(_)))
    ));
}

#[test]
fn mnemonic_with_unknown_type_is_refused() {
    assert!(matches!(
        generate_descriptor_from_mnemonic(MNEMONIC, NetworkKind::Main, "nope"),
        Err(Error::Generic(_))
    ));
    assert!(matches!(
        generate_descriptor_with_mnemonic(NetworkKind::Main, "nope"),
        Err(Error::Generic(_))
    ));
}

#[test]
fn new_mnemonic_has_twelve_words() {
    let result = generate_descriptor_with_mnemonic(NetworkKind::Main, "tr").unwrap();
    let phrase = result.mnemonic.unwrap();
    assert_eq!(phrase.split_whitespace().count(), 12);
    assert!(result.private_descriptors.unwrap().external.contains("xprv"));
}

#[test]
fn path_count_verdicts() {
    assert!(!external_path_verdict(1, true).unwrap());
    assert!(!external_path_verdict(0, false).unwrap());
    assert!(external_path_verdict(2, false).unwrap());
    assert!(matches!(external_path_verdict(2, true), Err(Error::AmbiguousDescriptors)));
    match external_path_verdict(12, false) {
        Err(Error::Generic(message)) => assert_eq!(
            message,
            "Unsupported multipath descriptor: expected exactly 2 paths (external/internal), found 12."
        ),
        other => panic!("unexpected {:?}", other),
    }
    assert!(internal_path_verdict(1).is_ok());
    assert!(matches!(internal_path_verdict(2), Err(Error::MultipathInternalDescriptor)));
}

#[test]
fn lowercase_type_names() {
    assert_eq!(script_kind_of_lowercase("wpkh"), Some(ScriptKind::Wpkh));
    assert_eq!(script_kind_of_lowercase("WPKH"), None);
    assert_eq!(script_kind_of_lowercase("sh"), Some(ScriptKind::Sh));
}

#[test]
fn fingerprint_texts_are_lowercase_hex() {
    assert_eq!(fingerprint_text([0x73, 0xc5, 0xda, 0x0a]), "73c5da0a");
    assert_eq!(fingerprint_text([0, 0, 0, 0]), "00000000");
    assert_eq!(fingerprint_text([0xff, 0x10, 0x09, 0xab]), "ff1009ab");
}

#[test]
fn private_generation_keeps_secrets_out_of_public_texts() {
    let result = generate_private_descriptors("wpkh", TPRV, NetworkKind::Test).unwrap();
    let public = result.public_descriptors.unwrap();
    let private = result.private_descriptors.unwrap();
    assert!(!public.external.contains("tprv"));
    assert!(!public.internal.contains("tprv"));
    assert!(private.external.contains("tprv"));
    assert!(public.external.contains("/0/*)"));
    assert!(public.internal.contains("/1/*)"));
    assert!(matches!(
        generate_private_descriptors("wpkh", TPUB, NetworkKind::Test),
        Err(Error::BIP32Error(_))
    ));
    assert!(matches!(
        generate_private_descriptors("nope", "tprvbad", NetworkKind::Test),
        Err(Error::BIP32Error(_))
    ));
}

#[test]
fn descriptor_keys_below_an_xpub() {
    let xpub = ExtendedPublicKey::parse(TPUB).unwrap();
    let origin = KeyPath::parse("m/84h/1h/0h").unwrap();
    let branch = KeyPath::parse("1").unwrap();
    let key = DescriptorKey::below_xpub(&xpub, &origin, branch);
    let text = build_public_descriptor("wpkh", key).unwrap().text();
    assert!(text.starts_with("wpkh(["));
    assert!(text.contains("/84'/1'/0']tpub"));
    assert!(text.contains("/1/*)#"));
    assert!(matches!(ExtendedPublicKey::parse("nope"), Err(Error::BIP32Error(_))));
    assert!(matches!(KeyPath::parse("m/x"), Err(Error::BIP32Error(_))));
    assert!(matches!(DescriptorKey::parse("nope"), Err(Error::DescriptorKeyError(_))));
}

#[test]
fn descriptors_for_a_parsed_mnemonic() {
    let mnemonic = MnemonicKey::parse(MNEMONIC).unwrap();
    let result =
        descriptors_for_mnemonic(&mnemonic, "recorded".to_string(), NetworkKind::Main, "pkh").unwrap();
    assert_eq!(result.mnemonic.as_deref(), Some("recorded"));
    assert_eq!(result.fingerprint.as_deref(), Some("73c5da0a"));
    let public = result.public_descriptors.unwrap();
    assert!(public.external.starts_with("pkh([73c5da0a/44'/0'/0']xpub"));
    assert!(result.private_descriptors.unwrap().external.contains("xprv"));
    assert!(matches!(MnemonicKey::parse("one two"), Err(Error::BIP39Error(Some(_)))));
}

#[test]
fn new_mnemonic_phrase_gives_back_the_same_descriptors() {
    let drawn = generate_descriptor_with_mnemonic(NetworkKind::Test, "wpkh").unwrap();
    let phrase = drawn.mnemonic.clone().unwrap();
    let given = generate_descriptor_from_mnemonic(&phrase, NetworkKind::Test, "wpkh").unwrap();
    assert_eq!(given.mnemonic.as_deref(), Some(phrase.as_str()));
    assert_eq!(given.fingerprint, drawn.fingerprint);
    let (a, b) = (drawn.public_descriptors.unwrap(), given.public_descriptors.unwrap());
    assert_eq!((a.external, a.internal), (b.external, b.internal));
    let (a, b) = (drawn.private_descriptors.unwrap(), given.private_descriptors.unwrap());
    assert_eq!((a.external, a.internal), (b.external, b.internal));
}

#[test]
fn new_mnemonic_is_single_spaced_lowercase_words() {
    let result = generate_descriptor_with_mnemonic(NetworkKind::Test, "wpkh").unwrap();
    let phrase = result.mnemonic.unwrap();
    let words: Vec<&str> = phrase.split(' ').collect();
    assert_eq!(words.len(), 12);
    assert!(words.iter().all(|w| !w.is_empty() && w.chars().all(|c| c.is_ascii_lowercase())));
    let private = result.private_descriptors.unwrap();
    assert!(private.external.contains("tprv") && private.internal.contains("tprv"));
    assert!(result.fingerprint.is_some());
}

#[test]
fn public_generation_refuses_unknown_types_by_name() {
    let path = KeyPath::parse("m/84h/1h/0h").unwrap();
    assert!(generate_public_descriptors("wpkh", "notakey", &path).is_err());
    match generate_public_descriptors("bare", TPUB, &path) {
        Err(Error::Generic(message)) => assert_eq!(message, "Unsupported descriptor type: bare"),
        other => panic!("unexpected {:?}", other.is_ok()),
    }
}

#[test]
fn derivation_paths_parse_as_bip32_reads_them() {
    for text in ["", "m", "m/", "0", "1", "m/84h/1h/0h", "m/44'/0'/0'", "+7/2147483647", "m/0h/1/2h"] {
        assert!(KeyPath::parse(text).is_ok(), "{text}");
    }
    for text in ["x", "m//0", "m/0/", "2147483648", "h", "m/-1", "M/0", "m/4294967296h"] {
        assert!(matches!(KeyPath::parse(text), Err(Error::BIP32Error(_))), "{text}");
    }
}
