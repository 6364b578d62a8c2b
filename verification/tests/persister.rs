use bdk_cli::descriptor_pair::validate_descriptor_pair;
use bdk_cli::error::BDKCliError as Error;
use bdk_cli::network::Network;
use bdk_cli::persister::{
    new_wallet, plan_wallet, wallet_kind_for, wallet_load_params, wallet_params, DatabaseType, WalletKind,
};
use bdk_wallet::KeychainKind;

const MULTIPATH: &str = "wpkh([9a6a2580/84'/1'/0']tpubDDnGNapGEY6AZAdQbfRJgMg9fvz8pUBrLwvyvUqEgcUfgzM6zc2eVK4vY9x9L5FJWdX8WumXuLEDV5zDZnTfbn87vLe9XceCFwTu9so9Kks/<0;1>/*)";
const SINGLE: &str = "wpkh([07234a14/84'/1'/0']tpubDCSgT6PaVLQH9h2TAxKryhvkEurUBcYRJc9dhTcMDyahhWiMWfEWvQQX89yaw7w7XU8bcVujoALfxq59VkFATri3Cxm5mkp9kfHfRFDckEh/0/*)#429nsxmg";
const SINGLE_CHANGE: &str = "wpkh([07234a14/84'/1'/0']tpubDCSgT6PaVLQH9h2TAxKryhvkEurUBcYRJc9dhTcMDyahhWiMWfEWvQQX89yaw7w7XU8bcVujoALfxq59VkFATri3Cxm5mkp9kfHfRFDckEh/1/*)";

#[test]
fn plans_follow_descriptors() {
    assert_eq!(plan_wallet(Network::Testnet, MULTIPATH, None).unwrap(), WalletKind::TwoPath);
    assert_eq!(plan_wallet(Network::Testnet, SINGLE, None).unwrap(), WalletKind::Single);
    assert_eq!(plan_wallet(Network::Testnet, SINGLE, Some(SINGLE_CHANGE)).unwrap(), WalletKind::Pair);
}

#[test]
fn plan_refuses_multipath_with_internal() {
    assert!(matches!(
        plan_wallet(Network::Testnet, MULTIPATH, Some(SINGLE)),
        Err(Error::AmbiguousDescriptors)
    ));
    assert!(matches!(
        plan_wallet(Network::Testnet, "garbage", None),
        Err(Error::DescriptorError(_))
    ));
}

#[test]
fn creates_wallets() {
    assert!(new_wallet(Network::Testnet, MULTIPATH, None).is_ok());
    assert!(new_wallet(Network::Testnet, SINGLE, None).is_ok());
    assert!(new_wallet(Network::Testnet, SINGLE, Some(SINGLE_CHANGE)).is_ok());
    assert!(matches!(
        new_wallet(Network::Testnet, MULTIPATH, Some(SINGLE)),
        Err(Error::AmbiguousDescriptors)
    ));
}

#[test]
fn identical_descriptors_cannot_make_a_wallet() {
    assert!(matches!(
        new_wallet(Network::Testnet, SINGLE, Some(SINGLE)),
        Err(Error::DescriptorError(_))
    ));
}

#[test]
fn database_types() {
    assert_ne!(DatabaseType::Sqlite, DatabaseType::Redb);
    assert_eq!(DatabaseType::Redb, DatabaseType::Redb.clone());
}

#[test]
fn accepted_pairs_are_planned_alike() {
    let cases: [(&str, Option<&str>, WalletKind); 3] = [
        (MULTIPATH, None, WalletKind::TwoPath),
        (SINGLE, Some(SINGLE_CHANGE), WalletKind::Pair),
        (SINGLE, None, WalletKind::Single),
    ];
    for (ext, int, expected) in cases {
        let two_path = validate_descriptor_pair(ext, int, Network::Testnet).unwrap();
        assert_eq!(two_path, expected == WalletKind::TwoPath);
        assert_eq!(plan_wallet(Network::Testnet, ext, int).unwrap(), expected);
    }
}

#[test]
fn wallet_kinds_from_descriptor_shapes() {
    assert_eq!(wallet_kind_for(true, false).unwrap(), WalletKind::TwoPath);
    assert_eq!(wallet_kind_for(false, true).unwrap(), WalletKind::Pair);
    assert_eq!(wallet_kind_for(false, false).unwrap(), WalletKind::Single);
    assert!(matches!(wallet_kind_for(true, true), Err(Error::AmbiguousDescriptors)));
}

#[test]
fn created_wallets_follow_the_plan() {
    let wallet = wallet_params(WalletKind::Pair, SINGLE, Some(SINGLE_CHANGE), Network::Regtest)
        .into_create_params()
        .create_wallet_no_persist()
        .unwrap();
    assert_eq!(wallet.network(), bdk_wallet::bitcoin::Network::Regtest);
    let external = wallet.public_descriptor(KeychainKind::External).to_string();
    let internal = wallet.public_descriptor(KeychainKind::Internal).to_string();
    assert!(external.contains("/0/*"));
    assert!(internal.contains("/1/*"));

    let two_path = wallet_params(WalletKind::TwoPath, MULTIPATH, None, Network::Testnet)
        .into_create_params()
        .create_wallet_no_persist()
        .unwrap();
    assert_eq!(two_path.network(), bdk_wallet::bitcoin::Network::Testnet);
    assert!(two_path.public_descriptor(KeychainKind::External).to_string().contains("/0/*"));
    assert!(two_path.public_descriptor(KeychainKind::Internal).to_string().contains("/1/*"));

    let single = wallet_params(WalletKind::Single, SINGLE, None, Network::Signet)
        .into_create_params()
        .create_wallet_no_persist()
        .unwrap();
    assert_eq!(single.network(), bdk_wallet::bitcoin::Network::Signet);
    assert_eq!(single.keychains().count(), 1);
}

#[test]
fn persisted_wallets_load_with_their_checks() {
    let mut db = bdk_wallet::rusqlite::Connection::open_in_memory().unwrap();
    let created = wallet_params(WalletKind::Pair, SINGLE, Some(SINGLE_CHANGE), Network::Testnet)
        .into_create_params()
        .create_wallet(&mut db);
    assert!(created.is_ok());
    drop(created);

    let loaded = wallet_load_params(WalletKind::Pair, SINGLE, Some(SINGLE_CHANGE), Network::Testnet)
        .into_load_params()
        .load_wallet(&mut db)
        .unwrap();
    assert!(loaded.is_some());

    let wrong_network = wallet_load_params(WalletKind::Pair, SINGLE, Some(SINGLE_CHANGE), Network::Bitcoin)
        .into_load_params()
        .load_wallet(&mut db);
    assert!(wrong_network.is_err());

    let wrong_descriptor = wallet_load_params(WalletKind::Single, SINGLE_CHANGE, None, Network::Testnet)
        .into_load_params()
        .load_wallet(&mut db);
    assert!(wrong_descriptor.is_err());
}

#[test]
fn new_wallets_hold_their_descriptors_and_network() {
    let wallet = new_wallet(Network::Regtest, SINGLE, Some(SINGLE_CHANGE)).unwrap().into_wallet();
    assert_eq!(wallet.network(), bdk_wallet::bitcoin::Network::Regtest);
    assert!(wallet.public_descriptor(KeychainKind::External).to_string().contains("/0/*"));
    assert!(wallet.public_descriptor(KeychainKind::Internal).to_string().contains("/1/*"));

    let single = new_wallet(Network::Testnet, SINGLE, None).unwrap();
    assert_eq!(single.wallet().network(), bdk_wallet::bitcoin::Network::Testnet);
    assert_eq!(single.wallet().keychains().count(), 1);
}

#[test]
fn created_wallets_load_back_with_the_same_checks() {
    for (kind, ext, int) in [
        (WalletKind::TwoPath, MULTIPATH, None),
        (WalletKind::Single, SINGLE, None),
        (WalletKind::Pair, SINGLE, Some(SINGLE_CHANGE)),
    ] {
        let mut db = bdk_wallet::rusqlite::Connection::open_in_memory().unwrap();
        let created = wallet_params(kind, ext, int, Network::Testnet)
            .into_create_params()
            .create_wallet(&mut db)
            .unwrap();
        let loaded = wallet_load_params(kind, ext, int, Network::Testnet)
            .into_load_params()
            .load_wallet(&mut db)
            .unwrap()
            .unwrap();
        assert_eq!(loaded.network(), created.network());
        assert_eq!(
            loaded.public_descriptor(KeychainKind::External).to_string(),
            created.public_descriptor(KeychainKind::External).to_string()
        );
    }
}
