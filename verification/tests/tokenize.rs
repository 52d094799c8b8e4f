use assetsup::{
    AllowAll, Asset, AssetStatus, AssetType, AssetUpContract, Error, MemoryStore, Principal,
    Signers,
};

fn setup_tokenize() -> (AssetUpContract<MemoryStore, AllowAll>, Principal) {
    let contract = AssetUpContract::new(MemoryStore::new(), AllowAll {});
    let admin = Principal::new("GADMIN".to_string());
    (contract, admin)
}

fn token_bytes32(seed: u32) -> [u8; 32] {
    let mut arr = [0u8; 32];
    for (i, item) in arr.iter_mut().enumerate() {
        *item = ((seed as usize + i) % 256) as u8;
    }
    arr
}

fn server(owner: &Principal) -> Asset {
    Asset {
        id: token_bytes32(11),
        name: "Server X".to_string(),
        asset_type: AssetType::Digital,
        category: "Compute".to_string(),
        branch_id: 99,
        department_id: 7,
        status: AssetStatus::Active,
        purchase_date: 1_725_000_100,
        purchase_cost: 1_000_000,
        current_value: 900_000,
        warranty_expiry: 1_826_000_000,
        stellar_token_id: token_bytes32(12),
        owner: owner.clone(),
    }
}

#[test]
fn test_tokenize_asset_success() {
    let (mut client, admin) = setup_tokenize();
    client.initialize(admin).unwrap();

    let owner = Principal::new("GOWNER".to_string());
    let asset = server(&owner);
    let id = asset.id;

    client.register_asset(asset).unwrap();

    let new_token = token_bytes32(13);

    let res = client.tokenize_asset(id, new_token);
    assert!(res.is_ok());

    let got = client.get_asset(id).unwrap();
    assert_eq!(got.stellar_token_id, new_token);
}

#[test]
#[should_panic(expected = "Error(Contract, #2)")]
fn test_tokenize_asset_without_admin_initialized() {
    let (mut client, _admin) = setup_tokenize();

    let owner = Principal::new("GOWNER".to_string());
    let id = token_bytes32(21);
    let token = token_bytes32(22);

    let asset = Asset {
        id,
        name: "Router Y".to_string(),
        asset_type: AssetType::Physical,
        category: "Network".to_string(),
        branch_id: 1,
        department_id: 2,
        status: AssetStatus::Active,
        purchase_date: 1_700_000_001,
        purchase_cost: 50_000,
        current_value: 45_000,
        warranty_expiry: 1_760_000_000,
        stellar_token_id: token_bytes32(23),
        owner,
    };

    client.register_asset(asset).unwrap();

    if let Err(e) = client.tokenize_asset(id, token) {
        panic!("Error(Contract, #{})", e.code());
    }
}

#[test]
fn test_tokenize_changes_only_the_token() {
    let (mut client, admin) = setup_tokenize();
    client.initialize(admin).unwrap();
    let owner = Principal::new("GOWNER".to_string());
    let asset = server(&owner);
    client.register_asset(asset.clone()).unwrap();

    let new_token = token_bytes32(13);
    assert_eq!(client.tokenize_asset(asset.id, new_token), Ok(()));

    let mut expected = asset;
    expected.stellar_token_id = new_token;
    assert_eq!(client.get_asset(expected.id), Ok(expected));
}

#[test]
fn test_tokenize_unknown_asset_stores_nothing() {
    let (mut client, admin) = setup_tokenize();
    client.initialize(admin).unwrap();
    let id = token_bytes32(31);

    assert_eq!(client.tokenize_asset(id, token_bytes32(32)), Err(Error::AssetNotFound));
    assert_eq!(client.get_asset(id), Err(Error::AssetNotFound));
}

#[test]
fn test_tokenize_needs_the_admin() {
    let admin = Principal::new("GADMIN".to_string());
    let owner = Principal::new("GOWNER".to_string());
    let mut client = AssetUpContract::new(MemoryStore::new(), Signers::only(admin.clone()));
    client.initialize(admin.clone()).unwrap();

    client.auth = Signers::only(owner.clone());
    let asset = server(&owner);
    client.register_asset(asset.clone()).unwrap();
    assert_eq!(client.tokenize_asset(asset.id, token_bytes32(13)), Err(Error::Unauthorized));
    assert_eq!(client.get_asset(asset.id), Ok(asset.clone()));

    let mut both = Signers::none();
    both.add(owner);
    both.add(admin);
    client.auth = both;
    assert_eq!(client.tokenize_asset(asset.id, token_bytes32(13)), Ok(()));
    assert_eq!(client.get_asset(asset.id).unwrap().stellar_token_id, token_bytes32(13));
}

#[test]
fn test_tokenize_without_admin_is_admin_not_found() {
    let (mut client, _admin) = setup_tokenize();
    assert_eq!(
        client.tokenize_asset(token_bytes32(1), token_bytes32(2)),
        Err(Error::AdminNotFound)
    );
}
