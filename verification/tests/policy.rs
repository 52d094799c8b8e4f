use assetsup::{
    Asset, AssetStatus, AssetType, AssetUpContract, Error, LinkPolicy, MemoryStore, Principal,
    Signers,
};

fn widget(id: [u8; 32], owner: &Principal) -> Asset {
    Asset {
        id,
        name: "Widget".to_string(),
        asset_type: AssetType::Physical,
        category: "Parts".to_string(),
        branch_id: 1,
        department_id: 1,
        status: AssetStatus::Active,
        purchase_date: 10,
        purchase_cost: 20,
        current_value: 30,
        warranty_expiry: 40,
        stellar_token_id: [0u8; 32],
        owner: owner.clone(),
    }
}

fn everyone(admin: &Principal, branch_admin: &Principal, owner: &Principal) -> Signers {
    let mut all = Signers::none();
    all.add(admin.clone());
    all.add(branch_admin.clone());
    all.add(owner.clone());
    all
}

fn registry_with_branch_and_asset(
    policy: LinkPolicy,
) -> (AssetUpContract<MemoryStore, Signers>, Principal, Principal, Principal) {
    let admin = Principal::new("GADMIN".to_string());
    let branch_admin = Principal::new("GBRANCHADMIN".to_string());
    let owner = Principal::new("GOWNER".to_string());
    let mut client =
        AssetUpContract::new(MemoryStore::new(), everyone(&admin, &branch_admin, &owner))
            .with_link_policy(policy);
    client.initialize(admin.clone()).unwrap();
    client
        .create_branch([1u8; 32], "Main".to_string(), "Here".to_string(), branch_admin.clone())
        .unwrap();
    client.register_asset(widget([2u8; 32], &owner)).unwrap();
    (client, admin, branch_admin, owner)
}

#[test]
fn test_new_registry_links_openly() {
    let client = AssetUpContract::new(MemoryStore::new(), Signers::none());
    assert_eq!(client.policy, LinkPolicy::Open);
}

#[test]
fn test_open_policy_asks_for_no_authorization() {
    let (mut client, _admin, _branch_admin, _owner) =
        registry_with_branch_and_asset(LinkPolicy::Open);
    client.auth = Signers::none();
    assert_eq!(client.add_asset_to_branch([1u8; 32], [2u8; 32]), Ok(()));
    assert_eq!(client.get_branch_assets([1u8; 32]), Ok(vec![[2u8; 32]]));
}

#[test]
fn test_registry_admin_policy() {
    let (mut client, admin, branch_admin, _owner) =
        registry_with_branch_and_asset(LinkPolicy::RegistryAdmin);

    client.auth = Signers::only(branch_admin);
    assert_eq!(client.add_asset_to_branch([1u8; 32], [2u8; 32]), Err(Error::Unauthorized));
    assert_eq!(client.add_asset_to_branch([7u8; 32], [2u8; 32]), Err(Error::Unauthorized));
    assert_eq!(client.get_branch_assets([1u8; 32]), Ok(vec![]));

    client.auth = Signers::only(admin);
    assert_eq!(client.add_asset_to_branch([7u8; 32], [2u8; 32]), Err(Error::BranchNotFound));
    assert_eq!(client.add_asset_to_branch([1u8; 32], [7u8; 32]), Err(Error::AssetNotFound));
    assert_eq!(client.add_asset_to_branch([1u8; 32], [2u8; 32]), Ok(()));
    assert_eq!(client.get_branch_assets([1u8; 32]), Ok(vec![[2u8; 32]]));
}

#[test]
fn test_registry_admin_policy_without_admin() {
    let mut client = AssetUpContract::new(MemoryStore::new(), Signers::none())
        .with_link_policy(LinkPolicy::RegistryAdmin);
    assert_eq!(client.add_asset_to_branch([1u8; 32], [2u8; 32]), Err(Error::AdminNotFound));
}

#[test]
fn test_branch_admin_policy() {
    let (mut client, admin, branch_admin, _owner) =
        registry_with_branch_and_asset(LinkPolicy::BranchAdmin);

    client.auth = Signers::only(admin);
    assert_eq!(client.add_asset_to_branch([1u8; 32], [2u8; 32]), Err(Error::Unauthorized));
    assert_eq!(client.add_asset_to_branch([7u8; 32], [2u8; 32]), Err(Error::BranchNotFound));
    assert_eq!(client.get_branch_assets([1u8; 32]), Ok(vec![]));

    client.auth = Signers::only(branch_admin);
    assert_eq!(client.add_asset_to_branch([1u8; 32], [7u8; 32]), Err(Error::AssetNotFound));
    assert_eq!(client.add_asset_to_branch([1u8; 32], [2u8; 32]), Ok(()));
    assert_eq!(client.add_asset_to_branch([1u8; 32], [2u8; 32]), Ok(()));
    assert_eq!(client.get_branch_assets([1u8; 32]), Ok(vec![[2u8; 32]]));
}
