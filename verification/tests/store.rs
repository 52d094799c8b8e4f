use assetsup::{
    copy_ids, holds_id, same_id, AllowAll, Asset, AssetStatus, AssetType, Authorizer, Branch,
    DataKey, MemoryStore, Principal, Signers, Store, Value,
};

fn sample_asset(id: [u8; 32]) -> Asset {
    Asset {
        id,
        name: "Printer".to_string(),
        asset_type: AssetType::Physical,
        category: "Office".to_string(),
        branch_id: 3,
        department_id: 4,
        status: AssetStatus::InMaintenance,
        purchase_date: 5,
        purchase_cost: -6,
        current_value: 7,
        warranty_expiry: 8,
        stellar_token_id: [9u8; 32],
        owner: Principal::new("GOWNER".to_string()),
    }
}

#[test]
fn test_empty_store_holds_nothing() {
    let store = MemoryStore::new();
    assert!(!store.has(&DataKey::Admin));
    assert_eq!(store.get(&DataKey::Admin), None);
    assert!(!store.has(&DataKey::Asset([0u8; 32])));
    assert_eq!(store.get(&DataKey::AssetList([0u8; 32])), None);
}

#[test]
fn test_set_then_get_returns_the_value() {
    let mut store = MemoryStore::new();
    let id = [1u8; 32];
    store.set(DataKey::Asset(id), Value::Asset(sample_asset(id)));
    assert!(store.has(&DataKey::Asset(id)));
    assert_eq!(store.get(&DataKey::Asset(id)), Some(Value::Asset(sample_asset(id))));
}

#[test]
fn test_namespaces_do_not_collide() {
    let mut store = MemoryStore::new();
    let id = [1u8; 32];
    let branch = Branch {
        id,
        name: "Main".to_string(),
        location: "Here".to_string(),
        admin: Principal::new("GB".to_string()),
    };
    store.set(DataKey::Branch(id), Value::Branch(branch.clone()));
    assert!(!store.has(&DataKey::Asset(id)));
    assert!(!store.has(&DataKey::AssetList(id)));
    assert!(!store.has(&DataKey::Admin));

    store.set(DataKey::AssetList(id), Value::AssetList(vec![[2u8; 32]]));
    store.set(DataKey::Asset(id), Value::Asset(sample_asset(id)));
    store.set(DataKey::Admin, Value::Admin(Principal::new("GA".to_string())));
    assert_eq!(store.get(&DataKey::Branch(id)), Some(Value::Branch(branch)));
    assert_eq!(store.get(&DataKey::AssetList(id)), Some(Value::AssetList(vec![[2u8; 32]])));
    assert_eq!(store.get(&DataKey::Asset(id)), Some(Value::Asset(sample_asset(id))));
    assert_eq!(
        store.get(&DataKey::Admin),
        Some(Value::Admin(Principal::new("GA".to_string())))
    );
}

#[test]
fn test_set_overwrites_and_leaves_other_keys() {
    let mut store = MemoryStore::new();
    let a = [1u8; 32];
    let b = [2u8; 32];
    store.set(DataKey::AssetList(a), Value::AssetList(vec![]));
    store.set(DataKey::AssetList(b), Value::AssetList(vec![[7u8; 32]]));
    store.set(DataKey::AssetList(a), Value::AssetList(vec![[5u8; 32], [6u8; 32]]));
    assert_eq!(
        store.get(&DataKey::AssetList(a)),
        Some(Value::AssetList(vec![[5u8; 32], [6u8; 32]]))
    );
    assert_eq!(store.get(&DataKey::AssetList(b)), Some(Value::AssetList(vec![[7u8; 32]])));
    store.set(DataKey::AssetList(b), Value::AssetList(vec![]));
    assert_eq!(store.get(&DataKey::AssetList(b)), Some(Value::AssetList(vec![])));
    assert_eq!(
        store.get(&DataKey::AssetList(a)),
        Some(Value::AssetList(vec![[5u8; 32], [6u8; 32]]))
    );
}

#[test]
fn test_keys_compare_by_namespace_and_bytes() {
    let mut other = [1u8; 32];
    other[0] = 2;
    assert!(DataKey::Admin.same_as(&DataKey::Admin));
    assert!(DataKey::Asset([1u8; 32]).same_as(&DataKey::Asset([1u8; 32])));
    assert!(!DataKey::Asset([1u8; 32]).same_as(&DataKey::Asset(other)));
    assert!(!DataKey::Asset([1u8; 32]).same_as(&DataKey::Branch([1u8; 32])));
    assert!(!DataKey::Branch([1u8; 32]).same_as(&DataKey::AssetList([1u8; 32])));
    assert!(!DataKey::Admin.same_as(&DataKey::AssetList([1u8; 32])));
}

#[test]
fn test_with_token_replaces_only_the_token() {
    let asset = sample_asset([1u8; 32]);
    let changed = asset.clone().with_token([4u8; 32]);
    let mut expected = asset;
    expected.stellar_token_id = [4u8; 32];
    assert_eq!(changed, expected);
}

#[test]
fn test_signers_authorize_those_who_signed() {
    let alice = Principal::new("GALICE".to_string());
    let bob = Principal::new("GBOB".to_string());
    let carol = Principal::new("GCAROL".to_string());

    let nobody = Signers::none();
    assert!(!nobody.is_authorized(&alice));

    let one = Signers::only(alice.clone());
    assert!(one.is_authorized(&alice));
    assert!(!one.is_authorized(&bob));

    let mut two = Signers::only(alice.clone());
    two.add(carol.clone());
    assert!(two.is_authorized(&alice));
    assert!(two.is_authorized(&carol));
    assert!(!two.is_authorized(&bob));
    assert!(alice.same_as(&Principal::new("GALICE".to_string())));
    assert!(!alice.same_as(&bob));
}

#[test]
fn test_allow_all_authorizes_everyone() {
    let auth = AllowAll {};
    assert!(auth.is_authorized(&Principal::new("GALICE".to_string())));
    assert!(auth.is_authorized(&Principal::new(String::new())));
}

#[test]
fn test_same_id_compares_every_byte() {
    let a = [7u8; 32];
    let mut first = a;
    first[0] = 8;
    let mut last = a;
    last[31] = 8;
    assert!(same_id(&a, &[7u8; 32]));
    assert!(!same_id(&a, &first));
    assert!(!same_id(&a, &last));
}

#[test]
fn test_holds_id_and_copy_ids() {
    let ids = vec![[1u8; 32], [2u8; 32], [3u8; 32]];
    assert!(holds_id(&ids, &[1u8; 32]));
    assert!(holds_id(&ids, &[3u8; 32]));
    assert!(!holds_id(&ids, &[4u8; 32]));
    assert!(!holds_id(&vec![], &[1u8; 32]));
    assert_eq!(copy_ids(&ids), ids);
    assert_eq!(copy_ids(&vec![]), Vec::<[u8; 32]>::new());
}
