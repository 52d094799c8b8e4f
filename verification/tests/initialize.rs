use assetsup::{AllowAll, AssetUpContract, Error, MemoryStore, Principal, Signers};

fn setup_initialize() -> (AssetUpContract<MemoryStore, AllowAll>, Principal) {
    let contract = AssetUpContract::new(MemoryStore::new(), AllowAll {});
    let admin = Principal::new("GADMIN".to_string());
    (contract, admin)
}

fn must<T>(res: Result<T, Error>) -> T {
    match res {
        Ok(v) => v,
        Err(e) => panic!("Error(Contract, #{})", e.code()),
    }
}

#[test]
fn test_initialize() {
    let (mut client, admin) = setup_initialize();
    must(client.initialize(admin.clone()));
    let saved_admin = must(client.get_admin());

    assert_eq!(admin, saved_admin);
}

#[test]
fn initialize_test_initialize() {
    let (mut client, admin) = setup_initialize();
    assert_eq!(client.initialize(admin.clone()), Ok(()));
    assert_eq!(client.get_admin(), Ok(admin));
}

#[test]
#[should_panic(expected = "Error(Contract, #1)")]
fn test_initialize_panic() {
    let (mut client, admin) = setup_initialize();
    must(client.initialize(admin.clone()));
    must(client.initialize(admin));
}

#[test]
#[should_panic(expected = "Error(Contract, #2)")]
fn test_admin_doesnt_exist() {
    let (client, _) = setup_initialize();
    must(client.get_admin());
}

#[test]
fn test_second_initialize_keeps_first_admin() {
    let (mut client, admin) = setup_initialize();
    let other = Principal::new("GOTHER".to_string());
    assert_eq!(client.initialize(admin.clone()), Ok(()));
    assert_eq!(client.initialize(other), Err(Error::AlreadyInitialized));
    assert_eq!(client.initialize(admin.clone()), Err(Error::AlreadyInitialized));
    assert_eq!(client.get_admin(), Ok(admin));
}

#[test]
fn test_get_admin_before_initialize() {
    let (client, _) = setup_initialize();
    assert_eq!(client.get_admin(), Err(Error::AdminNotFound));
}

#[test]
fn test_initialize_needs_the_admins_own_authorization() {
    let admin = Principal::new("GADMIN".to_string());
    let other = Principal::new("GOTHER".to_string());
    let mut client = AssetUpContract::new(MemoryStore::new(), Signers::only(other.clone()));
    assert_eq!(client.initialize(admin.clone()), Err(Error::Unauthorized));
    assert_eq!(client.get_admin(), Err(Error::AdminNotFound));

    client.auth = Signers::only(admin.clone());
    assert_eq!(client.initialize(admin.clone()), Ok(()));
    assert_eq!(client.get_admin(), Ok(admin));
}

#[test]
fn test_unauthorized_comes_before_already_initialized() {
    let admin = Principal::new("GADMIN".to_string());
    let other = Principal::new("GOTHER".to_string());
    let mut client = AssetUpContract::new(MemoryStore::new(), Signers::only(admin.clone()));
    assert_eq!(client.initialize(admin.clone()), Ok(()));
    assert_eq!(client.initialize(other), Err(Error::Unauthorized));
    assert_eq!(client.get_admin(), Ok(admin));
}

#[test]
#[should_panic(expected = "Error(Contract, #1)")]
fn initialize_test_initialize_panic() {
    let (mut client, admin) = setup_initialize();
    let other = Principal::new("GOTHER".to_string());
    must(client.initialize(admin));
    must(client.initialize(other));
}

#[test]
#[should_panic(expected = "Error(Contract, #2)")]
fn initialize_test_admin_doesnt_exist() {
    let (client, _) = setup_initialize();
    let admin = client.get_admin();
    must(admin);
}
