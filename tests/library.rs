use sweet_models::error::{ApiError, Query, STATUS_CREATED, STATUS_OK};
use sweet_models::model::{health_status, Account, CreateDeviceRequest, Device, LoginRequest};
use sweet_models::registry::{
    create_device, create_result, insert_values, list_devices, list_result, resolve_status,
};
use sweet_models::session::{issue_token, login, login_result, token_from_id_text};
use sweet_models::store::{classify_failure, AccountTable, DeviceTable, StoreFailure};
use sweet_models::text::{contains_str, same_text};

const PIXEL_ID: u128 = 0x67e5_5044_10b1_426f_9247_bb68_0e5f_e0c8;

fn request(name: &str, mac: &str, status: Option<&str>) -> CreateDeviceRequest {
    CreateDeviceRequest {
        name: name.to_string(),
        mac_address: mac.to_string(),
        status: status.map(|s| s.to_string()),
        assigned_to_user_id: None,
        location: None,
    }
}

fn account(id: u128, email: &str) -> Account {
    Account {
        id,
        email: email.to_string(),
        role: "admin".to_string(),
        display_name: Some("Ana".to_string()),
    }
}

fn device(id: u128, mac: &str, created_at: i64) -> Device {
    Device {
        id,
        name: "Tablet".to_string(),
        mac_address: mac.to_string(),
        status: "active".to_string(),
        assigned_to_user_id: None,
        location: None,
        last_seen_at: None,
        created_at,
    }
}

#[test]
fn health_reports_static_metadata() {
    let h = health_status();
    assert_eq!(h.status, "ok");
    assert_eq!(h.service, "Sweet Models API");
    assert_eq!(h.version, "1.0.0");
}

#[test]
fn error_envelopes() {
    let e = ApiError::InvalidCredentials.envelope();
    assert_eq!((e.status, e.error.as_str()), (401, "INVALID_CREDENTIALS"));
    assert_eq!(e.message, "Email o contraseña incorrectos");
    let e = ApiError::PersistenceError(Query::AccountLookup).envelope();
    assert_eq!((e.status, e.error.as_str()), (500, "DATABASE_ERROR"));
    assert_eq!(e.message, "Error al consultar la base de datos");
    let e = ApiError::PersistenceError(Query::DeviceListing).envelope();
    assert_eq!((e.status, e.error.as_str()), (500, "DATABASE_ERROR"));
    assert_eq!(e.message, "Error al consultar dispositivos");
    let e = ApiError::DuplicateDevice.envelope();
    assert_eq!((e.status, e.error.as_str()), (400, "CREATE_FAILED"));
    assert_eq!(e.message, "Esta dirección MAC ya está registrada");
    let e = ApiError::CreateFailed.envelope();
    assert_eq!((e.status, e.error.as_str()), (400, "CREATE_FAILED"));
    assert_eq!(e.message, "Error al crear dispositivo");
    assert_eq!((STATUS_OK, STATUS_CREATED), (200, 201));
}

#[test]
fn text_search() {
    assert!(contains_str("abcdef", "cde"));
    assert!(contains_str("abc", ""));
    assert!(!contains_str("abc", "abcd"));
    assert!(!contains_str("", "a"));
    assert!(contains_str("dirección", "ción"));
    assert!(same_text("año", "año"));
    assert!(!same_text("ab", "abc"));
    assert!(!same_text("abd", "abc"));
}

#[test]
fn store_failures_are_classified() {
    assert_eq!(
        classify_failure(
            "error returned from database: duplicate key value violates unique constraint \"devices_mac_address_key\""
        ),
        StoreFailure::UniqueViolation
    );
    assert_eq!(classify_failure("pool timed out while waiting for an open connection"), StoreFailure::Other);
    assert_eq!(classify_failure("duplicate"), StoreFailure::Other);
    assert_eq!(classify_failure(""), StoreFailure::Other);
}

#[test]
fn token_is_bound_to_account_id() {
    assert_eq!(
        issue_token(PIXEL_ID),
        "mock_jwt_token_for_67e55044-10b1-426f-9247-bb680e5fe0c8"
    );
    assert_eq!(issue_token(0), "mock_jwt_token_for_00000000-0000-0000-0000-000000000000");
    assert_eq!(token_from_id_text("abc"), "mock_jwt_token_for_abc");
}

#[test]
fn login_result_maps_lookup() {
    let r = login_result(Ok(Some(account(PIXEL_ID, "ana@x.com")))).unwrap();
    assert_eq!(r.user.email, "ana@x.com");
    assert_eq!(r.user.id, PIXEL_ID);
    assert_eq!(r.token, "mock_jwt_token_for_67e55044-10b1-426f-9247-bb680e5fe0c8");
    assert_eq!(login_result(Ok(None)).err(), Some(ApiError::InvalidCredentials));
    assert_eq!(
        login_result(Err(StoreFailure::Other)).err(),
        Some(ApiError::PersistenceError(Query::AccountLookup))
    );
}

#[test]
fn login_with_missing_email_is_unauthorized() {
    let mut accounts = AccountTable::new();
    assert_eq!(accounts.insert(account(1, "ana@x.com")), Ok(()));
    let req = LoginRequest { email: "missing@x.com".to_string(), password: "x".to_string() };
    let err = login(&accounts, &req).err().unwrap();
    assert_eq!(err, ApiError::InvalidCredentials);
    let env = err.envelope();
    assert_eq!(env.status, 401);
    assert_eq!(env.error, "INVALID_CREDENTIALS");
}

#[test]
fn login_finds_account_by_exact_email() {
    let mut accounts = AccountTable::new();
    assert_eq!(accounts.insert(account(1, "ana@x.com")), Ok(()));
    assert_eq!(accounts.insert(account(2, "bo@x.com")), Ok(()));
    let req = LoginRequest { email: "bo@x.com".to_string(), password: "anything".to_string() };
    let resp = login(&accounts, &req).ok().unwrap();
    assert_eq!(resp.user.id, 2);
    assert_eq!(resp.user.role, "admin");
    assert_eq!(resp.token, "mock_jwt_token_for_00000000-0000-0000-0000-000000000002");
    let upper = LoginRequest { email: "BO@x.com".to_string(), password: "x".to_string() };
    assert_eq!(login(&accounts, &upper).err(), Some(ApiError::InvalidCredentials));
}

#[test]
fn account_emails_are_unique() {
    let mut accounts = AccountTable::new();
    assert_eq!(accounts.insert(account(1, "ana@x.com")), Ok(()));
    assert_eq!(accounts.insert(account(2, "ana@x.com")), Err(StoreFailure::UniqueViolation));
    assert_eq!(accounts.find_by_email("ana@x.com").unwrap().id, 1);
    assert!(accounts.find_by_email("nobody@x.com").is_none());
}

#[test]
fn status_defaults_to_active() {
    assert_eq!(resolve_status(None), "active");
    assert_eq!(resolve_status(Some("retired".to_string())), "retired");
    let row = insert_values(request("Pixel 7", "AA:BB:CC:DD:EE:01", None));
    assert_eq!(row.status, "active");
    assert_eq!(row.name, "Pixel 7");
    assert_eq!(row.mac_address, "AA:BB:CC:DD:EE:01");
    let row = insert_values(request("Pixel 7", "AA:BB:CC:DD:EE:01", Some("maintenance")));
    assert_eq!(row.status, "maintenance");
}

#[test]
fn outcomes_map_to_api_errors() {
    let d = create_result(Ok(device(1, "m", 5))).unwrap();
    assert_eq!(d.id, 1);
    assert_eq!(create_result(Err(StoreFailure::UniqueViolation)).err(), Some(ApiError::DuplicateDevice));
    assert_eq!(create_result(Err(StoreFailure::Other)).err(), Some(ApiError::CreateFailed));
    let v = list_result(Ok(vec![device(1, "m", 5), device(2, "n", 4)])).unwrap();
    assert_eq!(v.len(), 2);
    assert_eq!(v[0].id, 1);
    assert_eq!(
        list_result(Err(StoreFailure::Other)).err(),
        Some(ApiError::PersistenceError(Query::DeviceListing))
    );
}

#[test]
fn create_pixel_then_duplicate() {
    let mut table = DeviceTable::new();
    let d = create_device(&mut table, request("Pixel 7", "AA:BB:CC:DD:EE:01", None), PIXEL_ID, 1_000)
        .unwrap();
    assert_eq!(d.status, "active");
    assert_eq!(d.id, PIXEL_ID);
    assert_eq!(d.created_at, 1_000);
    assert_eq!(d.last_seen_at, None);
    let err = create_device(&mut table, request("Pixel 7", "AA:BB:CC:DD:EE:01", None), 7, 2_000)
        .err()
        .unwrap();
    assert_eq!(err, ApiError::DuplicateDevice);
    let env = err.envelope();
    assert_eq!(env.status, 400);
    assert_eq!(env.error, "CREATE_FAILED");
    assert_eq!(table.len(), 1);
    assert!(table.has_mac("AA:BB:CC:DD:EE:01"));
}

#[test]
fn duplicate_mac_leaves_row_count() {
    let mut table = DeviceTable::new();
    assert!(create_device(&mut table, request("A", "01", Some("active")), 1, 10).is_ok());
    assert!(create_device(&mut table, request("B", "02", None), 2, 20).is_ok());
    let r = create_device(&mut table, request("C", "01", Some("spare")), 3, 30);
    assert_eq!(r.err(), Some(ApiError::DuplicateDevice));
    assert_eq!(table.len(), 2);
}

#[test]
fn empty_table_lists_nothing() {
    let table = DeviceTable::new();
    let v = list_devices(&table).unwrap();
    assert!(v.is_empty());
}

#[test]
fn list_is_newest_first() {
    let mut table = DeviceTable::new();
    create_device(&mut table, request("A", "0A", None), 1, 100).unwrap();
    create_device(&mut table, request("B", "0B", None), 2, 200).unwrap();
    let v = list_devices(&table).unwrap();
    assert_eq!(v.iter().map(|d| d.name.as_str()).collect::<Vec<_>>(), vec!["B", "A"]);
    assert_eq!(table.list_newest_first().len(), 2);
}

#[test]
fn creation_time_never_goes_back() {
    let mut table = DeviceTable::new();
    create_device(&mut table, request("A", "0A", None), 1, 500).unwrap();
    let b = create_device(&mut table, request("B", "0B", None), 2, 400).unwrap();
    assert_eq!(b.created_at, 500);
    let c = create_device(&mut table, request("C", "0C", None), 3, 900).unwrap();
    assert_eq!(c.created_at, 900);
    let v = list_devices(&table).unwrap();
    assert_eq!(v.iter().map(|d| d.id).collect::<Vec<_>>(), vec![3, 2, 1]);
}

#[test]
fn request_fields_are_stored_as_given() {
    let mut table = DeviceTable::new();
    let req = CreateDeviceRequest {
        name: String::new(),
        mac_address: "not-a-mac".to_string(),
        status: Some("retired".to_string()),
        assigned_to_user_id: Some(42),
        location: Some("Lab".to_string()),
    };
    let d = create_device(&mut table, req, 9, 1).unwrap();
    assert_eq!(d.name, "");
    assert_eq!(d.status, "retired");
    assert_eq!(d.assigned_to_user_id, Some(42));
    assert_eq!(d.location.as_deref(), Some("Lab"));
    let copy = d.duplicate();
    assert_eq!(copy.mac_address, "not-a-mac");
}

#[test]
fn empty_status_resolves_to_active() {
    assert_eq!(resolve_status(Some(String::new())), "active");
    let row = insert_values(request("Pixel 7", "AA:BB:CC:DD:EE:02", Some("")));
    assert_eq!(row.status, "active");
    let mut table = DeviceTable::new();
    let d = create_device(&mut table, request("Pixel 7", "AA:BB:CC:DD:EE:02", Some("")), 5, 10)
        .unwrap();
    assert_eq!(d.status, "active");
    assert_eq!(list_devices(&table).unwrap()[0].status, "active");
}

#[test]
fn different_ids_get_different_tokens() {
    let a = issue_token(1);
    let b = issue_token(1 << 124);
    assert_eq!(a, "mock_jwt_token_for_00000000-0000-0000-0000-000000000001");
    assert_eq!(b, "mock_jwt_token_for_10000000-0000-0000-0000-000000000000");
    assert_ne!(a, b);
}
