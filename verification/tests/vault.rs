use credman::errors::CMError;
use credman::objects::{APIObj, AccountObj, FieldType, Secret, SecretType};
use credman::ops::{
    add_account_to_db, add_apikey_to_db, check_account_exists, check_apikey_exists,
    change_db_account_field, change_db_apikey_field, delete_account_from_db,
    delete_apikey_from_db, get_account_from_db, get_accounts, get_all_accounts_from_db,
    get_all_apikeys_from_db, get_apikey_from_db, get_apikeys,
};
use credman::passgen::get_random_pass;
use credman::store::EncryptedStore;

fn fresh_path(tag: &str) -> String {
    let suffix = get_random_pass(Some(12)).expect("random suffix");
    let clean: String = suffix.chars().filter(|c| c.is_ascii_alphanumeric()).collect();
    format!("/tmp/credman_{}_{}.db", tag, clean)
}

fn login(name: &str, user: &str, pass: &str) -> AccountObj {
    AccountObj {
        account_name: name.to_string(),
        user_name: user.to_string(),
        password: pass.to_string(),
    }
}

fn apikey(name: &str, desc: &str, user: &str, key: &str) -> APIObj {
    APIObj {
        api_name: name.to_string(),
        description: desc.to_string(),
        user_name: user.to_string(),
        api_key: key.to_string(),
    }
}

#[test]
fn create_then_create_again_fails_already_exists() {
    let path = fresh_path("twice");
    let _store = EncryptedStore::create(&path, "pw").expect("first create");
    let second = EncryptedStore::create(&path, "pw");
    assert!(matches!(second, Err(CMError::AlreadyExists)));
}

#[test]
fn open_missing_file_fails_not_found() {
    let path = fresh_path("missing");
    let opened = EncryptedStore::open(&path, "pw");
    assert!(matches!(opened, Err(CMError::NotFound)));
}

#[test]
fn create_on_directory_fails_with_storage_error() {
    let created = EncryptedStore::create("/tmp", "pw");
    assert!(matches!(created, Err(CMError::StorageError(_))));
}

#[test]
fn insert_then_get_login_returns_same_fields() {
    let path = fresh_path("roundtrip_login");
    let mut store = EncryptedStore::create(&path, "pw").expect("create");
    add_account_to_db(&login("alice", "alice@example", "hunter2"), &mut store).expect("insert");
    let got = get_account_from_db("alice", &store).expect("get");
    match got {
        Secret::Account(a) => {
            assert_eq!(a.account_name, "alice");
            assert_eq!(a.user_name, "alice@example");
            assert_eq!(a.password, "hunter2");
        }
        _ => panic!("wrong kind"),
    }
}

#[test]
fn insert_then_get_apikey_returns_same_fields() {
    let path = fresh_path("roundtrip_api");
    let mut store = EncryptedStore::create(&path, "pw").expect("create");
    add_apikey_to_db(&apikey("svc", "deploy key", "bob", "key123"), &mut store).expect("insert");
    let got = get_apikey_from_db("svc", &store).expect("get");
    match got {
        Secret::API(a) => {
            assert_eq!(a.api_name, "svc");
            assert_eq!(a.description, "deploy key");
            assert_eq!(a.user_name, "bob");
            assert_eq!(a.api_key, "key123");
        }
        _ => panic!("wrong kind"),
    }
}

#[test]
fn insert_master_fails_reserved_for_both_kinds() {
    let path = fresh_path("reserved");
    let mut store = EncryptedStore::create(&path, "pw").expect("create");
    let r1 = add_account_to_db(&login("master", "u", "p"), &mut store);
    assert!(matches!(r1, Err(CMError::ReservedName)));
    let r2 = add_apikey_to_db(&apikey("master", "d", "u", "k"), &mut store);
    assert!(matches!(r2, Err(CMError::ReservedName)));
    assert!(!check_account_exists("master", &store).expect("exists"));
    assert!(!check_apikey_exists("master", &store).expect("exists"));
}

#[test]
fn duplicate_insert_fails_and_preserves_existing_record() {
    let path = fresh_path("duplicate");
    let mut store = EncryptedStore::create(&path, "pw").expect("create");
    add_account_to_db(&login("alice", "first", "one"), &mut store).expect("insert");
    let dup = add_account_to_db(&login("alice", "second", "two"), &mut store);
    assert!(matches!(dup, Err(CMError::DuplicateName)));
    let got = get_account_from_db("alice", &store).expect("get");
    match got {
        Secret::Account(a) => {
            assert_eq!(a.user_name, "first");
            assert_eq!(a.password, "one");
        }
        _ => panic!("wrong kind"),
    }
}

#[test]
fn update_field_outside_kind_set_fails_invalid_field_and_preserves() {
    let path = fresh_path("invalid_field");
    let mut store = EncryptedStore::create(&path, "pw").expect("create");
    add_account_to_db(&login("alice", "u", "p"), &mut store).expect("insert");
    let r = change_db_account_field("alice", FieldType::Key, "boom", &mut store);
    assert!(matches!(r, Err(CMError::InvalidField)));
    let r2 = change_db_account_field("alice", FieldType::Desc, "boom", &mut store);
    assert!(matches!(r2, Err(CMError::InvalidField)));
    let got = get_account_from_db("alice", &store).expect("get");
    match got {
        Secret::Account(a) => {
            assert_eq!(a.user_name, "u");
            assert_eq!(a.password, "p");
        }
        _ => panic!("wrong kind"),
    }
}

#[test]
fn delete_then_get_fails_not_found() {
    let path = fresh_path("delete_get");
    let mut store = EncryptedStore::create(&path, "pw").expect("create");
    add_account_to_db(&login("alice", "u", "p"), &mut store).expect("insert");
    delete_account_from_db("alice", &mut store).expect("delete");
    let got = get_account_from_db("alice", &store);
    assert!(matches!(got, Err(CMError::NotFound)));
    let again = delete_account_from_db("alice", &mut store);
    assert!(matches!(again, Err(CMError::NotFound)));
}

#[test]
fn rekey_invalidates_old_password_and_keeps_records() {
    let path = fresh_path("rekey");
    {
        let mut store = EncryptedStore::create(&path, "oldpw").expect("create");
        add_account_to_db(&login("alice", "u", "p"), &mut store).expect("insert");
    }
    EncryptedStore::rekey(&path, "oldpw", "newpw").expect("rekey");
    let stale = EncryptedStore::open(&path, "oldpw");
    assert!(matches!(stale, Err(CMError::AuthenticationFailed)));
    let store = EncryptedStore::open(&path, "newpw").expect("open with new password");
    let got = get_account_from_db("alice", &store).expect("get");
    match got {
        Secret::Account(a) => {
            assert_eq!(a.user_name, "u");
            assert_eq!(a.password, "p");
        }
        _ => panic!("wrong kind"),
    }
}

#[test]
fn rekey_with_wrong_old_password_fails_authentication() {
    let path = fresh_path("rekey_wrong");
    {
        let _store = EncryptedStore::create(&path, "right").expect("create");
    }
    let r = EncryptedStore::rekey(&path, "wrong", "new");
    assert!(matches!(r, Err(CMError::AuthenticationFailed)));
    assert!(EncryptedStore::open(&path, "right").is_ok());
}

#[test]
fn master_password_with_quotes_and_sql_text_is_just_a_password() {
    let path = fresh_path("quoted_pw");
    let tricky = "p'; DELETE FROM account; --";
    {
        let mut store = EncryptedStore::create(&path, tricky).expect("create");
        add_account_to_db(&login("alice", "u", "p"), &mut store).expect("insert");
    }
    let store = EncryptedStore::open(&path, tricky).expect("open with the same password");
    assert!(check_account_exists("alice", &store).expect("exists"));
    drop(store);
    let wrong = EncryptedStore::open(&path, "p");
    assert!(matches!(wrong, Err(CMError::AuthenticationFailed)));
}

#[test]
fn rekey_to_password_with_quotes_round_trips() {
    let path = fresh_path("quoted_rekey");
    {
        let mut store = EncryptedStore::create(&path, "plain").expect("create");
        add_account_to_db(&login("bob", "u", "p"), &mut store).expect("insert");
    }
    let tricky = "a'b''c";
    EncryptedStore::rekey(&path, "plain", tricky).expect("rekey");
    let store = EncryptedStore::open(&path, tricky).expect("open with new password");
    assert!(check_account_exists("bob", &store).expect("exists"));
}

#[test]
fn exists_is_idempotent_without_mutation() {
    let path = fresh_path("idempotent");
    let mut store = EncryptedStore::create(&path, "pw").expect("create");
    add_account_to_db(&login("alice", "u", "p"), &mut store).expect("insert");
    let first = store.secret_exists(SecretType::Login, "alice").expect("exists");
    let second = store.secret_exists(SecretType::Login, "alice").expect("exists");
    let third = store.secret_exists(SecretType::Login, "alice").expect("exists");
    assert_eq!(first, second);
    assert_eq!(second, third);
    assert!(first);
    let a1 = store.secret_exists(SecretType::Api, "alice").expect("exists");
    let a2 = store.secret_exists(SecretType::Api, "alice").expect("exists");
    assert_eq!(a1, a2);
    assert!(!a1);
}

#[test]
fn kinds_have_separate_name_spaces() {
    let path = fresh_path("kinds");
    let mut store = EncryptedStore::create(&path, "pw").expect("create");
    add_account_to_db(&login("same", "u", "p"), &mut store).expect("insert login");
    add_apikey_to_db(&apikey("same", "d", "u", "k"), &mut store).expect("insert api");
    assert!(check_account_exists("same", &store).expect("exists"));
    assert!(check_apikey_exists("same", &store).expect("exists"));
}

#[test]
fn rename_login_moves_record_to_new_name() {
    let path = fresh_path("rename");
    let mut store = EncryptedStore::create(&path, "pw").expect("create");
    add_account_to_db(&login("old", "u", "p"), &mut store).expect("insert");
    change_db_account_field("old", FieldType::Secname, "new", &mut store).expect("rename");
    assert!(!check_account_exists("old", &store).expect("exists"));
    let got = get_account_from_db("new", &store).expect("get");
    match got {
        Secret::Account(a) => {
            assert_eq!(a.account_name, "new");
            assert_eq!(a.user_name, "u");
            assert_eq!(a.password, "p");
        }
        _ => panic!("wrong kind"),
    }
}

#[test]
fn rename_to_taken_name_fails_duplicate() {
    let path = fresh_path("rename_dup");
    let mut store = EncryptedStore::create(&path, "pw").expect("create");
    add_account_to_db(&login("one", "u1", "p1"), &mut store).expect("insert");
    add_account_to_db(&login("two", "u2", "p2"), &mut store).expect("insert");
    let r = change_db_account_field("one", FieldType::Secname, "two", &mut store);
    assert!(matches!(r, Err(CMError::DuplicateName)));
}

#[test]
fn rename_to_master_fails_reserved() {
    let path = fresh_path("rename_master");
    let mut store = EncryptedStore::create(&path, "pw").expect("create");
    add_apikey_to_db(&apikey("svc", "d", "u", "k"), &mut store).expect("insert");
    let r = change_db_apikey_field("svc", FieldType::Secname, "master", &mut store);
    assert!(matches!(r, Err(CMError::ReservedName)));
}

#[test]
fn update_single_fields_change_only_that_field() {
    let path = fresh_path("update");
    let mut store = EncryptedStore::create(&path, "pw").expect("create");
    add_apikey_to_db(&apikey("svc", "old desc", "old user", "old key"), &mut store)
        .expect("insert");
    change_db_apikey_field("svc", FieldType::Desc, "new desc", &mut store).expect("update desc");
    change_db_apikey_field("svc", FieldType::Key, "new key", &mut store).expect("update key");
    let got = get_apikey_from_db("svc", &store).expect("get");
    match got {
        Secret::API(a) => {
            assert_eq!(a.description, "new desc");
            assert_eq!(a.user_name, "old user");
            assert_eq!(a.api_key, "new key");
        }
        _ => panic!("wrong kind"),
    }
}

#[test]
fn update_login_fields_change_only_that_field() {
    let path = fresh_path("update_login");
    let mut store = EncryptedStore::create(&path, "pw").expect("create");
    add_account_to_db(&login("alice", "old user", "old pass"), &mut store).expect("insert");
    change_db_account_field("alice", FieldType::User, "new user", &mut store)
        .expect("update user");
    match get_account_from_db("alice", &store).expect("get") {
        Secret::Account(a) => {
            assert_eq!(a.user_name, "new user");
            assert_eq!(a.password, "old pass");
        }
        _ => panic!("wrong kind"),
    }
    change_db_account_field("alice", FieldType::Pass, "new pass", &mut store)
        .expect("update pass");
    match get_account_from_db("alice", &store).expect("get") {
        Secret::Account(a) => {
            assert_eq!(a.user_name, "new user");
            assert_eq!(a.password, "new pass");
        }
        _ => panic!("wrong kind"),
    }
}

#[test]
fn update_api_user_and_rename_api() {
    let path = fresh_path("update_api");
    let mut store = EncryptedStore::create(&path, "pw").expect("create");
    add_apikey_to_db(&apikey("svc", "d", "old user", "k"), &mut store).expect("insert");
    change_db_apikey_field("svc", FieldType::User, "new user", &mut store).expect("update user");
    change_db_apikey_field("svc", FieldType::Secname, "svc2", &mut store).expect("rename");
    assert!(!check_apikey_exists("svc", &store).expect("exists"));
    match get_apikey_from_db("svc2", &store).expect("get") {
        Secret::API(a) => {
            assert_eq!(a.api_name, "svc2");
            assert_eq!(a.user_name, "new user");
            assert_eq!(a.description, "d");
            assert_eq!(a.api_key, "k");
        }
        _ => panic!("wrong kind"),
    }
}

#[test]
fn update_missing_record_fails_not_found() {
    let path = fresh_path("update_missing");
    let mut store = EncryptedStore::create(&path, "pw").expect("create");
    let r = change_db_account_field("ghost", FieldType::User, "x", &mut store);
    assert!(matches!(r, Err(CMError::NotFound)));
    let r2 = delete_apikey_from_db("ghost", &mut store);
    assert!(matches!(r2, Err(CMError::NotFound)));
}

#[test]
fn list_empty_store_returns_empty_not_error() {
    let path = fresh_path("list_empty");
    let store = EncryptedStore::create(&path, "pw").expect("create");
    let logins = get_all_accounts_from_db(&store).expect("list");
    assert!(logins.is_empty());
    let apis = get_all_apikeys_from_db(&store).expect("list");
    assert!(apis.is_empty());
}

#[test]
fn list_returns_every_record_once() {
    let path = fresh_path("list_two");
    let mut store = EncryptedStore::create(&path, "pw").expect("create");
    add_account_to_db(&login("a", "u1", "p1"), &mut store).expect("insert");
    add_account_to_db(&login("b", "u2", "p2"), &mut store).expect("insert");
    let all = store.list(SecretType::Login).expect("list");
    let mut names: Vec<String> = all.iter().map(|s| s.get_name()).collect();
    names.sort();
    assert_eq!(names, vec!["a".to_string(), "b".to_string()]);
}

#[test]
fn get_many_partitions_found_and_missing() {
    let path = fresh_path("get_many");
    let mut store = EncryptedStore::create(&path, "pw").expect("create");
    add_account_to_db(&login("a", "u", "p"), &mut store).expect("insert");
    add_apikey_to_db(&apikey("k", "d", "u", "x"), &mut store).expect("insert");
    let names = vec!["a".to_string(), "ghost".to_string()];
    let (found, errors) = get_accounts(&names, &store);
    assert_eq!(found.len(), 1);
    assert_eq!(errors.len(), 1);
    assert_eq!(found[0].get_name(), "a");
    assert!(matches!(errors[0], CMError::NotFound));
    let apinames = vec!["k".to_string(), "nope".to_string(), "k".to_string()];
    let (afound, aerrors) = get_apikeys(&apinames, &store);
    assert_eq!(afound.len(), 2);
    assert_eq!(aerrors.len(), 1);
}

#[test]
fn dispatch_api_matches_per_kind_functions() {
    let path = fresh_path("dispatch");
    let mut store = EncryptedStore::create(&path, "pw").expect("create");
    store
        .insert(&Secret::Account(login("alice", "u", "p")))
        .expect("insert through dispatch");
    assert!(store.secret_exists(SecretType::Login, "alice").expect("exists"));
    store
        .update_field(SecretType::Login, "alice", FieldType::Pass, "np")
        .expect("update through dispatch");
    let got = store.get(SecretType::Login, "alice").expect("get");
    assert_eq!(got.get_field(FieldType::Pass), "np");
    store.delete(SecretType::Login, "alice").expect("delete");
    assert!(!store.secret_exists(SecretType::Login, "alice").expect("exists"));
}
