use credman::errors::{CMError, CustomError};
use credman::objects::{APIObj, AccountObj, FieldType, Secret};
use credman::passgen::get_random_pass;

fn account(name: &str, user: &str, pass: &str) -> Secret {
    Secret::Account(AccountObj {
        account_name: name.to_string(),
        user_name: user.to_string(),
        password: pass.to_string(),
    })
}

fn api(name: &str, desc: &str, user: &str, key: &str) -> Secret {
    Secret::API(APIObj {
        api_name: name.to_string(),
        description: desc.to_string(),
        user_name: user.to_string(),
        api_key: key.to_string(),
    })
}

#[test]
fn get_field_returns_the_requested_field() {
    let s = account("alice", "bob", "pw");
    assert_eq!(s.get_field(FieldType::Secname), "alice");
    assert_eq!(s.get_field(FieldType::User), "bob");
    assert_eq!(s.get_field(FieldType::Pass), "pw");
    assert_eq!(s.get_field(FieldType::Desc), "");
    assert_eq!(s.get_field(FieldType::Key), "");
    let a = api("svc", "desc", "carol", "k1");
    assert_eq!(a.get_field(FieldType::Secname), "svc");
    assert_eq!(a.get_field(FieldType::Desc), "desc");
    assert_eq!(a.get_field(FieldType::User), "carol");
    assert_eq!(a.get_field(FieldType::Key), "k1");
    assert_eq!(a.get_field(FieldType::Pass), "");
}

#[test]
fn get_name_returns_the_unique_name() {
    assert_eq!(account("alice", "u", "p").get_name(), "alice");
    assert_eq!(api("svc", "d", "u", "k").get_name(), "svc");
}

#[test]
fn login_json_is_the_exact_object_text() {
    let s = account("alice", "bob", "pw");
    assert_eq!(
        s.get_json_str(),
        "{\n  \"account_name\": \"alice\",\n  \"user_name\": \"bob\",\n  \"password\": \"pw\"\n}"
    );
}

#[test]
fn api_json_is_the_exact_object_text() {
    let s = api("svc", "a key", "carol", "k1");
    assert_eq!(
        s.get_json_str(),
        "{\n  \"api_name\": \"svc\",\n  \"description\": \"a key\",\n  \"user_name\": \"carol\",\n  \"api_key\": \"k1\"\n}"
    );
}

#[test]
fn json_escapes_quotes_backslashes_and_controls() {
    let s = account("a\"b", "c\\d", "e\nf\tg\u{1}");
    let json = s.get_json_str();
    assert!(json.contains("\"a\\\"b\""));
    assert!(json.contains("\"c\\\\d\""));
    assert!(json.contains("\"e\\nf\\tg\\u0001\""));
}

#[test]
fn field_json_is_a_one_entry_object() {
    let s = account("alice", "bob", "pw");
    assert_eq!(s.get_field_json_str(FieldType::User), "{\"User\": \"bob\"}");
    assert_eq!(s.get_field_json_str(FieldType::Secname), "{\"Name\": \"alice\"}");
    assert_eq!(s.get_field_json_str(FieldType::Pass), "{\"Pass\": \"pw\"}");
    assert_eq!(s.get_field_json_str(FieldType::Desc), "");
    let a = api("svc", "d", "u", "k");
    assert_eq!(a.get_field_json_str(FieldType::Desc), "{\"Description\": \"d\"}");
    assert_eq!(a.get_field_json_str(FieldType::Key), "{\"Key\": \"k\"}");
    assert_eq!(a.get_field_json_str(FieldType::Pass), "");
}

#[test]
fn secret_list_json_wraps_objects_in_an_array() {
    let list = vec![account("a", "u", "p"), api("k", "d", "u", "x")];
    let json = credman::present::secret_list_json(&list);
    let expected = format!("[{},\n{}]", list[0].get_json_str(), list[1].get_json_str());
    assert_eq!(json, expected);
    let empty: Vec<Secret> = Vec::new();
    assert_eq!(credman::present::secret_list_json(&empty), "[]");
    let one = vec![account("solo", "u", "p")];
    assert_eq!(
        credman::present::secret_list_json(&one),
        format!("[{}]", one[0].get_json_str())
    );
}

#[test]
fn generated_password_has_requested_length_and_alphabet() {
    let p = get_random_pass(None).expect("default length");
    assert_eq!(p.chars().count(), 16);
    let p2 = get_random_pass(Some(255)).expect("maximum length");
    assert_eq!(p2.chars().count(), 255);
    let p3 = get_random_pass(Some(0)).expect("zero length");
    assert_eq!(p3, "");
    let alphabet = "ABCDEFGHIJKLMNOPQRSTUVWXYZabcdefghijklmnopqrstuvwxyz1234567890!@#$%^&*()";
    for c in p.chars().chain(p2.chars()) {
        assert!(alphabet.contains(c));
    }
}

#[test]
fn oversized_password_request_fails() {
    let r = get_random_pass(Some(256));
    assert!(matches!(r, Err(CMError::Custom(_))));
}

#[test]
fn two_generated_passwords_differ() {
    let p1 = get_random_pass(Some(32)).expect("first");
    let p2 = get_random_pass(Some(32)).expect("second");
    assert_ne!(p1, p2);
}

#[test]
fn error_messages_name_each_failure() {
    assert_eq!(CMError::NotFound.message(), "not found");
    assert_eq!(CMError::DuplicateName.message(), "a secret with that name already exists");
    assert_eq!(
        CMError::ReservedName.message(),
        "the name \"master\" is reserved for the master password"
    );
    assert_eq!(CMError::FieldCountMismatch.message(), "wrong number of fields");
    assert_eq!(CMError::StorageError("disk on fire".to_string()).message(), "disk on fire");
    assert_eq!(CMError::Custom(CustomError::new("oops")).message(), "oops");
    assert_eq!(CMError::MismatchError.message(), "the confirmation input did not match");
}

#[test]
fn secret_from_record_wraps_the_right_kind() {
    let s: Secret = AccountObj {
        account_name: "n".to_string(),
        user_name: "u".to_string(),
        password: "p".to_string(),
    }
    .into();
    assert!(matches!(s, Secret::Account(_)));
    let a: Secret = APIObj {
        api_name: "n".to_string(),
        description: "d".to_string(),
        user_name: "u".to_string(),
        api_key: "k".to_string(),
    }
    .into();
    assert!(matches!(a, Secret::API(_)));
}
