use credman::batch::{add_secrets_from_batch, parse_line, ParsedLine};
use credman::errors::CMError;
use credman::objects::Secret;
use credman::ops::{get_account_from_db, get_apikey_from_db, add_account_to_db};
use credman::objects::AccountObj;
use credman::passgen::get_random_pass;
use credman::store::EncryptedStore;
use credman::strutil::{split_fields, trim};

fn fresh_path(tag: &str) -> String {
    let suffix = get_random_pass(Some(12)).expect("random suffix");
    let clean: String = suffix.chars().filter(|c| c.is_ascii_alphanumeric()).collect();
    format!("/tmp/credman_{}_{}.db", tag, clean)
}

fn lines(input: &[&str]) -> Vec<String> {
    input.iter().map(|s| s.to_string()).collect()
}

#[test]
fn trim_removes_leading_and_trailing_whitespace_only() {
    assert_eq!(trim("  a b\t"), "a b");
    assert_eq!(trim("abc"), "abc");
    assert_eq!(trim(" \t\r\n "), "");
    assert_eq!(trim(""), "");
}

#[test]
fn split_fields_splits_on_every_comma() {
    let f = split_fields("a,b,,c");
    assert_eq!(f, vec!["a", "b", "", "c"]);
    assert_eq!(split_fields(""), vec![""]);
    assert_eq!(split_fields(",,,"), vec!["", "", "", ""]);
    assert_eq!(split_fields("one"), vec!["one"]);
}

#[test]
fn parse_line_recognises_each_shape() {
    assert!(matches!(parse_line(""), ParsedLine::Blank));
    assert!(matches!(parse_line("   \t"), ParsedLine::Blank));
    assert!(matches!(parse_line(",,,"), ParsedLine::Blank));
    assert!(matches!(parse_line("bogus,x"), ParsedLine::BadKind));
    assert!(matches!(parse_line("login,a,b"), ParsedLine::BadCount));
    assert!(matches!(parse_line("login,a,b,c,d"), ParsedLine::BadCount));
    assert!(matches!(parse_line("api,a,b,c"), ParsedLine::BadCount));
    match parse_line("login,alice,bob,hunter2") {
        ParsedLine::Login { name, username, password, generate } => {
            assert_eq!(name, "alice");
            assert_eq!(username, "bob");
            assert_eq!(password, "hunter2");
            assert!(!generate);
        }
        _ => panic!("expected a login line"),
    }
    match parse_line("login,alice,bob,?") {
        ParsedLine::Login { generate, .. } => assert!(generate),
        _ => panic!("expected a login line"),
    }
    match parse_line(" api,svc,bob,desc,key123 ") {
        ParsedLine::Api { name, username, description, key } => {
            assert_eq!(name, "svc");
            assert_eq!(username, "bob");
            assert_eq!(description, "desc");
            assert_eq!(key, "key123");
        }
        _ => panic!("expected an api line"),
    }
}

#[test]
fn batch_scenario_partial_failure_and_generated_password() {
    let path = fresh_path("scenario");
    let mut store = EncryptedStore::create(&path, "pw").expect("create");
    let input = lines(&[
        "login,alice,alice1,?",
        "login,alice,alice2,hunter2",
        "api,svc1,bob,desc,key123",
        ",,,",
        "bogus,x",
    ]);
    let summary = add_secrets_from_batch(&input, None, &mut store).expect("import");
    assert_eq!(summary.successes, vec!["alice".to_string(), "svc1".to_string()]);
    assert_eq!(summary.failures.len(), 2);
    assert_eq!(summary.failures[0].line, 2);
    assert!(matches!(summary.failures[0].error, CMError::DuplicateName));
    assert_eq!(summary.failures[1].line, 5);
    assert!(matches!(summary.failures[1].error, CMError::UnrecognizedKind));
    match get_account_from_db("alice", &store).expect("get") {
        Secret::Account(a) => {
            assert_eq!(a.user_name, "alice1");
            assert_ne!(a.password, "?");
            assert_eq!(a.password.chars().count(), 16);
        }
        _ => panic!("wrong kind"),
    }
    match get_apikey_from_db("svc1", &store).expect("get") {
        Secret::API(a) => {
            assert_eq!(a.user_name, "bob");
            assert_eq!(a.description, "desc");
            assert_eq!(a.api_key, "key123");
        }
        _ => panic!("wrong kind"),
    }
}

#[test]
fn batch_literal_password_is_kept() {
    let path = fresh_path("literal");
    let mut store = EncryptedStore::create(&path, "pw").expect("create");
    let input = lines(&["login,bob,bob1,hunter2"]);
    let summary = add_secrets_from_batch(&input, None, &mut store).expect("import");
    assert_eq!(summary.successes, vec!["bob".to_string()]);
    assert!(summary.failures.is_empty());
    match get_account_from_db("bob", &store).expect("get") {
        Secret::Account(a) => assert_eq!(a.password, "hunter2"),
        _ => panic!("wrong kind"),
    }
}

#[test]
fn batch_passlen_controls_generated_length() {
    let path = fresh_path("passlen");
    let mut store = EncryptedStore::create(&path, "pw").expect("create");
    let input = lines(&["login,gen,who,?"]);
    add_secrets_from_batch(&input, Some(20), &mut store).expect("import");
    match get_account_from_db("gen", &store).expect("get") {
        Secret::Account(a) => assert_eq!(a.password.chars().count(), 20),
        _ => panic!("wrong kind"),
    }
}

#[test]
fn batch_oversized_passlen_aborts_whole_run() {
    let path = fresh_path("overlen");
    let mut store = EncryptedStore::create(&path, "pw").expect("create");
    let input = lines(&["login,gen,who,?"]);
    let r = add_secrets_from_batch(&input, Some(300), &mut store);
    assert!(matches!(r, Err(CMError::Custom(_))));
}

#[test]
fn batch_per_line_validation_errors() {
    let path = fresh_path("perline");
    let mut store = EncryptedStore::create(&path, "pw").expect("create");
    add_account_to_db(
        &AccountObj {
            account_name: "taken".to_string(),
            user_name: "u".to_string(),
            password: "p".to_string(),
        },
        &mut store,
    )
    .expect("seed");
    let input = lines(&[
        "login,a,b",
        "login,taken,u,p",
        "login,master,u,p",
        "login,,u,p",
        "api,ok,u,d,k",
        "",
    ]);
    let summary = add_secrets_from_batch(&input, None, &mut store).expect("import");
    assert_eq!(summary.successes, vec!["ok".to_string()]);
    let kinds: Vec<(usize, &CMError)> =
        summary.failures.iter().map(|f| (f.line, &f.error)).collect();
    assert_eq!(kinds.len(), 4);
    assert_eq!(summary.failures[0].line, 1);
    assert!(matches!(summary.failures[0].error, CMError::FieldCountMismatch));
    assert_eq!(summary.failures[1].line, 2);
    assert!(matches!(summary.failures[1].error, CMError::DuplicateName));
    assert_eq!(summary.failures[2].line, 3);
    assert!(matches!(summary.failures[2].error, CMError::ReservedName));
    assert_eq!(summary.failures[3].line, 4);
    assert!(matches!(summary.failures[3].error, CMError::EmptyName));
}

#[test]
fn batch_of_only_malformed_and_blank_lines_succeeds() {
    let path = fresh_path("trivial");
    let mut store = EncryptedStore::create(&path, "pw").expect("create");
    let input = lines(&["", "   ", ",,,", "bogus,x", "login,a", "api,a,b,c"]);
    let summary = add_secrets_from_batch(&input, None, &mut store).expect("import");
    assert!(summary.successes.is_empty());
    assert_eq!(summary.failures.len(), 3);
    assert_eq!(summary.failures[0].line, 4);
    assert!(matches!(summary.failures[0].error, CMError::UnrecognizedKind));
    assert_eq!(summary.failures[1].line, 5);
    assert!(matches!(summary.failures[1].error, CMError::FieldCountMismatch));
    assert_eq!(summary.failures[2].line, 6);
    assert!(matches!(summary.failures[2].error, CMError::FieldCountMismatch));
}

#[test]
fn batch_duplicate_within_run_is_caught() {
    let path = fresh_path("within");
    let mut store = EncryptedStore::create(&path, "pw").expect("create");
    let input = lines(&["api,svc,u,d,k1", "api,svc,u,d,k2"]);
    let summary = add_secrets_from_batch(&input, None, &mut store).expect("import");
    assert_eq!(summary.successes, vec!["svc".to_string()]);
    assert_eq!(summary.failures.len(), 1);
    assert_eq!(summary.failures[0].line, 2);
    assert!(matches!(summary.failures[0].error, CMError::DuplicateName));
    match get_apikey_from_db("svc", &store).expect("get") {
        Secret::API(a) => assert_eq!(a.api_key, "k1"),
        _ => panic!("wrong kind"),
    }
}

#[test]
fn batch_fields_are_not_trimmed_individually() {
    let path = fresh_path("inner_ws");
    let mut store = EncryptedStore::create(&path, "pw").expect("create");
    let input = lines(&["login,spacey, user ,pass"]);
    let summary = add_secrets_from_batch(&input, None, &mut store).expect("import");
    assert_eq!(summary.successes, vec!["spacey".to_string()]);
    match get_account_from_db("spacey", &store).expect("get") {
        Secret::Account(a) => assert_eq!(a.user_name, " user "),
        _ => panic!("wrong kind"),
    }
}
