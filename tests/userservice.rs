use userservice::repository::{StorageError, UserRepository};
use userservice::service::{
    envelope, status_reply, AltResult, CreateError, CreateUserAltResponse, CreateUserRequest,
    CreateUserResponse, ErrorDetail, StatusCode, StatusReply, UserServiceImpl, UserStatus,
};
use userservice::user::{is_valid_email, is_valid_username, User, UserError};

const RULE: &str = "Username must be between 3 and 30 characters and contain only alphanumeric characters and underscores";

fn request(email: &str, username: &str) -> CreateUserRequest {
    CreateUserRequest { email: email.to_string(), username: username.to_string() }
}

fn service() -> UserServiceImpl {
    UserServiceImpl::new(UserRepository::new())
}

fn expect_bad_request(r: &Result<CreateUserResponse, StatusReply>, code: StatusCode, message: &str, field: &str, description: &str) {
    match r {
        Err(s) => {
            assert_eq!(s.code, code);
            assert_eq!(s.message, message);
            match &s.detail {
                ErrorDetail::BadRequest { field: f, description: d } => {
                    assert_eq!(f, field);
                    assert_eq!(d, description);
                }
                _ => panic!("expected a bad-request detail"),
            }
        }
        Ok(_) => panic!("expected a failure status"),
    }
}

fn expect_error(r: &CreateUserAltResponse, code: &str, message: &str) {
    match &r.result {
        AltResult::Error(d) => {
            assert_eq!(d.code, code);
            assert_eq!(d.message, message);
        }
        AltResult::Success(_) => panic!("expected an error envelope"),
    }
}

#[test]
fn username_accepts_letters_digits_underscores() {
    assert!(is_valid_username("alice_1"));
    assert!(is_valid_username("abc"));
    assert!(is_valid_username("Z__"));
    assert!(is_valid_username(&"a".repeat(30)));
}

#[test]
fn username_rejects_wrong_length() {
    assert!(!is_valid_username(""));
    assert!(!is_valid_username("ab"));
    assert!(!is_valid_username(&"a".repeat(31)));
}

#[test]
fn username_rejects_bad_first_or_other_characters() {
    assert!(!is_valid_username("1abc"));
    assert!(!is_valid_username("_abc"));
    assert!(!is_valid_username("ab-c"));
    assert!(!is_valid_username("abc d"));
    assert!(!is_valid_username("abcé"));
    assert!(!is_valid_username("éabc"));
}

#[test]
fn email_validation_follows_the_parser() {
    assert!(is_valid_email("a@b.com"));
    assert!(!is_valid_email("not-an-email"));
    assert!(!is_valid_email(""));
}

#[test]
fn user_new_checks_email_before_username() {
    match User::new("bad".to_string(), "1x".to_string()) {
        Err(UserError::InvalidEmail(e)) => assert_eq!(e, "bad"),
        _ => panic!("expected an invalid email"),
    }
    match User::new("a@b.com".to_string(), "1x".to_string()) {
        Err(UserError::InvalidUsername(m)) => assert_eq!(m, RULE),
        _ => panic!("expected an invalid username"),
    }
    let u = User::new("a@b.com".to_string(), "alice_1".to_string()).ok().unwrap();
    assert_eq!(u.email(), "a@b.com");
    assert_eq!(u.username(), "alice_1");
}

#[test]
fn user_error_messages() {
    assert_eq!(UserError::InvalidEmail("x".to_string()).message(), "Invalid email format: x");
    assert_eq!(UserError::InvalidUsername(RULE.to_string()).message(), format!("Invalid username: {}", RULE));
}

#[test]
fn id_text_is_hyphenated_lower_hex() {
    let u = User::with_id("a@b.com".to_string(), "alice_1".to_string(), 0xa1a2a3a4b1b2c1c2d1d2d3d4d5d6d7d8)
        .ok()
        .unwrap();
    assert_eq!(u.id(), 0xa1a2a3a4b1b2c1c2d1d2d3d4d5d6d7d8);
    assert_eq!(u.id_string(), "a1a2a3a4-b1b2-c1c2-d1d2-d3d4d5d6d7d8");
}

#[test]
fn first_call_succeeds_status_convention() {
    let mut s = service();
    let r = s.create_user(request("a@b.com", "alice_1"));
    let resp = r.ok().unwrap();
    assert_eq!(resp.user_id.len(), 36);
    assert_eq!(resp.status, UserStatus::Pending);
    assert_eq!(s.user_count(), 1);
}

#[test]
fn first_call_succeeds_envelope_convention() {
    let mut s = service();
    let r = s.create_user_alt(request("a@b.com", "alice_1"));
    match r.result {
        AltResult::Success(d) => {
            assert_eq!(d.user_id.len(), 36);
            assert_eq!(d.status, UserStatus::Pending);
        }
        AltResult::Error(_) => panic!("expected success"),
    }
    assert_eq!(s.user_count(), 1);
}

#[test]
fn repeat_is_duplicate_status_convention() {
    let mut s = service();
    assert!(s.create_user(request("a@b.com", "alice_1")).is_ok());
    let r = s.create_user(request("a@b.com", "alice_1"));
    expect_bad_request(&r, StatusCode::AlreadyExists, "Resource already exists", "user", "User with this email or username already exists");
    assert_eq!(s.user_count(), 1);
}

#[test]
fn repeat_is_duplicate_envelope_convention() {
    let mut s = service();
    let first = s.create_user_alt(request("a@b.com", "alice_1"));
    assert!(matches!(first.result, AltResult::Success(_)));
    let r = s.create_user_alt(request("a@b.com", "alice_1"));
    expect_error(&r, "ALREADY_EXISTS", "User with this email or username already exists");
    assert_eq!(s.user_count(), 1);
}

#[test]
fn repeat_across_operations_is_duplicate() {
    let mut s = service();
    assert!(s.create_user(request("a@b.com", "alice_1")).is_ok());
    let r = s.create_user_alt(request("a@b.com", "alice_1"));
    expect_error(&r, "ALREADY_EXISTS", "User with this email or username already exists");
}

#[test]
fn shared_email_or_username_is_duplicate() {
    let mut s = service();
    assert!(s.create_user(request("a@b.com", "alice_1")).is_ok());
    let by_email = s.create_user(request("a@b.com", "bob_22"));
    expect_bad_request(&by_email, StatusCode::AlreadyExists, "Resource already exists", "user", "User with this email or username already exists");
    let by_name = s.create_user_alt(request("c@d.org", "alice_1"));
    expect_error(&by_name, "ALREADY_EXISTS", "User with this email or username already exists");
    assert_eq!(s.user_count(), 1);
}

#[test]
fn invalid_email_status_convention() {
    let mut s = service();
    let r = s.create_user(request("not-an-email", "alice_1"));
    expect_bad_request(&r, StatusCode::InvalidArgument, "Validation error", "email", "not-an-email");
    assert_eq!(s.user_count(), 0);
}

#[test]
fn invalid_email_envelope_convention() {
    let mut s = service();
    let r = s.create_user_alt(request("not-an-email", "alice_1"));
    expect_error(&r, "VALIDATION_ERROR", "Invalid email format: not-an-email");
    assert_eq!(s.user_count(), 0);
}

#[test]
fn username_starting_with_digit_is_invalid() {
    let mut s = service();
    let a = s.create_user(request("a@b.com", "1abc"));
    expect_bad_request(&a, StatusCode::InvalidArgument, "Validation error", "username", RULE);
    let b = s.create_user_alt(request("a@b.com", "1abc"));
    expect_error(&b, "VALIDATION_ERROR", &format!("Invalid username: {}", RULE));
    assert_eq!(s.user_count(), 0);
}

#[test]
fn short_username_is_invalid() {
    let mut s = service();
    let a = s.create_user(request("a@b.com", "ab"));
    expect_bad_request(&a, StatusCode::InvalidArgument, "Validation error", "username", RULE);
    let b = s.create_user_alt(request("a@b.com", "ab"));
    expect_error(&b, "VALIDATION_ERROR", &format!("Invalid username: {}", RULE));
}

#[test]
fn many_attempts_with_one_username_succeed_once() {
    let mut s = service();
    let mut created = 0;
    let mut duplicates = 0;
    for i in 0..20 {
        let email = format!("user{}@example.com", i);
        match s.create_user(request(&email, "shared_name")) {
            Ok(_) => created += 1,
            Err(st) => {
                assert_eq!(st.code, StatusCode::AlreadyExists);
                duplicates += 1;
            }
        }
    }
    assert_eq!(created, 1);
    assert_eq!(duplicates, 19);
    assert_eq!(s.user_count(), 1);
}

#[test]
fn created_ids_are_distinct() {
    let mut s = service();
    let mut ids: Vec<String> = Vec::new();
    for i in 0..10 {
        let r = s.create_user(request(&format!("u{}@example.com", i), &format!("user_{}", i)));
        let id = r.ok().unwrap().user_id;
        assert!(!ids.contains(&id));
        ids.push(id);
    }
    assert_eq!(s.user_count(), 10);
}

#[test]
fn repeated_identifier_is_duplicate() {
    let mut s = service();
    let first = User::with_id("a@b.com".to_string(), "alice_1".to_string(), 7);
    assert!(s.register(first).is_ok());
    let second = User::with_id("c@d.org".to_string(), "bob_22".to_string(), 7);
    assert!(matches!(s.register(second), Err(CreateError::Duplicate)));
    let third = User::with_id("c@d.org".to_string(), "bob_22".to_string(), 8);
    assert!(s.register(third).is_ok());
    assert_eq!(s.user_count(), 2);
}

#[test]
fn repository_create_and_lookup() {
    let mut repo = UserRepository::new();
    let u = User::with_id("a@b.com".to_string(), "alice_1".to_string(), 1).ok().unwrap();
    assert!(!repo.user_exists(&u));
    let stored = repo.create(u.clone()).ok().unwrap();
    assert_eq!(stored.id(), 1);
    assert!(repo.user_exists(&u));
    assert_eq!(repo.len(), 1);
}

#[test]
fn storage_failure_status_convention() {
    let r = status_reply(Err(CreateError::Storage(StorageError::new("disk full".to_string()))));
    match r {
        Err(s) => {
            assert_eq!(s.code, StatusCode::Internal);
            assert_eq!(s.message, "could not create user");
            match s.detail {
                ErrorDetail::ErrorInfo { reason, domain, metadata } => {
                    assert_eq!(reason, "could not create user");
                    assert_eq!(domain, "UserService");
                    assert_eq!(metadata, vec![
                        ("error_type".to_string(), "database_error".to_string()),
                        ("error_detail".to_string(), "disk full".to_string()),
                    ]);
                }
                _ => panic!("expected error info"),
            }
        }
        Ok(_) => panic!("expected a failure status"),
    }
}

#[test]
fn storage_failure_envelope_convention() {
    let r = envelope(Err(CreateError::Storage(StorageError::new("disk full".to_string()))));
    expect_error(&r, "CREATION_ERROR", "Failed to create user: disk full");
}

#[test]
fn success_encodings_carry_the_identifier() {
    let u = User::with_id("a@b.com".to_string(), "alice_1".to_string(), 0xa1a2a3a4b1b2c1c2d1d2d3d4d5d6d7d8)
        .ok()
        .unwrap();
    let a = status_reply(Ok(u.clone())).ok().unwrap();
    assert_eq!(a.user_id, "a1a2a3a4-b1b2-c1c2-d1d2-d3d4d5d6d7d8");
    assert_eq!(a.status, UserStatus::Pending);
    match envelope(Ok(u)).result {
        AltResult::Success(d) => assert_eq!(d.user_id, "a1a2a3a4-b1b2-c1c2-d1d2-d3d4d5d6d7d8"),
        AltResult::Error(_) => panic!("expected success"),
    }
}

#[test]
fn both_conventions_classify_alike() {
    let cases = [("a@b.com", "alice_1"), ("not-an-email", "alice_1"), ("a@b.com", "1abc"), ("a@b.com", "ab")];
    let mut a = service();
    let mut b = service();
    for (email, username) in cases.iter().chain(cases.iter()) {
        let ra = a.create_user(request(email, username));
        let rb = b.create_user_alt(request(email, username));
        let ka = match &ra {
            Ok(_) => "ok",
            Err(s) if s.code == StatusCode::InvalidArgument => "VALIDATION_ERROR",
            Err(s) if s.code == StatusCode::AlreadyExists => "ALREADY_EXISTS",
            Err(_) => "CREATION_ERROR",
        };
        let kb = match &rb.result {
            AltResult::Success(_) => "ok",
            AltResult::Error(d) => d.code.as_str(),
        };
        assert_eq!(ka, kb);
    }
}
