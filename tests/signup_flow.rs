use auth_service::signup::{register_user, signup_in_turn, validate_request};
use auth_service::{signup, AuthAPIError, HashmapUserStore, SignupRequest, SignupResponse, UserStore};
use auth_service::{Email, Password};

fn request(email: &str, password: &str, requires_2fa: bool) -> SignupRequest {
    SignupRequest { email: email.to_string(), password: password.to_string(), requires_2fa }
}

fn is_stored(store: &HashmapUserStore, raw: &str) -> bool {
    store.get_user(&Email::parse(raw.to_string()).unwrap()).is_ok()
}

#[test]
fn should_return_201_if_valid_input() {
    let expected_response = SignupResponse { message: "User created successfully!".to_owned() };
    let mut store = HashmapUserStore::default();
    let response = signup(&mut store, request("random@example.com", "password123", true));
    assert_eq!(response, Ok(expected_response));
    let user = store.get_user(&Email::parse("random@example.com".to_string()).unwrap()).unwrap();
    assert_eq!(user.password(), &Password::parse("password123".to_string()).unwrap());
    assert!(user.requires_2fa());
}

#[test]
fn should_return_400_if_invalid_input() {
    let mut store = HashmapUserStore::default();
    let test_cases = [
        request("invalid_email", "password123", true),
        request("valid@test.com", "short", true),
        request("invalid_email", "short", true),
    ];
    for test_case in test_cases {
        let shown = format!("{:?}", test_case);
        assert_eq!(signup(&mut store, test_case), Err(AuthAPIError::InvalidCredentials), "Failed for input: {}", shown);
    }
    assert!(!is_stored(&store, "valid@test.com"));
}

#[test]
fn should_return_409_if_email_already_exists() {
    let mut store = HashmapUserStore::default();
    let test_case_1 = request("valid@test.com", "password123", true);
    let test_case_2 = request("valid@test.com", "password123", true);
    assert!(signup(&mut store, test_case_1).is_ok());
    assert_eq!(signup(&mut store, test_case_2), Err(AuthAPIError::UserAlreadyExists));
}

#[test]
fn repeated_identical_signup_is_refused() {
    let mut store = HashmapUserStore::new();
    let first = signup(&mut store, request("new@example.com", "password123", true));
    assert_eq!(first.unwrap().message, "User created successfully!");
    let second = signup(&mut store, request("new@example.com", "password123", true));
    assert_eq!(second, Err(AuthAPIError::UserAlreadyExists));
}

#[test]
fn bad_email_leaves_store_untouched() {
    let mut store = HashmapUserStore::new();
    assert_eq!(signup(&mut store, request("bad-email", "password123", false)), Err(AuthAPIError::InvalidCredentials));
    // the store is still empty: the same password under a valid email signs up
    assert!(signup(&mut store, request("good@example.com", "password123", false)).is_ok());
}

#[test]
fn short_password_leaves_store_untouched() {
    let mut store = HashmapUserStore::new();
    assert_eq!(signup(&mut store, request("a@b.com", "short", false)), Err(AuthAPIError::InvalidCredentials));
    assert!(!is_stored(&store, "a@b.com"));
    assert!(signup(&mut store, request("a@b.com", "longenough", false)).is_ok());
}

#[test]
fn many_signups_for_one_email_create_exactly_one() {
    let mut store = HashmapUserStore::new();
    let mut created = 0;
    let mut refused = 0;
    for i in 0..10 {
        let password = format!("password{}", i);
        match signup(&mut store, request("same@example.com", &password, i % 2 == 0)) {
            Ok(_) => created += 1,
            Err(AuthAPIError::UserAlreadyExists) => refused += 1,
            Err(other) => panic!("unexpected outcome {:?}", other),
        }
    }
    assert_eq!((created, refused), (1, 9));
    let user = store.get_user(&Email::parse("same@example.com".to_string()).unwrap()).unwrap();
    assert_eq!(user.password(), &Password::parse("password0".to_string()).unwrap());
    assert!(user.requires_2fa());
}

#[test]
fn validation_builds_the_described_user() {
    let user = validate_request(request("a@b.com", "  password123 ", true)).unwrap();
    assert_eq!(user.email().as_str(), "a@b.com");
    assert_eq!(user.password().as_str(), "  password123 ");
    assert!(user.requires_2fa());
    assert!(matches!(validate_request(request("ab.com", "password123", true)), Err(AuthAPIError::InvalidCredentials)));
    assert!(matches!(validate_request(request("a@b.com", "éééé", true)), Err(AuthAPIError::InvalidCredentials)));
}

#[test]
fn register_refuses_a_taken_email() {
    let mut store = HashmapUserStore::new();
    let first = validate_request(request("x@y.z", "password123", false)).unwrap();
    let second = validate_request(request("x@y.z", "otherpassword", true)).unwrap();
    assert!(register_user(&mut store, first).is_ok());
    assert_eq!(register_user(&mut store, second), Err(AuthAPIError::UserAlreadyExists));
    let kept = store.get_user(&Email::parse("x@y.z".to_string()).unwrap()).unwrap();
    assert_eq!(kept.password(), &Password::parse("password123".to_string()).unwrap());
}

#[test]
fn signups_in_turn_create_the_first_only() {
    let mut store = HashmapUserStore::new();
    let requests = vec![
        request("one@example.com", "password1", false),
        request("one@example.com", "password2", true),
        request("bad-email", "password3", false),
        request("one@example.com", "short", false),
        request("two@example.com", "password4", true),
        request("one@example.com", "password5", true),
    ];
    let outcomes = signup_in_turn(&mut store, &requests);
    assert_eq!(
        outcomes,
        vec![
            Ok(()),
            Err(AuthAPIError::UserAlreadyExists),
            Err(AuthAPIError::InvalidCredentials),
            Err(AuthAPIError::InvalidCredentials),
            Ok(()),
            Err(AuthAPIError::UserAlreadyExists),
        ]
    );
    let one = store.get_user(&Email::parse("one@example.com".to_string()).unwrap()).unwrap();
    assert_eq!(one.password(), &Password::parse("password1".to_string()).unwrap());
    assert!(is_stored(&store, "two@example.com"));
    assert!(signup_in_turn(&mut store, &Vec::new()).is_empty());
}
