use hmac::Mac;

use littleci::config::{AuthenticationType, GitTrigger, Trigger};
use littleci::git::GitReference;
use littleci::identity::{
    random_alphanumeric, random_url_safe, HashedPassword, HashedValue, ALPHA_NUMERIC, URL_SAFE,
};
use littleci::repository::Repository;
use littleci::text::{kebab_case, text_eq};
use littleci::user::{
    authenticate_user, authorize, bearer_token, Authorization, UpdateUserPassword, User, UserError,
    UserPayload, UserResponse,
};
use littleci::webhook::{
    check_gitea_secret, check_github_signature, check_secret_key, github_push, secret_key_is_valid,
    GitHubPayload, GiteaPayload, PushDecision, Rejection, SecretKeyError, BODY_LIMIT,
};

fn repo_with_secret(secret: &str, triggers: Vec<Trigger>) -> Repository {
    Repository {
        id: "r1".to_string(),
        slug: "demo".to_string(),
        name: "demo".to_string(),
        run: "echo hi".to_string(),
        working_dir: None,
        secret: secret.to_string(),
        variables: Vec::new(),
        triggers,
        webhooks: Vec::new(),
        deleted: false,
        created_at: 0,
        updated_at: 0,
    }
}

fn user(password: &str) -> User {
    User {
        id: "u".to_string(),
        username: "admin".to_string(),
        password: password.to_string(),
        created_at: 0,
        updated_at: 0,
    }
}

const BODY: &str = r#"{"ref":"refs/heads/dev","before":"a","after":"b"}"#;

#[test]
fn kebab_case_examples() {
    assert_eq!(kebab_case("Hello World!"), "hello-world");
    assert_eq!(kebab_case("  My--Repo 2 "), "my-repo-2");
    assert_eq!(kebab_case(""), "");
    assert_eq!(kebab_case("!!!"), "");
    assert_eq!(kebab_case("Café Ünïcode"), "caf-n-code");
    assert_eq!(kebab_case("ABC"), "abc");
}

#[test]
fn kebab_case_is_idempotent() {
    for s in ["Hello World!", "  My--Repo 2 ", "a_b.c", "Café Ünïcode", ""] {
        let once = kebab_case(s);
        assert_eq!(kebab_case(&once), once);
    }
}

#[test]
fn text_equality() {
    assert!(text_eq("abc", "abc"));
    assert!(!text_eq("abc", "abd"));
}

#[test]
fn hashed_value_is_lower_hex_sha3() {
    assert_eq!(
        HashedValue::new("").into_string(),
        "a7ffc6f8bf1ed76651c14756a061d662f580ff4de43b49fa82d80a4b80f8434a"
    );
    assert_eq!(
        HashedValue::new("abc").into_string(),
        "3a985da74fe225b2045c172d6bd390bd855f086e3e9d525b46bfe24511431532"
    );
    assert_eq!(
        HashedValue::new("demo-secret").0,
        "e41651b2142cbb6681755709b91fbbb3e46c02c3539e9bb06af8b8d051f70bcc"
    );
}

#[test]
fn password_round_trip() {
    let hashed = HashedPassword::new("password", "somesaltvalue123").unwrap().into_string();
    assert!(hashed.starts_with("$argon2id$v=19$m=4096,t=3,p=1$"));
    assert!(HashedPassword::verify("password", &hashed));
    assert!(!HashedPassword::verify("passwore", &hashed));
    assert!(!HashedPassword::verify("password!", &hashed));
    assert!(!HashedPassword::verify("password", "not an encoding"));
}

#[test]
fn password_needs_a_long_enough_salt() {
    assert!(HashedPassword::new("password", "short").is_none());
}

#[test]
fn random_identifiers() {
    let id = random_alphanumeric(24);
    assert_eq!(id.chars().count(), 24);
    assert!(id.chars().all(|c| ALPHA_NUMERIC.contains(c)));
    let salt = random_url_safe(16);
    assert_eq!(salt.chars().count(), 16);
    assert!(salt.chars().all(|c| URL_SAFE.contains(c)));
    assert_ne!(random_alphanumeric(24), random_alphanumeric(24));
}

#[test]
fn shared_secret_accepted() {
    let r = repo_with_secret("S", vec![]);
    assert!(check_secret_key(Some(&r), Some("S"), None).is_ok());
    assert!(check_secret_key(Some(&r), None, Some("S")).is_ok());
    assert!(secret_key_is_valid("S", &r));
}

#[test]
fn bad_secret_is_rejected() {
    let r = repo_with_secret("S", vec![]);
    let e = check_secret_key(Some(&r), Some("WRONG"), None).unwrap_err();
    assert_eq!(e, Rejection { status: 400, error: SecretKeyError::Invalid });
    assert_eq!(e.error.message(), "Signature is invalid");
    let e = check_secret_key(Some(&r), Some("WRONG"), Some("S")).unwrap_err();
    assert_eq!(e.error, SecretKeyError::Invalid);
}

#[test]
fn missing_secret_and_unknown_repository() {
    let r = repo_with_secret("S", vec![]);
    assert_eq!(
        check_secret_key(Some(&r), None, None).unwrap_err(),
        Rejection { status: 400, error: SecretKeyError::Missing }
    );
    assert_eq!(
        check_secret_key(None, Some("S"), None).unwrap_err(),
        Rejection { status: 404, error: SecretKeyError::Invalid }
    );
    assert_eq!(SecretKeyError::Missing.message(), "Signature was not found");
    assert_eq!(SecretKeyError::BadData.message(), "Invalid payload");
    assert_eq!(SecretKeyError::Unknown.message(), "Unhandled error");
}

#[test]
fn gitea_secret_header() {
    let r = repo_with_secret("S", vec![]);
    assert!(check_gitea_secret(&r, Some("S")).is_ok());
    assert_eq!(check_gitea_secret(&r, Some("T")).unwrap_err().error, SecretKeyError::Invalid);
    assert_eq!(check_gitea_secret(&r, None).unwrap_err().error, SecretKeyError::Missing);
}

#[test]
fn github_signature_valid() {
    let header = "sha1=892c99e8a8382bffc09abf3c8d1a522c211c2d5c";
    assert!(check_github_signature("S3CRET", Some(header), BODY.as_bytes()).is_ok());
    let upper = "sha1=892C99E8A8382BFFC09ABF3C8D1A522C211C2D5C";
    assert!(check_github_signature("S3CRET", Some(upper), BODY.as_bytes()).is_ok());
    let mut mac = hmac::Hmac::<sha1::Sha1>::new_from_slice(b"other").unwrap();
    mac.update(b"payload");
    let computed = format!("sha1={}", hex::encode(mac.finalize().into_bytes()));
    assert!(check_github_signature("other", Some(&computed), b"payload").is_ok());
}

#[test]
fn github_signature_rejections() {
    let header = "sha1=892c99e8a8382bffc09abf3c8d1a522c211c2d5c";
    let invalid = Rejection { status: 400, error: SecretKeyError::Invalid };
    assert_eq!(check_github_signature("WRONG", Some(header), BODY.as_bytes()), Err(invalid));
    assert_eq!(check_github_signature("S3CRET", Some(header), b"tampered"), Err(invalid));
    assert_eq!(
        check_github_signature("S3CRET", Some("sha256=892c99e8a8382bffc09abf3c8d1a522c211c2d5c"), BODY.as_bytes()),
        Err(invalid)
    );
    assert_eq!(check_github_signature("S3CRET", Some("sha1=abc"), BODY.as_bytes()), Err(invalid));
    assert_eq!(check_github_signature("S3CRET", Some("sha1=zz"), BODY.as_bytes()), Err(invalid));
    assert_eq!(check_github_signature("S3CRET", Some("sha"), BODY.as_bytes()), Err(invalid));
    assert_eq!(
        check_github_signature("S3CRET", None, BODY.as_bytes()),
        Err(Rejection { status: 400, error: SecretKeyError::Missing })
    );
    let big = vec![b'x'; BODY_LIMIT + 1];
    assert_eq!(
        check_github_signature("S3CRET", Some(header), &big),
        Err(Rejection { status: 400, error: SecretKeyError::BadData })
    );
}

#[test]
fn github_push_decisions() {
    let payload = || GitHubPayload {
        reference: GitReference::parse("refs/heads/master").unwrap(),
        before: "a".to_string(),
        after: "b".to_string(),
    };
    let master_only = repo_with_secret("S", vec![Trigger::Git(GitTrigger::Head(vec!["master".to_string()]))]);
    match github_push("demo", Some(&master_only), payload()) {
        PushDecision::Enqueue(data) => {
            let entries = data.inner();
            assert_eq!(entries.len(), 3);
            assert!(entries.contains(&("LITTLECI_GIT_BEFORE".to_string(), "a".to_string())));
            assert!(entries.contains(&("LITTLECI_GIT_AFTER".to_string(), "b".to_string())));
            assert!(entries.contains(&("LITTLECI_GIT_BRANCH".to_string(), "master".to_string())));
        }
        other => panic!("unexpected {:?}", other),
    }
    let tags_only = repo_with_secret("S", vec![Trigger::Git(GitTrigger::Tag)]);
    match github_push("demo", Some(&tags_only), payload()) {
        PushDecision::Skipped(m) => assert_eq!(m, "Trigger rules not matched. No job queued"),
        other => panic!("unexpected {:?}", other),
    }
    match github_push("nope", None, payload()) {
        PushDecision::NotFound(m) => assert_eq!(m, "Repository `nope` not found"),
        other => panic!("unexpected {:?}", other),
    }
}

#[test]
fn tag_push_data() {
    let payload = GiteaPayload {
        reference: GitReference::Tag("v2".to_string()),
        before: "1".to_string(),
        after: "2".to_string(),
    };
    let data = payload.into_data();
    assert_eq!(data.inner()[2], ("LITTLECI_GIT_TAG".to_string(), "v2".to_string()));
}

#[test]
fn bearer_headers() {
    assert_eq!(bearer_token("Bearer abc.def"), Some("abc.def".to_string()));
    assert_eq!(bearer_token("Bearer "), Some(String::new()));
    assert_eq!(bearer_token("Bearer a b"), None);
    assert_eq!(bearer_token("bearer abc"), None);
    assert_eq!(bearer_token("Bearer"), None);
    assert_eq!(bearer_token("Token abc"), None);
    assert!(matches!(authorize(AuthenticationType::NoAuthentication, None), Authorization::Open));
    assert!(matches!(authorize(AuthenticationType::Simple, None), Authorization::Denied));
    assert!(matches!(authorize(AuthenticationType::Simple, Some("Basic x")), Authorization::Denied));
    match authorize(AuthenticationType::Simple, Some("Bearer tok")) {
        Authorization::Token(t) => assert_eq!(t, "tok"),
        other => panic!("unexpected {:?}", other),
    }
}

#[test]
fn login_decisions() {
    let stored = HashedPassword::new("hunter22", "saltsaltsalt").unwrap().into_string();
    let u = user(&stored);
    let ok = authenticate_user(AuthenticationType::Simple, Some(&u), "admin", "hunter22").unwrap();
    assert_eq!(ok.username, "admin");
    assert!(ok.exp >= 60000);
    assert_eq!(
        authenticate_user(AuthenticationType::Simple, Some(&u), "admin", "hunter23").unwrap_err(),
        UserError::PasswordMismatch
    );
    assert_eq!(
        authenticate_user(AuthenticationType::Simple, None, "admin", "x").unwrap_err(),
        UserError::UserNotFound
    );
    assert_eq!(
        authenticate_user(AuthenticationType::NoAuthentication, Some(&u), "admin", "hunter22").unwrap_err(),
        UserError::AuthenticationDisabled
    );
    assert_eq!(UserError::PasswordMismatch.message(), "Passwords do not match");
}

#[test]
fn token_claims_expire_after_a_minute() {
    let p = UserPayload::expiring("admin", 1000);
    assert_eq!(p.exp, 61000);
    assert_eq!(p.username, "admin");
    let now = UserPayload::new("admin");
    assert!(now.exp > 1_500_000_000_000);
}

#[test]
fn user_creation_hashes_password() {
    let created = User::for_creation(user("pw-123"), false, "id".to_string(), "saltsaltsalt", 9).unwrap();
    assert_eq!(created.id, "id");
    assert!(HashedPassword::verify("pw-123", &created.password));
    assert_ne!(created.password, "pw-123");
    assert_eq!(
        User::for_creation(user("pw"), true, "id".to_string(), "saltsaltsalt", 9).unwrap_err(),
        UserError::UsernameExists
    );
    assert_eq!(
        User::for_creation(user("pw"), false, "id".to_string(), "tiny", 9).unwrap_err(),
        UserError::HashFailed
    );
    let response = UserResponse::from_user(created);
    assert_eq!(response.username, "admin");
}

#[test]
fn password_updates() {
    assert!(UpdateUserPassword::from_input(String::new()).password.is_none());
    assert_eq!(UpdateUserPassword::from_input("new".to_string()).hashed("saltsaltsalt").is_ok(), true);
    assert_eq!(
        UpdateUserPassword::from_input(String::new()).hashed("saltsaltsalt").unwrap_err(),
        UserError::PasswordNotSet
    );
    let e = UpdateUserPassword::from_input("new".to_string()).hashed("saltsaltsalt").unwrap();
    assert!(HashedPassword::verify("new", &e));
}
