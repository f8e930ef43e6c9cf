use zbx_np::api::{
    create_token, create_token_at, create_token_reply, create_user, create_user_at, create_user_reply,
    default_admin_user, delete_reply, delete_token, delete_user, get_next_token_id,
    get_next_user_id, get_tokens, get_users, issue_token, login, logout, remove_hyphens,
    token_preview, CreateTokenOutcome, CreateUserOutcome, DeleteOutcome, HttpStatus,
    NewTokenRequest, NewUserRequest, RecordKind, StoredEntry, StoredList,
};
use zbx_np::auth::{LoginRequest, Token, User};

fn user(id: u64, name: &str, pw: &str) -> User {
    User { id, username: name.to_string(), password: pw.to_string(), created_at: "t".to_string() }
}

fn token(id: u64, name: &str, value: &str) -> Token {
    Token {
        id,
        name: name.to_string(),
        token: value.to_string(),
        created_at: "c".to_string(),
        expires_at: None,
        is_active: true,
    }
}

#[test]
fn next_ids() {
    assert_eq!(get_next_user_id(&vec![]), 1);
    assert_eq!(get_next_user_id(&vec![user(1, "a", "b"), user(7, "c", "d"), user(3, "e", "f")]), 8);
    assert_eq!(get_next_token_id(&vec![token(4, "x", "y")]), 5);
}

#[test]
fn login_checks_name_and_password() {
    let users = vec![user(1, "admin", "admin"), user(2, "bob", "pw")];
    let (status, r) = login(&users, &LoginRequest { username: "bob".to_string(), password: "pw".to_string() });
    assert!(status == HttpStatus::Success && r.success && r.message == "Login successful");
    let (status, r) = login(&users, &LoginRequest { username: "bob".to_string(), password: "admin".to_string() });
    assert!(status == HttpStatus::Unauthorized && !r.success && r.message == "Invalid credentials");
    assert_eq!(logout().1, "Logged out successfully");
}

#[test]
fn user_creation() {
    let users = vec![user(1, "admin", "admin"), user(5, "bob", "pw")];
    let req = |u: Option<&str>, p: Option<&str>| NewUserRequest {
        username: u.map(|s| s.to_string()),
        password: p.map(|s| s.to_string()),
    };
    assert!(matches!(create_user(&req(None, Some("x")), &users), CreateUserOutcome::MissingFields));
    assert!(matches!(create_user(&req(Some("a"), Some("")), &users), CreateUserOutcome::MissingFields));
    assert!(matches!(create_user(&req(Some("bob"), Some("x")), &users), CreateUserOutcome::UsernameTaken));
    match create_user_at(&req(Some("carol"), Some("secret")), &users, "2024-01-01T00:00:00Z".to_string()) {
        CreateUserOutcome::Created(u) => {
            assert_eq!((u.id, u.username.as_str(), u.password.as_str(), u.created_at.as_str()),
                (6, "carol", "secret", "2024-01-01T00:00:00Z"));
        }
        _ => panic!("expected a user"),
    }
    match create_user(&req(Some("dave"), Some("pw")), &users) {
        CreateUserOutcome::Created(u) => {
            assert_eq!(u.id, 6);
            assert!(!u.created_at.is_empty());
        }
        _ => panic!("expected a user"),
    }
    let listed = get_users(&users);
    assert_eq!(listed.len(), 2);
    assert_eq!((listed[1].id, listed[1].username.as_str()), (5, "bob"));
    let admin = default_admin_user();
    assert_eq!((admin.id, admin.username.as_str(), admin.password.as_str()), (1, "admin", "admin"));
}

fn entries(ids: &[Option<u64>]) -> Vec<StoredEntry> {
    ids.iter().map(|id| StoredEntry { id: *id, raw: raw_entry(*id) }).collect()
}

fn raw_entry(id: Option<u64>) -> serde_json::Value {
    let mut m = serde_json::Map::new();
    m.insert("id".to_string(), match id {
        Some(v) => serde_json::Value::from(v),
        None => serde_json::Value::Null,
    });
    serde_json::Value::Object(m)
}

#[test]
fn user_deletion() {
    assert!(matches!(delete_user("x1", StoredList::Missing), DeleteOutcome::InvalidId));
    assert!(matches!(delete_user("1", StoredList::Missing), DeleteOutcome::ProtectedAdmin));
    assert!(matches!(delete_user("+1", StoredList::Missing), DeleteOutcome::ProtectedAdmin));
    assert!(matches!(delete_user("2", StoredList::Unreadable), DeleteOutcome::Unreadable));
    assert!(matches!(delete_user("2", StoredList::Missing), DeleteOutcome::NoList));
    assert!(matches!(delete_user("9", StoredList::Entries(entries(&[Some(1), Some(2)]))), DeleteOutcome::NotFound));
    match delete_user("2", StoredList::Entries(entries(&[Some(1), None, Some(2), Some(3), Some(2)]))) {
        DeleteOutcome::Deleted { id, remaining } => {
            assert_eq!(id, 2);
            let ids: Vec<Option<u64>> = remaining.iter().map(|e| e.id).collect();
            assert_eq!(ids, vec![Some(1), None, Some(3)]);
            assert_eq!(remaining[2].raw, raw_entry(Some(3)));
        }
        _ => panic!("expected deletion"),
    }
}

#[test]
fn token_deletion() {
    match delete_token("1", StoredList::Entries(entries(&[Some(1)]))) {
        DeleteOutcome::Deleted { id, remaining } => assert!(id == 1 && remaining.is_empty()),
        _ => panic!("expected deletion"),
    }
    assert!(matches!(delete_token("-1", StoredList::Missing), DeleteOutcome::InvalidId));
}

#[test]
fn previews() {
    assert_eq!(token_preview("zbx_0123456789abcdef"), "zbx_0123...");
    assert_eq!(token_preview("12345678"), "****");
    assert_eq!(token_preview("ééééé"), "éééé...");
    let list = get_tokens(&vec![token(3, "ci", "zbx_abcdefgh"), token(4, "x", "short")]);
    assert_eq!(list[0].token_preview, "zbx_abcd...");
    assert_eq!(list[1].token_preview, "****");
    assert_eq!((list[0].id, list[0].name.as_str(), list[0].is_active), (3, "ci", true));
}

#[test]
fn token_creation() {
    let tokens = vec![token(2, "ci", "zbx_x")];
    let req = |n: Option<&str>, e: Option<u64>| NewTokenRequest { name: n.map(|s| s.to_string()), expires_in: e };
    assert!(matches!(create_token(&req(None, None), &tokens), CreateTokenOutcome::MissingName));
    assert!(matches!(create_token(&req(Some("ci"), None), &tokens), CreateTokenOutcome::NameTaken));
    assert!(matches!(create_token(&req(Some("new"), Some(200_000_000_000)), &tokens), CreateTokenOutcome::ExpiryOutOfRange));
    assert!(matches!(create_token(&req(Some("new"), Some(100_000_000_000)), &tokens), CreateTokenOutcome::ExpiryOutOfRange));
    match create_token(&req(Some("new"), None), &tokens) {
        CreateTokenOutcome::Created(t) => {
            assert_eq!(t.id, 3);
            assert_eq!(t.name, "new");
            assert!(t.token.starts_with("zbx_"));
            assert_eq!(t.token.len(), 36);
            assert!(t.token[4..].chars().all(|c| c.is_ascii_hexdigit() && !c.is_ascii_uppercase()));
            assert!(t.expires_at.is_some());
            assert!(t.is_active);
        }
        _ => panic!("expected a token"),
    }
    match create_token(&req(Some("forever"), Some(0)), &tokens) {
        CreateTokenOutcome::Created(t) => assert!(t.expires_at.is_none()),
        _ => panic!("expected a token"),
    }
    match create_token(&req(Some("wrapped"), Some(u64::MAX)), &tokens) {
        CreateTokenOutcome::Created(t) => assert!(t.expires_at.is_some()),
        _ => panic!("expected a token"),
    }
}

#[test]
fn token_records() {
    let t = issue_token(7, "n".to_string(), "123e4567-e89b-12d3-a456-426614174000", "c".to_string(), Some("e".to_string()));
    assert_eq!(t.token, "zbx_123e4567e89b12d3a456426614174000");
    assert_eq!(remove_hyphens("-a-b-"), "ab");
}

#[test]
fn ids_run_out_at_the_largest_id() {
    let users = vec![user(u64::MAX, "top", "pw")];
    let req = NewUserRequest { username: Some("new".to_string()), password: Some("pw".to_string()) };
    assert!(matches!(create_user(&req, &users), CreateUserOutcome::IdsExhausted));
    assert!(matches!(create_user_at(&req, &users, "t".to_string()), CreateUserOutcome::IdsExhausted));
    let taken = NewUserRequest { username: Some("top".to_string()), password: Some("pw".to_string()) };
    assert!(matches!(create_user(&taken, &users), CreateUserOutcome::UsernameTaken));
    let tokens = vec![token(u64::MAX, "ci", "zbx_x")];
    let treq = NewTokenRequest { name: Some("other".to_string()), expires_in: None };
    assert!(matches!(create_token(&treq, &tokens), CreateTokenOutcome::IdsExhausted));
}

#[test]
fn deletion_replies() {
    let r = delete_reply(&DeleteOutcome::InvalidId, RecordKind::User);
    assert!(r.0 == HttpStatus::BadRequest && r.1 == "Invalid user ID");
    let r = delete_reply(&DeleteOutcome::InvalidId, RecordKind::Token);
    assert!(r.0 == HttpStatus::BadRequest && r.1 == "Invalid token ID");
    let r = delete_reply(&DeleteOutcome::ProtectedAdmin, RecordKind::User);
    assert!(r.0 == HttpStatus::Forbidden && r.1 == "Cannot delete admin user");
    let r = delete_reply(&DeleteOutcome::Unreadable, RecordKind::Token);
    assert!(r.0 == HttpStatus::InternalServerError && r.1 == "Failed to read configuration");
    let r = delete_reply(&DeleteOutcome::NoList, RecordKind::User);
    assert!(r.0 == HttpStatus::NotFound && r.1 == "No users found");
    let r = delete_reply(&DeleteOutcome::NoList, RecordKind::Token);
    assert!(r.0 == HttpStatus::NotFound && r.1 == "No tokens found");
    let r = delete_reply(&DeleteOutcome::NotFound, RecordKind::User);
    assert!(r.0 == HttpStatus::NotFound && r.1 == "User not found");
    let r = delete_reply(&DeleteOutcome::NotFound, RecordKind::Token);
    assert!(r.0 == HttpStatus::NotFound && r.1 == "Token not found");
    let done = DeleteOutcome::Deleted { id: 42, remaining: vec![] };
    let r = delete_reply(&done, RecordKind::User);
    assert!(r.0 == HttpStatus::Success && r.1 == "User 42 deleted successfully");
    let r = delete_reply(&done, RecordKind::Token);
    assert!(r.0 == HttpStatus::Success && r.1 == "Token 42 revoked successfully");
}

#[test]
fn creation_replies() {
    let r = create_user_reply(&CreateUserOutcome::MissingFields);
    assert!(r.0 == HttpStatus::BadRequest && r.1 == "Username and password are required");
    let r = create_user_reply(&CreateUserOutcome::UsernameTaken);
    assert!(r.0 == HttpStatus::Conflict && r.1 == "Username already exists");
    let r = create_user_reply(&CreateUserOutcome::Created(user(2, "a", "b")));
    assert!(r.0 == HttpStatus::Success && r.1 == "User created successfully");
    let r = create_token_reply(&CreateTokenOutcome::MissingName);
    assert!(r.0 == HttpStatus::BadRequest && r.1 == "Token name is required");
    let r = create_token_reply(&CreateTokenOutcome::NameTaken);
    assert!(r.0 == HttpStatus::Conflict && r.1 == "Token name already exists");
}

#[test]
fn token_expiry_is_days_after_creation() {
    let tokens = vec![token(2, "ci", "zbx_x")];
    let req = |n: &str, e: Option<u64>| NewTokenRequest { name: Some(n.to_string()), expires_in: e };
    let uuid = "123e4567-e89b-12d3-a456-426614174000";
    match create_token_at(&req("new", None), &tokens, uuid, 0, 0, "c".to_string()) {
        CreateTokenOutcome::Created(t) => {
            assert_eq!(t.id, 3);
            assert_eq!(t.token, "zbx_123e4567e89b12d3a456426614174000");
            assert_eq!(t.created_at, "c");
            assert_eq!(t.expires_at.as_deref(), Some("1970-01-31T00:00:00+00:00"));
        }
        _ => panic!("expected a token"),
    }
    match create_token_at(&req("new", Some(2)), &tokens, uuid, 1_700_000_000, 500, "c".to_string()) {
        CreateTokenOutcome::Created(t) => {
            assert_eq!(t.expires_at.as_deref(), Some("2023-11-16T22:13:20.000000500+00:00"));
        }
        _ => panic!("expected a token"),
    }
    match create_token_at(&req("new", Some(0)), &tokens, uuid, 0, 0, "c".to_string()) {
        CreateTokenOutcome::Created(t) => assert!(t.expires_at.is_none()),
        _ => panic!("expected a token"),
    }
    assert!(matches!(create_token_at(&req("new", Some(200_000_000_000)), &tokens, uuid, 0, 0, "c".to_string()),
        CreateTokenOutcome::ExpiryOutOfRange));
    assert!(matches!(create_token_at(&req("new", Some(1)), &tokens, uuid, i64::MAX - 10, 0, "c".to_string()),
        CreateTokenOutcome::ExpiryOutOfRange));
    assert!(matches!(create_token_at(&req("ci", Some(1)), &tokens, uuid, 0, 0, "c".to_string()),
        CreateTokenOutcome::NameTaken));
    match create_token(&req("now", Some(1)), &tokens) {
        CreateTokenOutcome::Created(t) => {
            let created = t.created_at.clone();
            let expires = t.expires_at.clone().unwrap();
            assert!(created.ends_with("+00:00") && expires.ends_with("+00:00"));
            assert_ne!(created, expires);
        }
        _ => panic!("expected a token"),
    }
}

#[test]
fn storage_failures_are_server_errors() {
    use_store_failures();
}

fn use_store_failures() {
    let cases = [
        (zbx_np::api::StoreFailure::ReadSettings, "Failed to read configuration file"),
        (zbx_np::api::StoreFailure::ReadForUpdate, "Failed to read existing configuration"),
        (zbx_np::api::StoreFailure::WriteSettings, "Failed to write configuration file"),
        (zbx_np::api::StoreFailure::ReadRecords, "Failed to read configuration"),
        (zbx_np::api::StoreFailure::SaveUser, "Failed to save user"),
        (zbx_np::api::StoreFailure::SaveToken, "Failed to save token"),
        (zbx_np::api::StoreFailure::SaveRecords, "Failed to save configuration"),
    ];
    for (f, text) in cases {
        let r = zbx_np::api::store_failure_reply(f);
        assert!(r.0 == HttpStatus::InternalServerError && r.1 == text);
    }
}
