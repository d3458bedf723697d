use authflow::services::mail::{compose_mail, MailConfig};
use authflow::models::user_model::{LogIn, Model as User, ResetsPassword, UserForm};
use authflow::models::verify_model::Model as Token;
use authflow::services::secrets::{hash_secret, verify_secret, TOKEN_ALPHABET};
use authflow::models::user_model::NewUser;
use authflow::validators::{validate_registration, FieldViolation};
use authflow::services::user_service::{
    activate_email, add_user, chang_twofa, email_2fa, CodeCheckAction, CodeCheckEvent, CodeCheckState, check_password_reset, check_registration, expired_token_ids,
    find_or_create_github_user, get_all_user, have_token, is_verify, code_accepted, log_in_user,
    require_token, require_user, resets_user_password, send_token, with_password, GithubAccount,
    RegistrationAction, RegistrationEvent, RegistrationState, ResetAction, ResetEvent, ResetState,
    TokenAction, TokenEvent, TokenState, UserError, TOKEN_LIFETIME_MICROS,
};

fn registered(f: &UserForm) -> NewUser {
    let (s, a) = add_user(f, RegistrationState::Start, RegistrationEvent::Begin);
    assert_eq!(s, RegistrationState::AwaitCaptcha);
    assert_eq!(a, RegistrationAction::VerifyCaptcha(f.g_recaptcha_response.clone()));
    match add_user(f, s, RegistrationEvent::CaptchaChecked(true)) {
        (RegistrationState::AwaitInsert, RegistrationAction::InsertUser(n)) => n,
        other => panic!("unexpected step {:?}", other),
    }
}

fn form(email: &str, p1: &str, p2: &str) -> UserForm {
    UserForm {
        email: email.to_string(),
        password: p1.to_string(),
        password2: p2.to_string(),
        g_recaptcha_response: "captcha".to_string(),
    }
}

fn user(id: i32, password_hash: Option<String>) -> User {
    User {
        id,
        email: Some(format!("u{}@example.com", id)),
        password: password_hash,
        is_active: false,
        oauth_provider: None,
        oauth_id: None,
        twofa_enabled: false,
    }
}

#[test]
fn registration_checks_in_order() {
    assert!(matches!(check_registration(&form("x", "short", "other")), Err(UserError::ValidationError(v)) if v.len() == 2));
    assert!(matches!(check_registration(&form("a@b.org", "password1", "password2")), Err(UserError::PasswordsDoNotMatch)));
    assert!(check_registration(&form("a@b.org", "password1", "password1")).is_ok());
}

#[test]
fn reset_checks_in_order() {
    let mk = |p1: &str, p2: &str| ResetsPassword {
        token: "tok".to_string(),
        password: p1.to_string(),
        password2: p2.to_string(),
        g_recaptcha_response: String::new(),
    };
    assert!(matches!(check_password_reset(&mk("short", "short")), Err(UserError::ValidationError(v)) if v.len() == 1));
    assert!(matches!(check_password_reset(&mk("longpassword", "longpassworD")), Err(UserError::PasswordsDoNotMatch)));
    assert!(check_password_reset(&mk("longpassword", "longpassword")).is_ok());
}

#[test]
fn registration_inserts_inactive_account_with_hash() {
    let f = form("new@example.com", "s3cretpass", "s3cretpass");
    let n = registered(&f);
    assert_eq!(n.email.as_deref(), Some("new@example.com"));
    let h = n.password.clone().unwrap();
    assert_ne!(h, "s3cretpass");
    assert!(verify_secret("s3cretpass", &h));
    assert!(!n.is_active);
    assert!(n.oauth_provider.is_none() && n.oauth_id.is_none());
}

#[test]
fn registration_flow_to_the_end() {
    let f = form("new@example.com", "s3cretpass", "s3cretpass");
    let (s, a) = add_user(&f, RegistrationState::AwaitInsert, RegistrationEvent::Inserted(Ok(())));
    assert_eq!(s, RegistrationState::AwaitCode);
    assert_eq!(a, RegistrationAction::SendCode("new@example.com".to_string(), "Activate Email".to_string()));
    let (s, a) = add_user(&f, s, RegistrationEvent::CodeSent(Ok(())));
    assert_eq!(s, RegistrationState::Done);
    assert_eq!(a, RegistrationAction::Finish(Ok(())));
}

#[test]
fn registration_refusals_end_the_flow() {
    let bad = form("x", "short", "other");
    match add_user(&bad, RegistrationState::Start, RegistrationEvent::Begin) {
        (RegistrationState::Done, RegistrationAction::Finish(Err(UserError::ValidationError(v)))) => assert_eq!(v.len(), 2),
        other => panic!("unexpected step {:?}", other),
    }
    let mismatch = form("a@b.org", "password1", "password2");
    assert_eq!(add_user(&mismatch, RegistrationState::Start, RegistrationEvent::Begin),
        (RegistrationState::Done, RegistrationAction::Finish(Err(UserError::PasswordsDoNotMatch))));
    let f = form("a@b.org", "password1", "password1");
    assert_eq!(add_user(&f, RegistrationState::AwaitCaptcha, RegistrationEvent::CaptchaChecked(false)),
        (RegistrationState::Done, RegistrationAction::Finish(Err(UserError::CaptchaError))));
    let e = UserError::DatabaseError("duplicate".to_string());
    assert_eq!(add_user(&f, RegistrationState::AwaitInsert, RegistrationEvent::Inserted(Err(e.clone()))),
        (RegistrationState::Done, RegistrationAction::Finish(Err(e))));
}

#[test]
fn registered_password_signs_in() {
    let f = form("new@example.com", "s3cretpass", "s3cretpass");
    let n = registered(&f);
    let stored = User { id: 5, email: n.email.clone(), password: n.password.clone(), is_active: false,
        oauth_provider: None, oauth_id: None, twofa_enabled: false };
    let ok = log_in_user(Ok(Some(stored.clone())), &LogIn { email: f.email.clone(), password: "s3cretpass".to_string() });
    assert_eq!(ok.unwrap(), stored);
    let bad = log_in_user(Ok(Some(stored)), &LogIn { email: f.email, password: "wrong-pass".to_string() });
    assert!(matches!(bad, Err(UserError::UserLogInError)));
}

#[test]
fn sign_in_without_account_or_with_failed_lookup() {
    let li = LogIn { email: "x@y.z".to_string(), password: "p".to_string() };
    assert!(matches!(log_in_user(Ok(None), &li), Err(UserError::UserLogInError)));
    let r = log_in_user(Err(UserError::DatabaseError("down".to_string())), &li);
    assert!(matches!(r, Err(UserError::DatabaseError(m)) if m == "down"));
}

#[test]
fn lookups_map_missing_to_not_found() {
    assert_eq!(require_user(Ok(Some(user(3, None)))).unwrap().id, 3);
    assert!(matches!(require_user(Ok(None)), Err(UserError::UserNotFound)));
    assert!(matches!(require_user(Err(UserError::CaptchaError)), Err(UserError::CaptchaError)));
    let t = Token { id: 1, user_id: 3, token_hash: "h".to_string(), expires_at: 0, used: false };
    assert_eq!(require_token(Ok(Some(t))).unwrap(), "h");
    assert!(matches!(require_token(Ok(None)), Err(UserError::UserNotFound)));
    assert!(matches!(require_token(Err(UserError::DatabaseError("x".into()))), Err(UserError::DatabaseError(_))));
}

#[test]
fn pending_code_is_a_successful_lookup() {
    assert!(have_token(&Ok("hash".to_string())));
    assert!(!have_token(&Err(UserError::UserNotFound)));
}

fn addr() -> String {
    "me@example.com".to_string()
}

#[test]
fn issued_code_is_hashed_and_expires_in_a_minute() {
    let (s, a) = send_token(&addr(), "Reset password", TokenState::Start, TokenEvent::Begin);
    assert_eq!((s.clone(), a), (TokenState::AwaitUser, TokenAction::LoadUser("me@example.com".to_string())));
    let (s, a) = send_token(&addr(), "Reset password", s, TokenEvent::UserLoaded(Ok(Some(user(8, None)))));
    assert_eq!((s.clone(), a), (TokenState::AwaitTokenDeletion(8), TokenAction::DeleteTokens(8)));
    let (s, a) = send_token(&addr(), "Reset password", s, TokenEvent::TokensDeleted(Ok(())));
    let code = match (&s, a) {
        (TokenState::AwaitMail(8, c), TokenAction::SendMail(to, subject, m)) if *c == m => {
            assert_eq!((to.as_str(), subject.as_str()), ("me@example.com", "Reset password"));
            m
        }
        other => panic!("unexpected step {:?}", other),
    };
    assert_eq!(code.chars().count(), 10);
    assert!(code.chars().all(|c| TOKEN_ALPHABET.contains(c)));
    let (s, a) = send_token(&addr(), "Reset password", s, TokenEvent::MailAttempted(1_000));
    let record = match (s, a) {
        (TokenState::AwaitInsert, TokenAction::InsertToken(r)) => r,
        other => panic!("unexpected step {:?}", other),
    };
    assert_eq!(record.user_id, 8);
    assert_eq!(record.expires_at, 1_000 + TOKEN_LIFETIME_MICROS);
    assert_eq!(TOKEN_LIFETIME_MICROS, 60_000_000);
    assert_ne!(record.token_hash, code);
    assert!(record.token_hash.starts_with("$argon2id$"));
    assert!(code_accepted(&code, Ok(record.token_hash.clone())));
    assert!(!code_accepted("wrongcode1", Ok(record.token_hash)));
    assert_eq!(send_token(&addr(), "Reset password", TokenState::AwaitInsert, TokenEvent::Inserted(Ok(()))),
        (TokenState::Done, TokenAction::Finish(Ok(()))));
}

#[test]
fn no_code_without_account() {
    assert_eq!(send_token(&addr(), "Reset password", TokenState::AwaitUser, TokenEvent::UserLoaded(Ok(None))),
        (TokenState::Done, TokenAction::Finish(Err(UserError::UserLogInError))));
    let e = UserError::DatabaseError("e".into());
    assert_eq!(send_token(&addr(), "Reset password", TokenState::AwaitUser, TokenEvent::UserLoaded(Err(e.clone()))),
        (TokenState::Done, TokenAction::Finish(Err(e.clone()))));
    assert_eq!(send_token(&addr(), "Reset password", TokenState::AwaitTokenDeletion(3), TokenEvent::TokensDeleted(Err(e.clone()))),
        (TokenState::Done, TokenAction::Finish(Err(e.clone()))));
    assert_eq!(send_token(&addr(), "Reset password", TokenState::AwaitInsert, TokenEvent::Inserted(Err(e.clone()))),
        (TokenState::Done, TokenAction::Finish(Err(e))));
}

#[test]
fn missing_code_never_verifies() {
    assert!(!code_accepted("", Err(UserError::UserNotFound)));
    assert!(!code_accepted("abcdefghij", Err(UserError::UserNotFound)));
}

fn reset_form(token: &str, p1: &str, p2: &str) -> ResetsPassword {
    ResetsPassword {
        token: token.to_string(),
        password: p1.to_string(),
        password2: p2.to_string(),
        g_recaptcha_response: "resp".to_string(),
    }
}

#[test]
fn reset_flow_replaces_the_password() {
    let code_hash = hash_secret("Abc123xyz0");
    let f = reset_form("Abc123xyz0", "brand-new-pass", "brand-new-pass");
    let (s, a) = resets_user_password(&f, ResetState::Start, ResetEvent::Begin);
    assert_eq!((s.clone(), a), (ResetState::AwaitCaptcha, ResetAction::VerifyCaptcha("resp".to_string())));
    let (s, a) = resets_user_password(&f, s, ResetEvent::CaptchaChecked(true));
    assert_eq!((s.clone(), a), (ResetState::AwaitCodeHash, ResetAction::LoadCodeHash));
    let (s, a) = resets_user_password(&f, s, ResetEvent::CodeHashLoaded(Ok(code_hash)));
    let h = match (&s, a) {
        (ResetState::AwaitUser(h), ResetAction::LoadUser) => h.clone(),
        other => panic!("unexpected step {:?}", other),
    };
    assert!(verify_secret("brand-new-pass", &h));
    let old = user(4, Some("old".to_string()));
    let (s, a) = resets_user_password(&f, s, ResetEvent::UserLoaded(Ok(Some(old.clone()))));
    let updated = User { password: Some(h.clone()), ..old };
    assert_eq!((s.clone(), a), (ResetState::AwaitTokenDeletion(updated.clone()), ResetAction::DeleteTokens(4)));
    let (s, a) = resets_user_password(&f, s, ResetEvent::TokensDeleted(Ok(())));
    assert_eq!((s.clone(), a), (ResetState::AwaitUpdate, ResetAction::UpdateUser(updated.clone())));
    let (s, a) = resets_user_password(&f, s, ResetEvent::PasswordUpdated(Ok(())));
    assert_eq!((s, a), (ResetState::Done, ResetAction::Finish(Ok(()))));
    let li = LogIn { email: "u4@example.com".to_string(), password: "brand-new-pass".to_string() };
    assert!(log_in_user(Ok(Some(updated)), &li).is_ok());
}

#[test]
fn reset_needs_the_mailed_code() {
    let code_hash = hash_secret("Abc123xyz0");
    let wrong = reset_form("Abc123xyz1", "brand-new-pass", "brand-new-pass");
    assert_eq!(resets_user_password(&wrong, ResetState::AwaitCodeHash, ResetEvent::CodeHashLoaded(Ok(code_hash))),
        (ResetState::Done, ResetAction::Finish(Err(UserError::CaptchaError))));
    let f = reset_form("Abc123xyz0", "brand-new-pass", "brand-new-pass");
    assert_eq!(resets_user_password(&f, ResetState::AwaitCodeHash, ResetEvent::CodeHashLoaded(Err(UserError::UserNotFound))),
        (ResetState::Done, ResetAction::Finish(Err(UserError::CaptchaError))));
    assert_eq!(resets_user_password(&f, ResetState::AwaitCaptcha, ResetEvent::CaptchaChecked(false)),
        (ResetState::Done, ResetAction::Finish(Err(UserError::CaptchaError))));
}

#[test]
fn reset_refusals_and_failures() {
    let short = reset_form("c", "short", "short");
    match resets_user_password(&short, ResetState::Start, ResetEvent::Begin) {
        (ResetState::Done, ResetAction::Finish(Err(UserError::ValidationError(v)))) => assert_eq!(v.len(), 1),
        other => panic!("unexpected step {:?}", other),
    }
    let f = reset_form("c", "longpassword", "longpassworD");
    assert_eq!(resets_user_password(&f, ResetState::Start, ResetEvent::Begin),
        (ResetState::Done, ResetAction::Finish(Err(UserError::PasswordsDoNotMatch))));
    let e = UserError::DatabaseError("down".into());
    assert_eq!(resets_user_password(&f, ResetState::AwaitUser("h".into()), ResetEvent::UserLoaded(Err(e.clone()))),
        (ResetState::Done, ResetAction::Finish(Err(e.clone()))));
    assert_eq!(resets_user_password(&f, ResetState::AwaitTokenDeletion(user(1, None)), ResetEvent::TokensDeleted(Err(e.clone()))),
        (ResetState::Done, ResetAction::Finish(Err(e.clone()))));
    assert_eq!(resets_user_password(&f, ResetState::AwaitUpdate, ResetEvent::PasswordUpdated(Err(e.clone()))),
        (ResetState::Done, ResetAction::Finish(Err(e))));
}

#[test]
fn with_password_changes_only_the_hash() {
    let u = user(2, None);
    let v = with_password(u.clone(), "H".to_string());
    assert_eq!(v, User { password: Some("H".to_string()), ..u });
}

/// Runs a code check from its start for the account `u` with the pending
/// code hash `stored`; returns the deletions and updates it asked for and its outcome.
fn run_code_check(
    step: &dyn Fn(CodeCheckState, CodeCheckEvent) -> (CodeCheckState, CodeCheckAction),
    u: Result<User, UserError>,
    stored: Result<String, UserError>,
) -> (Vec<i32>, Vec<User>, Result<(), UserError>) {
    let mut deleted = Vec::new();
    let mut updated = Vec::new();
    let mut state = CodeCheckState::Start;
    let mut event = CodeCheckEvent::Begin;
    loop {
        let (next, action) = step(state, event);
        state = next;
        event = match action {
            CodeCheckAction::LoadUser(_) => CodeCheckEvent::UserLoaded(u.clone()),
            CodeCheckAction::LoadCodeHash(e) => {
                assert_eq!(e, "a@b.c");
                CodeCheckEvent::CodeHashLoaded(stored.clone())
            }
            CodeCheckAction::DeleteTokens(id) => {
                deleted.push(id);
                CodeCheckEvent::TokensDeleted
            }
            CodeCheckAction::UpdateUser(v) => {
                updated.push(v);
                CodeCheckEvent::Updated(Ok(()))
            }
            CodeCheckAction::Finish(r) => return (deleted, updated, r),
        };
    }
}

#[test]
fn second_factor_code_is_used_once() {
    let hash = hash_secret("Abc123xyz0");
    let u = User { email: Some("a@b.c".to_string()), ..user(1, None) };
    let (deleted, updated, r) = run_code_check(&|s, e| email_2fa("Abc123xyz0", 1, s, e), Ok(u.clone()), Ok(hash.clone()));
    assert_eq!((deleted, updated.len(), r), (vec![1], 0, Ok(())));
    let (deleted, _, r) = run_code_check(&|s, e| email_2fa("Abc123xyz9", 1, s, e), Ok(u.clone()), Ok(hash));
    assert_eq!((deleted, r), (vec![], Err(UserError::CaptchaError)));
    let (deleted, _, r) = run_code_check(&|s, e| email_2fa("Abc123xyz0", 1, s, e), Ok(u), Err(UserError::UserNotFound));
    assert_eq!((deleted, r), (vec![], Err(UserError::CaptchaError)));
    let (_, _, r) = run_code_check(&|s, e| email_2fa("Abc123xyz0", 9, s, e), Err(UserError::UserNotFound), Ok(String::new()));
    assert_eq!(r, Err(UserError::UserNotFound));
}

#[test]
fn activation_needs_an_accepted_code() {
    let hash = hash_secret("Abc123xyz0");
    let u = User { email: Some("a@b.c".to_string()), ..user(1, None) };
    let (deleted, updated, r) = run_code_check(&|s, e| activate_email("Abc123xyz0", 1, s, e), Ok(u.clone()), Ok(hash.clone()));
    assert_eq!((deleted, r), (vec![1], Ok(())));
    assert_eq!(updated, vec![User { is_active: true, ..u.clone() }]);
    let (deleted, updated, r) = run_code_check(&|s, e| activate_email("wrong", 1, s, e), Ok(u), Ok(hash));
    assert_eq!((deleted, updated.len(), r), (vec![], 0, Err(UserError::CaptchaError)));
    let e = UserError::DatabaseError("down".into());
    assert_eq!(activate_email("x", 1, CodeCheckState::AwaitUpdate, CodeCheckEvent::Updated(Err(e.clone()))),
        (CodeCheckState::Done, CodeCheckAction::Finish(Err(e))));
}

#[test]
fn code_check_deletes_codes_only_after_a_match() {
    let hash = hash_secret("Abc123xyz0");
    let u = User { email: Some("a@b.c".to_string()), ..user(4, None) };
    let (s, a) = is_verify("Abc123xyz0", CodeCheckState::AwaitCodeHash(u.clone()), CodeCheckEvent::Begin);
    assert_eq!(a, CodeCheckAction::LoadCodeHash("a@b.c".to_string()));
    let (s, a) = is_verify("Abc123xyz0", s, CodeCheckEvent::CodeHashLoaded(Ok(hash.clone())));
    assert_eq!(a, CodeCheckAction::DeleteTokens(4));
    assert_eq!(is_verify("Abc123xyz0", s, CodeCheckEvent::TokensDeleted).1, CodeCheckAction::Finish(Ok(())));
    let (s, a) = is_verify("wrongcode0", CodeCheckState::AwaitCodeHash(u), CodeCheckEvent::CodeHashLoaded(Ok(hash)));
    assert_eq!((s, a), (CodeCheckState::Done, CodeCheckAction::Finish(Err(UserError::CaptchaError))));
}

#[test]
fn error_texts() {
    assert_eq!(UserError::DatabaseError("x".into()).message(), "Failed to insert user into database");
    assert_eq!(UserError::PasswordsDoNotMatch.message(), "PasswordsDoNotMatch");
    assert_eq!(UserError::UserLogInError.message(), "UserLogInError");
    assert_eq!(UserError::UserNotFound.message(), "User not found");
    assert_eq!(UserError::CaptchaError.message(), "CaptchaError");
    let vs = validate_registration(&"nope".to_string(), &"short".to_string());
    assert_eq!(UserError::ValidationError(vs).message(),
        "Validation failed: email: Validation error: email [{\"value\": String(\"nope\")}]\n\
         password: Validation error: length [{\"min\": Number(8), \"value\": String(\"short\")}]");
    let vs = vec![FieldViolation { field: "f".to_string(), code: "c".to_string(), params: vec![] }];
    assert_eq!(UserError::ValidationError(vs).message(), "Validation failed: f: Validation error: c [{}]");
}

#[test]
fn stored_hashes_are_argon2id_strings() {
    let n = registered(&form("a@b.c", "password1", "password1"));
    let h = n.password.unwrap();
    assert!(h.starts_with("$argon2id$"));
    assert_ne!(h, "password1");
}

#[test]
fn two_factor_switch_twice_is_identity() {
    let u = user(1, None);
    let once = chang_twofa(u.clone());
    assert!(once.twofa_enabled);
    assert_eq!(chang_twofa(once), u);
}

#[test]
fn account_list_shows_each_account() {
    let mut a = user(1, None);
    a.is_active = true;
    let mut b = user(2, None);
    b.oauth_provider = Some("github".to_string());
    b.twofa_enabled = true;
    let dtos = get_all_user(vec![a, b]);
    assert_eq!(dtos.len(), 2);
    assert_eq!((dtos[0].id, dtos[0].email.as_str(), dtos[0].is_active), (1, "u1@example.com", true));
    assert_eq!((dtos[1].id, dtos[1].oauth_provider.as_deref(), dtos[1].twofa_enabled), (2, Some("github"), true));
    assert!(get_all_user(vec![]).is_empty());
}

#[test]
fn github_account_found_or_created() {
    let existing = user(11, None);
    match find_or_create_github_user(Ok(Some(existing.clone())), "77".to_string(), None) {
        GithubAccount::Existing(u) => assert_eq!(u, existing),
        GithubAccount::Create(_) => panic!("expected the existing account"),
    }
    for found in [Ok(None), Err(UserError::DatabaseError("x".into()))] {
        match find_or_create_github_user(found, "77".to_string(), Some("g@h.i".to_string())) {
            GithubAccount::Create(n) => {
                assert_eq!(n.email.as_deref(), Some("g@h.i"));
                assert!(n.password.is_none());
                assert!(n.is_active);
                assert_eq!(n.oauth_provider.as_deref(), Some("github"));
                assert_eq!(n.oauth_id.as_deref(), Some("77"));
            }
            GithubAccount::Existing(_) => panic!("expected a new account"),
        }
    }
}

#[test]
fn expired_codes_are_those_before_now() {
    let t = |id: i32, at: i64| Token { id, user_id: 1, token_hash: String::new(), expires_at: at, used: false };
    let tokens = vec![t(1, 5), t(2, 10), t(3, 11), t(4, -3)];
    assert_eq!(expired_token_ids(&tokens, 10), vec![1, 4]);
    assert_eq!(expired_token_ids(&tokens, 0), vec![4]);
    assert!(expired_token_ids(&vec![], 10).is_empty());
}

#[test]
fn mail_needs_two_mailboxes() {
    let config = MailConfig {
        smtp_host: "smtp.example.com".to_string(),
        smtp_username: "u".to_string(),
        smtp_password: "p".to_string(),
        from_email: "Service <noreply@example.com>".to_string(),
    };
    let m = compose_mail(&config, "me@example.com", "Activate Email", "Abc123xyz0").unwrap();
    assert_eq!((m.from.as_str(), m.to.as_str()), ("Service <noreply@example.com>", "me@example.com"));
    assert_eq!((m.subject.as_str(), m.body.as_str()), ("Activate Email", "Abc123xyz0"));
    assert!(compose_mail(&config, "not a mailbox", "s", "b").is_none());
    let bad = MailConfig { from_email: "nobody".to_string(), ..config };
    assert!(compose_mail(&bad, "me@example.com", "s", "b").is_none());
}
