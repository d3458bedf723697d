use authflow::controllers::user_controller::{
    admine_panel, creat_resets_token, email_2fa_verify, email_verify, github_callback, github_email, index,
    log_out, post_email_2fa_verify, post_email_verify, post_log_in, post_log_in_checked, post_password_resets,
    post_register, primary_email, reset_email, toggle_2fa, two_factor_email, CodePageAction, CodePageEvent,
    CodePageState, PasswordResetAction, PasswordResetEvent, PasswordResetState, ResetRequestAction,
    ResetRequestEvent, ResetRequestState, GithubAction, GithubEmail, GithubEvent, GithubState, LogInAction, LogInEvent, LogInState,
    TwoFactorAction, TwoFactorEvent, TwoFactorState,
};
use authflow::web::{CookieAttrs, SameSite};
use authflow::services::user_service::{CodeCheckAction, CodeCheckEvent};
use authflow::models::login_attempts::NewLoginAttempt;
use authflow::models::user_model::LogIn;
use authflow::services::secrets::hash_secret;
use authflow::web::FlashRedirect;
use authflow::models::user_model::{Model as User, UserDTO};
use authflow::services::session::session_user_id;
use authflow::services::user_service::UserError;
use authflow::web::{CookieJar, FlashKind};

fn user(id: i32, twofa: bool) -> User {
    User {
        id,
        email: Some("me@example.com".to_string()),
        password: Some("hash".to_string()),
        is_active: true,
        oauth_provider: None,
        oauth_id: None,
        twofa_enabled: twofa,
    }
}

fn dto(id: i32, active: bool) -> UserDTO {
    UserDTO { id, email: "me@example.com".to_string(), is_active: active, oauth_provider: None, twofa_enabled: false }
}

#[test]
fn home_goes_to_sign_in() {
    assert_eq!(index().to, "/log_in");
}

#[test]
fn log_out_removes_only_the_session() {
    let mut jar = CookieJar::new();
    jar.add_private("user_id", "5".to_string());
    jar.add_private("reset_email", "me@example.com".to_string());
    let r = log_out(&mut jar);
    assert_eq!(r.to, "/");
    assert_eq!(jar.get_private("user_id"), None);
    assert_eq!(session_user_id(&jar), None);
    assert_eq!(jar.get_private("reset_email").as_deref(), Some("me@example.com"));
    let r = log_out(&mut jar);
    assert_eq!(r.to, "/");
    assert_eq!(jar.get_private("reset_email").as_deref(), Some("me@example.com"));
}

fn sign_in_form(email: &str, password: &str) -> LogIn {
    LogIn { email: email.to_string(), password: password.to_string() }
}

/// Runs the sign-in handler with the given lockout answer and account.
fn run_sign_in(
    jar: &mut CookieJar,
    form: &LogIn,
    locked: Result<bool, UserError>,
    found: Result<Option<User>, UserError>,
    now: i64,
) -> (FlashRedirect, Vec<NewLoginAttempt>, bool) {
    let mut state = LogInState::Start;
    let mut event = LogInEvent::Begin;
    let mut logged = Vec::new();
    let mut looked_up = false;
    let mut locked = Some(locked);
    let mut found = Some(found);
    loop {
        let (next, action) = post_log_in(jar, form, now, state, event);
        state = next;
        event = match action {
            LogInAction::CheckLockout => LogInEvent::LockoutChecked(locked.take().unwrap()),
            LogInAction::LoadUser => {
                looked_up = true;
                LogInEvent::UserLoaded(found.take().unwrap())
            }
            LogInAction::LogAttempt(a) => {
                logged.push(a);
                LogInEvent::AttemptLogged
            }
            LogInAction::Respond(f) => return (f, logged, looked_up),
        };
    }
}

fn account(id: i32, password: &str, twofa: bool) -> User {
    User { password: Some(hash_secret(password)), ..user(id, twofa) }
}

#[test]
fn locked_out_sign_in_logs_nothing() {
    let mut jar = CookieJar::new();
    let form = sign_in_form("me@example.com", "whatever1");
    let (f, logged, looked_up) = run_sign_in(&mut jar, &form, Ok(true), Ok(None), 1);
    assert_eq!(f.to, "/log_in");
    assert_eq!(f.flash.kind, FlashKind::Error);
    assert_eq!(f.flash.message, "Забагато невдалих спроб. Спробуйте пізніше.");
    assert!(logged.is_empty());
    assert!(!looked_up);
    assert_eq!(session_user_id(&jar), None);
}

#[test]
fn failed_lockout_lookup_counts_as_not_locked() {
    let mut jar = CookieJar::new();
    let form = sign_in_form("me@example.com", "pass-word");
    let (f, logged, looked_up) =
        run_sign_in(&mut jar, &form, Err(UserError::DatabaseError("x".into())), Ok(Some(account(2, "pass-word", false))), 1);
    assert!(looked_up);
    assert_eq!(f.to, "/admine_panel");
    assert_eq!(logged.len(), 1);
}

#[test]
fn good_sign_in_sets_the_session_and_logs_success() {
    let mut jar = CookieJar::new();
    let form = sign_in_form("typed@example.com", "pass-word");
    let (f, logged, _) = run_sign_in(&mut jar, &form, Ok(false), Ok(Some(account(-17, "pass-word", false))), 99);
    assert_eq!(f.to, "/admine_panel");
    assert_eq!(f.flash.kind, FlashKind::Success);
    assert_eq!(f.flash.message, "Ви успішно увійшли!");
    assert_eq!(jar.get_private("user_id").as_deref(), Some("-17"));
    assert_eq!(session_user_id(&jar), Some(-17));
    assert_eq!(logged.len(), 1);
    let a = &logged[0];
    assert_eq!(a.user_email, "typed@example.com");
    assert!(a.success);
    assert_eq!(a.ip_address.as_deref(), Some("127.0.0.1"));
    assert_eq!(a.provider.as_deref(), Some("Local"));
    assert_eq!(a.created_at, 99);
}

#[test]
fn two_factor_sign_in_waits_for_the_code() {
    let mut jar = CookieJar::new();
    let form = sign_in_form("typed@example.com", "pass-word");
    let (f, logged, _) = run_sign_in(&mut jar, &form, Ok(false), Ok(Some(account(3, "pass-word", true))), 1);
    assert_eq!(f.to, "/2fa_verify");
    assert_eq!(f.flash.kind, FlashKind::Warning);
    assert_eq!(f.flash.message, "Введіть код двофакторної автентифікації.");
    assert!(logged.is_empty());
    assert_eq!(session_user_id(&jar), None);
    assert_eq!(two_factor_email(&jar), "me@example.com");
}

#[test]
fn bad_sign_in_logs_failure() {
    for found in [Ok(None), Ok(Some(account(4, "pass-word", false))), Err(UserError::DatabaseError("x".into()))] {
        let mut jar = CookieJar::new();
        let form = sign_in_form("x@y.z", "wrong-word");
        let (f, logged, _) = run_sign_in(&mut jar, &form, Ok(false), found, 5);
        assert_eq!(f.to, "/log_in");
        assert_eq!(f.flash.kind, FlashKind::Error);
        assert_eq!(f.flash.message, "Невірна пошта або пароль.");
        assert_eq!(logged.len(), 1);
        assert!(!logged[0].success);
        assert_eq!(logged[0].user_email, "x@y.z");
        assert_eq!(session_user_id(&jar), None);
    }
}

/// Runs a code page from its start; `found` is the account of the address
/// and `pending` whether a code is pending. Returns the addresses it looked
/// up, checked and mailed, and its last answer.
fn run_code_page(
    step: &dyn Fn(CodePageState, CodePageEvent) -> (CodePageState, CodePageAction),
    found: Option<User>,
    pending: bool,
) -> (Vec<String>, CodePageAction) {
    let mut asked = Vec::new();
    let mut state = CodePageState::Start;
    let mut event = CodePageEvent::Begin;
    loop {
        let (next, action) = step(state, event);
        state = next;
        event = match action {
            CodePageAction::LoadUser(e) => {
                asked.push(format!("user {e}"));
                CodePageEvent::UserLoaded(found.clone())
            }
            CodePageAction::CheckPending(e) => {
                asked.push(format!("pending {e}"));
                CodePageEvent::PendingChecked(if pending { Ok("hash".to_string()) } else { Err(UserError::UserNotFound) })
            }
            CodePageAction::SendCode(e, subject) => {
                assert_eq!(subject, "Activate Email");
                asked.push(format!("mail {e}"));
                CodePageEvent::CodeSent(Ok(()))
            }
            other => return (asked, other),
        };
    }
}

#[test]
fn second_factor_page_mails_a_code_only_when_none_is_pending() {
    let mut jar = CookieJar::new();
    jar.add_private("email_2fa", "me@example.com".to_string());
    let page = |s, e| email_2fa_verify(&jar, s, e);
    let (asked, last) = run_code_page(&page, Some(user(1, true)), false);
    assert_eq!(asked, vec!["user me@example.com", "pending me@example.com", "mail me@example.com"]);
    assert_eq!(last, CodePageAction::Render);
    let (asked, last) = run_code_page(&page, Some(user(1, true)), true);
    assert_eq!(asked, vec!["user me@example.com", "pending me@example.com"]);
    assert_eq!(last, CodePageAction::Render);
    let (asked, _) = run_code_page(&page, Some(user(1, false)), false);
    assert_eq!(asked, vec!["user me@example.com"]);
    let (asked, _) = run_code_page(&page, None, false);
    assert_eq!(asked, vec!["user me@example.com"]);
    assert_eq!(two_factor_email(&CookieJar::new()), "");
}

/// Runs the second-factor handler with the given account, typed code and
/// stored code hash. Returns the answer, the logged attempts, the address it
/// looked up and the accounts whose codes it deleted.
fn run_second_factor(
    jar: &mut CookieJar,
    found: Option<User>,
    typed: &str,
    stored: Result<String, UserError>,
    now: i64,
) -> (FlashRedirect, Vec<NewLoginAttempt>, Option<String>, Vec<i32>) {
    let mut state = TwoFactorState::Start;
    let mut event = TwoFactorEvent::Begin;
    let mut logged = Vec::new();
    let mut asked_for = None;
    let mut deleted = Vec::new();
    loop {
        let (next, action) = post_email_2fa_verify(jar, typed, now, state, event);
        state = next;
        event = match action {
            TwoFactorAction::LoadUser(email) => {
                asked_for = Some(email);
                TwoFactorEvent::UserLoaded(found.clone())
            }
            TwoFactorAction::Check(CodeCheckAction::LoadUser(id)) => {
                TwoFactorEvent::Check(CodeCheckEvent::UserLoaded(Ok(user(id, true))))
            }
            TwoFactorAction::Check(CodeCheckAction::LoadCodeHash(email)) => {
                assert_eq!(email, "me@example.com");
                TwoFactorEvent::Check(CodeCheckEvent::CodeHashLoaded(stored.clone()))
            }
            TwoFactorAction::Check(CodeCheckAction::DeleteTokens(id)) => {
                deleted.push(id);
                TwoFactorEvent::Check(CodeCheckEvent::TokensDeleted)
            }
            TwoFactorAction::Check(other) => panic!("unexpected request {:?}", other),
            TwoFactorAction::LogAttempt(a) => {
                logged.push(a);
                TwoFactorEvent::AttemptLogged
            }
            TwoFactorAction::Respond(f) => return (f, logged, asked_for, deleted),
        };
    }
}

#[test]
fn second_factor_outcomes() {
    let hash = hash_secret("Abc123xyz0");
    let mut jar = CookieJar::new();
    jar.add_private("email_2fa", "me@example.com".to_string());
    let (f, logged, asked, _) = run_second_factor(&mut jar, None, "Abc123xyz0", Ok(hash.clone()), 1);
    assert_eq!((f.to.as_str(), f.flash.message.as_str()), ("/log_in", "Користувача не знайдено."));
    assert!(logged.is_empty());
    assert_eq!(asked.as_deref(), Some("me@example.com"));
    let (f, logged, _, deleted) = run_second_factor(&mut jar, Some(user(8, true)), "Abc123xyz9", Ok(hash.clone()), 2);
    assert_eq!((f.to.as_str(), f.flash.message.as_str()), ("/2fa_verify", "Невірний або прострочений код."));
    assert!(deleted.is_empty());
    assert_eq!(logged.len(), 1);
    assert!(!logged[0].success);
    assert_eq!(logged[0].user_email, "me@example.com");
    assert_eq!(session_user_id(&jar), None);
    let (f, logged, _, deleted) = run_second_factor(&mut jar, Some(user(8, true)), "Abc123xyz0", Ok(hash), 3);
    assert_eq!((f.to.as_str(), f.flash.message.as_str()), ("/admine_panel", "2FA успішно пройдено."));
    assert_eq!(f.flash.kind, FlashKind::Success);
    assert_eq!(deleted, vec![8]);
    assert!(logged[0].success);
    assert_eq!(session_user_id(&jar), Some(8));
}

#[test]
fn second_factor_without_waiting_address() {
    let mut jar = CookieJar::new();
    let (f, _, asked, _) = run_second_factor(&mut jar, None, "x", Err(UserError::UserNotFound), 1);
    assert_eq!(asked.as_deref(), Some(""));
    assert_eq!(f.to, "/log_in");
}

#[test]
fn registration_outcomes() {
    let f = post_register(Ok(()));
    assert_eq!((f.to.as_str(), f.flash.message.as_str()), ("/log_in", "Реєстрація успішна! Увійдіть у свій акаунт."));
    let f = post_register(Err(UserError::PasswordsDoNotMatch));
    assert_eq!(f.to, "/register");
    assert_eq!(f.flash.kind, FlashKind::Error);
    assert_eq!(f.flash.message, "Не вдалося створити користувача: PasswordsDoNotMatch");
    let f = post_register(Err(UserError::CaptchaError));
    assert_eq!(f.flash.message, "Не вдалося створити користувача: CaptchaError");
}

#[test]
fn toggle_needs_a_signed_in_account() {
    let (r, id) = toggle_2fa(None);
    assert_eq!((r.to.as_str(), id), ("/log_in", None));
    let (r, id) = toggle_2fa(Some(dto(0, true)));
    assert_eq!((r.to.as_str(), id), ("/log_in", None));
    let (r, id) = toggle_2fa(Some(dto(6, true)));
    assert_eq!((r.to.as_str(), id), ("/admine_panel", Some(6)));
}

#[test]
fn admin_panel_needs_a_signed_in_account() {
    let e = admine_panel(None).err().unwrap();
    assert_eq!((e.to.as_str(), e.flash.message.as_str()), ("/log_in", "Увійдіть в аккаунт"));
    assert!(admine_panel(Some(dto(0, true))).is_err());
    let (d, flash) = admine_panel(Some(dto(4, false))).ok().unwrap();
    assert_eq!(d.id, 4);
    assert_eq!((flash.kind, flash.message.as_str()), (FlashKind::Success, "Welcom"));
}

#[test]
fn email_confirmation_page() {
    let refused = |session: Option<UserDTO>| match run_code_page(&|s, e| email_verify(&session, s, e), None, false) {
        (asked, CodePageAction::Refuse(f)) => {
            assert!(asked.is_empty());
            (f.to, f.flash.message)
        }
        other => panic!("unexpected answer {:?}", other),
    };
    assert_eq!(refused(None).0, "/log_in");
    assert_eq!(refused(Some(dto(1, true))), ("/admine_panel".to_string(), "Аккаунт уже активовано".to_string()));
    let inactive = Some(dto(1, false));
    let (asked, last) = run_code_page(&|s, e| email_verify(&inactive, s, e), None, false);
    assert_eq!(asked, vec!["pending me@example.com", "mail me@example.com"]);
    assert_eq!(last, CodePageAction::Render);
    let (asked, last) = run_code_page(&|s, e| email_verify(&inactive, s, e), None, true);
    assert_eq!(asked, vec!["pending me@example.com"]);
    assert_eq!(last, CodePageAction::Render);
}

#[test]
fn email_confirmation_outcomes() {
    let f = post_email_verify(Ok(()));
    assert_eq!((f.to.as_str(), f.flash.message.as_str()), ("/admine_panel", "Електронну пошту успішно підтверджено."));
    let f = post_email_verify(Err(UserError::CaptchaError));
    assert_eq!((f.to.as_str(), f.flash.message.as_str()), ("/email_verify", "Невірний або прострочений токен."));
}

/// Runs a request for a reset code whose mailing gives `sent`; returns the
/// subject it mailed under and the redirect.
fn run_reset_request(jar: &mut CookieJar, email: &str, sent: Result<(), UserError>) -> (String, String) {
    let email = email.to_string();
    let mut subject = String::new();
    let mut state = ResetRequestState::Start;
    let mut event = ResetRequestEvent::Begin;
    let mut sent = Some(sent);
    loop {
        let (next, action) = creat_resets_token(jar, &email, state, event);
        state = next;
        event = match action {
            ResetRequestAction::SendCode(to, s) => {
                assert_eq!(to, email);
                subject = s;
                ResetRequestEvent::CodeSent(sent.take().unwrap())
            }
            ResetRequestAction::Respond(r) => return (subject, r.to),
        };
    }
}

/// Runs the password reset form with a reset that gives `outcome`; returns
/// the address it reset, if it ran one, and the answer.
fn run_password_reset(jar: &mut CookieJar, outcome: Result<(), UserError>) -> (Option<String>, FlashRedirect) {
    let mut ran = None;
    let mut state = PasswordResetState::Start;
    let mut event = PasswordResetEvent::Begin;
    let mut outcome = Some(outcome);
    loop {
        let (next, action) = post_password_resets(jar, state, event);
        state = next;
        event = match action {
            PasswordResetAction::RunReset(e) => {
                ran = Some(e);
                PasswordResetEvent::ResetFinished(outcome.take().unwrap())
            }
            PasswordResetAction::Respond(f) => return (ran, f),
        };
    }
}

#[test]
fn reset_request_and_reset() {
    let mut jar = CookieJar::new();
    let (subject, to) = run_reset_request(&mut jar, "me@example.com", Err(UserError::UserLogInError));
    assert_eq!((subject.as_str(), to.as_str()), ("Reset password", "/user_verify"));
    let (ran, f) = run_password_reset(&mut jar, Ok(()));
    assert_eq!(ran, None);
    assert_eq!((f.to.as_str(), f.flash.message.as_str()), ("/user_verify", "Немає активного запиту на скидання паролю."));
    let (_, to) = run_reset_request(&mut jar, "me@example.com", Ok(()));
    assert_eq!(to, "/password_resets");
    let (_, attrs) = jar.get_private_cookie("reset_email").unwrap();
    assert_eq!(attrs, CookieAttrs { http_only: None, same_site: None });
    assert_eq!(reset_email(&jar).ok().unwrap(), "me@example.com");
    let (ran, f) = run_password_reset(&mut jar, Err(UserError::CaptchaError));
    assert_eq!(ran.as_deref(), Some("me@example.com"));
    assert_eq!((f.to.as_str(), f.flash.message.as_str()), ("/password_resets", "Не вдалося скинути пароль."));
    assert!(reset_email(&jar).is_ok());
    let (_, f) = run_password_reset(&mut jar, Ok(()));
    assert_eq!((f.to.as_str(), f.flash.message.as_str()), ("/log_in", "Пароль успішно змінено."));
    assert!(reset_email(&jar).is_err());
}

#[test]
fn empty_reset_cookie_is_no_reset() {
    let mut jar = CookieJar::new();
    jar.add_private("reset_email", String::new());
    assert!(reset_email(&jar).is_err());
    let (ran, f) = run_password_reset(&mut jar, Ok(()));
    assert_eq!(ran, None);
    assert_eq!(f.to, "/user_verify");
    assert_eq!(jar.get_private("reset_email").as_deref(), Some(""));
}

#[test]
fn github_primary_address() {
    let e = |email: Option<&str>, primary: bool| GithubEmail { email: email.map(|s| s.to_string()), primary };
    assert_eq!(primary_email(&vec![]), None);
    assert_eq!(primary_email(&vec![e(Some("a@x"), false), e(Some("b@x"), true), e(Some("c@x"), true)]).as_deref(), Some("b@x"));
    assert_eq!(primary_email(&vec![e(None, true), e(Some("c@x"), true)]), None);
    assert_eq!(primary_email(&vec![e(Some("a@x"), false)]), None);
}

#[test]
fn github_address_fallbacks() {
    assert_eq!(github_email(Some("p@x".to_string()), Some("q@x".to_string()), 1), "p@x");
    assert_eq!(github_email(None, Some("q@x".to_string()), 1), "q@x");
    assert_eq!(github_email(None, None, 583231), "583231@github.local");
}

/// Runs a sign-in through GitHub from its start. Returns what it fetched
/// and asked for, the account it created if any, the logged attempt and the
/// redirect.
fn run_github(
    jar: &mut CookieJar,
    profile_email: Option<&str>,
    emails: Vec<GithubEmail>,
    stored: Option<User>,
) -> (Vec<String>, Option<authflow::models::user_model::NewUser>, NewLoginAttempt, String) {
    let mut asked = Vec::new();
    let mut created = None;
    let mut logged = None;
    let mut state = GithubState::Start;
    let mut event = GithubEvent::Begin;
    loop {
        let (next, action) = github_callback(jar, 77, state, event);
        state = next;
        event = match action {
            GithubAction::LoadProfile => {
                asked.push("profile".to_string());
                GithubEvent::ProfileLoaded(583231, profile_email.map(|s| s.to_string()))
            }
            GithubAction::LoadEmails => {
                asked.push("emails".to_string());
                GithubEvent::EmailsLoaded(emails.clone())
            }
            GithubAction::FindAccount(id) => {
                asked.push(format!("find {id}"));
                GithubEvent::AccountFound(Ok(stored.clone()))
            }
            GithubAction::InsertAccount(n) => {
                created = Some(n.clone());
                GithubEvent::AccountInserted(User {
                    id: 40,
                    email: n.email,
                    password: n.password,
                    is_active: n.is_active,
                    oauth_provider: n.oauth_provider,
                    oauth_id: n.oauth_id,
                    twofa_enabled: false,
                })
            }
            GithubAction::LogAttempt(a) => {
                logged = Some(a);
                GithubEvent::AttemptLogged
            }
            GithubAction::Respond(r) => return (asked, created, logged.unwrap(), r.to),
        };
    }
}

#[test]
fn github_sign_in_fetches_addresses_only_without_a_profile_address() {
    let mut jar = CookieJar::new();
    let (asked, created, a, to) = run_github(&mut jar, Some("p@x"), vec![], None);
    assert_eq!(asked, vec!["profile", "find 583231"]);
    let n = created.unwrap();
    assert_eq!(n.email.as_deref(), Some("p@x"));
    assert_eq!(n.oauth_id.as_deref(), Some("583231"));
    assert_eq!(n.oauth_provider.as_deref(), Some("github"));
    assert!(n.is_active && n.password.is_none());
    assert_eq!(a.user_email, "p@x");
    assert_eq!(to, "/admine_panel");
    let e = |email: Option<&str>, primary: bool| GithubEmail { email: email.map(|s| s.to_string()), primary };
    let mut jar = CookieJar::new();
    let (asked, created, a, _) = run_github(&mut jar, None, vec![e(Some("a@x"), false), e(Some("b@x"), true)], None);
    assert_eq!(asked, vec!["profile", "emails", "find 583231"]);
    assert_eq!(created.unwrap().email.as_deref(), Some("b@x"));
    assert_eq!(a.user_email, "b@x");
    let mut jar = CookieJar::new();
    let (_, _, a, _) = run_github(&mut jar, None, vec![e(Some("a@x"), false)], None);
    assert_eq!(a.user_email, "583231@github.local");
}

#[test]
fn github_sign_in_sets_the_session() {
    let mut jar = CookieJar::new();
    let (_, created, a, to) = run_github(&mut jar, Some("g@h.i"), vec![], None);
    assert!(created.is_some());
    assert_eq!(to, "/admine_panel");
    assert_eq!(session_user_id(&jar), Some(40));
    assert_eq!(a.provider.as_deref(), Some("GitHub"));
    assert_eq!(a.ip_address.as_deref(), Some("127.0.0.1"));
    assert_eq!(a.created_at, 77);
    assert!(a.success);
    assert_eq!(a.user_email, "g@h.i");
    let (value, attrs) = jar.get_private_cookie("user_id").unwrap();
    assert_eq!(value, "40");
    assert_eq!(attrs, CookieAttrs { http_only: Some(true), same_site: Some(SameSite::Lax) });
}

#[test]
fn second_github_sign_in_reuses_the_account() {
    let mut jar = CookieJar::new();
    let stored = User {
        id: 12,
        email: Some("g@h.i".to_string()),
        password: None,
        is_active: true,
        oauth_provider: Some("github".to_string()),
        oauth_id: Some("583231".to_string()),
        twofa_enabled: false,
    };
    let (_, created, _, _) = run_github(&mut jar, Some("g@h.i"), vec![], Some(stored));
    assert!(created.is_none());
    assert_eq!(session_user_id(&jar), Some(12));
}

#[test]
fn sign_in_stops_for_two_factor_account_without_address() {
    let form = LogIn { email: "x@y.z".to_string(), password: "pass1234".to_string() };
    let mut u = User { password: Some(hash_secret("pass1234")), ..user(3, true) };
    u.email = None;
    let mut jar = CookieJar::new();
    let r = post_log_in_checked(&mut jar, &form, 1, LogInState::AwaitUser, LogInEvent::UserLoaded(Ok(Some(u.clone()))));
    assert!(r.is_none());
    let bad = LogIn { email: "x@y.z".to_string(), password: "wrong".to_string() };
    let r = post_log_in_checked(&mut jar, &bad, 1, LogInState::AwaitUser, LogInEvent::UserLoaded(Ok(Some(u))));
    assert!(matches!(r, Some((LogInState::AwaitLog(_), LogInAction::LogAttempt(_)))));
}

#[test]
fn sign_in_cookie_has_default_attributes() {
    let form = LogIn { email: "x@y.z".to_string(), password: "pass1234".to_string() };
    let u = User { password: Some(hash_secret("pass1234")), ..user(3, false) };
    let mut jar = CookieJar::new();
    let r = post_log_in(&mut jar, &form, 1, LogInState::AwaitUser, LogInEvent::UserLoaded(Ok(Some(u))));
    assert!(matches!(r.1, LogInAction::LogAttempt(_)));
    assert_eq!(jar.get_private_cookie("user_id"), Some(("3".to_string(), CookieAttrs { http_only: None, same_site: None })));
}
