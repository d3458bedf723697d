//! What each page handler answers, given what the services answered: the
//! redirect, the flash message, the cookies it sets or removes, and the
//! sign-in attempt it logs.

use vstd::prelude::*;
use crate::decimal::{decimal_i32, decimal_i64, int_digits};
use crate::models::login_attempts::NewLoginAttempt;
use crate::models::user_model::{Model as User, NewUser, UserDTO, LogIn};
use crate::services::log_service::log_login_attempt;
use crate::services::session::{USER_ID_COOKIE, session_id_of};
use crate::services::user_service::{
    UserError, GithubAccount, log_in_user, password_matches, is_new_local_user, have_token, error_text,
    find_or_create_github_user, email_2fa, ACTIVATION_SUBJECT, RESET_SUBJECT, code_check_expects, code_check_judges, CodeCheckState,
    CodeCheckEvent, CodeCheckAction,
};
use crate::services::secrets::verify_secret;
use crate::text::push_str;
use crate::web::{
    default_attrs, CookieAttrs, CookieJar, Flash, FlashKind, FlashRedirect, Redirect, SameSite, redirect,
    flash_redirect,
};

verus! {

/// The GitHub sign-in provider.
#[derive(Clone, Debug, PartialEq, Eq)]
pub struct Github;

/// The cookie that holds the address of a sign-in waiting for its second factor.
pub const TWOFA_EMAIL_COOKIE: &'static str = "email_2fa";

/// The cookie that holds the address of a pending password reset.
pub const RESET_EMAIL_COOKIE: &'static str = "reset_email";

/// The address logged for sign-in attempts.
pub const LOCAL_IP: &'static str = "127.0.0.1";

/// The provider logged for sign-ins with a password.
pub const LOCAL_PROVIDER: &'static str = "Local";

/// The provider logged for sign-ins through GitHub.
pub const GITHUB_PROVIDER: &'static str = "GitHub";

/// The domain of the address given to GitHub accounts that show none.
pub const GITHUB_FALLBACK_DOMAIN: &'static str = "@github.local";

// The texts of the flash messages that the handlers show.
pub const LOCKED_OUT_MSG: &'static str = "Забагато невдалих спроб. Спробуйте пізніше.";
pub const ENTER_2FA_CODE_MSG: &'static str = "Введіть код двофакторної автентифікації.";
pub const LOGGED_IN_MSG: &'static str = "Ви успішно увійшли!";
pub const BAD_CREDENTIALS_MSG: &'static str = "Невірна пошта або пароль.";
pub const USER_NOT_FOUND_MSG: &'static str = "Користувача не знайдено.";
pub const TWOFA_PASSED_MSG: &'static str = "2FA успішно пройдено.";
pub const BAD_CODE_MSG: &'static str = "Невірний або прострочений код.";
pub const REGISTERED_MSG: &'static str = "Реєстрація успішна! Увійдіть у свій акаунт.";
pub const REGISTER_FAILED_PREFIX: &'static str = "Не вдалося створити користувача: ";
pub const SIGN_IN_FIRST_MSG: &'static str = "Увійдіть в аккаунт";
pub const WELCOME_MSG: &'static str = "Welcom";
pub const ALREADY_ACTIVE_MSG: &'static str = "Аккаунт уже активовано";
pub const EMAIL_CONFIRMED_MSG: &'static str = "Електронну пошту успішно підтверджено.";
pub const BAD_TOKEN_MSG: &'static str = "Невірний або прострочений токен.";
pub const NO_RESET_MSG: &'static str = "Немає активного запиту на скидання паролю.";
pub const PASSWORD_CHANGED_MSG: &'static str = "Пароль успішно змінено.";
pub const RESET_FAILED_MSG: &'static str = "Не вдалося скинути пароль.";

/// Whether `r` is a redirect to `to` with a flash of kind `kind` and text `message`.
pub open spec fn flashes(r: FlashRedirect, kind: FlashKind, to: Seq<char>, message: Seq<char>) -> bool {
    &&& r.to@ == to
    &&& r.flash.kind == kind
    &&& r.flash.message@ == message
}

/// Whether `a` logs an attempt for `email` from the local address with the given outcome.
pub open spec fn logs_attempt(
    a: NewLoginAttempt,
    email: Seq<char>,
    success: bool,
    provider: Seq<char>,
    now: i64,
) -> bool {
    &&& a.user_email@ == email
    &&& a.ip_address matches Some(ip) && ip@ == LOCAL_IP@
    &&& a.success == success
    &&& a.provider matches Some(p) && p@ == provider
    &&& a.created_at == now
}

fn local_attempt(email: &str, success: bool, provider: &str, now: i64) -> (a: NewLoginAttempt)
    ensures
        logs_attempt(a, email@, success, provider@, now),
{
    log_login_attempt(email, Some(LOCAL_IP.to_string()), success, Some(provider.to_string()), now)
}

/// The home page sends visitors to the sign-in page.
pub fn index() -> (r: Redirect)
    ensures
        r.to@ == "/log_in"@,
{
    redirect("/log_in")
}

/// Signs out: removes the `user_id` cookie, keeps every other cookie, and
/// sends the visitor to the home page.
pub fn log_out(cookies: &mut CookieJar) -> (r: Redirect)
    ensures
        final(cookies)@ == old(cookies)@.remove(USER_ID_COOKIE@),
        final(cookies).attributes() == old(cookies).attributes().remove(USER_ID_COOKIE@),
        r.to@ == "/"@,
{
    cookies.remove_private(USER_ID_COOKIE);
    redirect("/")
}

/// Where the handling of the sign-in form stands; the last state before the
/// answer carries it while the attempt is logged.
#[derive(Clone, Debug, PartialEq, Eq)]
pub enum LogInState {
    Start,
    AwaitLockout,
    AwaitUser,
    AwaitLog(FlashRedirect),
    Done,
}

/// What the server reports back while handling the sign-in form.
#[derive(Debug, PartialEq, Eq)]
pub enum LogInEvent {
    Begin,
    /// Whether the address is locked out; a failed lookup counts as not locked.
    LockoutChecked(Result<bool, UserError>),
    /// The account of the form's address.
    UserLoaded(Result<Option<User>, UserError>),
    /// The attempt was handed to the log; its failure is ignored.
    AttemptLogged,
}

/// What the handling of the sign-in form asks the server to do next.
#[derive(Debug, PartialEq, Eq)]
pub enum LogInAction {
    /// Check whether the form's address is locked out.
    CheckLockout,
    /// Look up the account of the form's address.
    LoadUser,
    LogAttempt(NewLoginAttempt),
    Respond(FlashRedirect),
}

/// The event that each state of the sign-in waits for. An account found for
/// the address has a password: the server stops when it has none.
pub open spec fn log_in_shape(state: LogInState, event: LogInEvent) -> bool {
    match state {
        LogInState::Start => event is Begin,
        LogInState::AwaitLockout => event is LockoutChecked,
        LogInState::AwaitUser => event matches LogInEvent::UserLoaded(found) && (found matches Ok(
            Some(u),
        ) ==> u.password is Some),
        LogInState::AwaitLog(_) => event is AttemptLogged,
        LogInState::Done => false,
    }
}

/// Whether the sign-in stops the server: the password `password` is
/// accepted for an account with two-factor sign-in on and no address to
/// wait on.
pub open spec fn log_in_stops(event: LogInEvent, password: Seq<char>) -> bool {
    event matches LogInEvent::UserLoaded(Ok(Some(u))) && u.twofa_enabled && u.email is None
        && password_matches(u, password)
}

/// The event that each state of the sign-in waits for, on which the step
/// does not stop the server.
pub open spec fn log_in_expects(state: LogInState, event: LogInEvent, password: Seq<char>) -> bool {
    log_in_shape(state, event) && !log_in_stops(event, password)
}

/// Whether a lookup found an account whose password is `password`.
pub open spec fn login_accepted(found: Result<Option<User>, UserError>, password: Seq<char>) -> bool {
    match found {
        Ok(Some(u)) => password_matches(u, password),
        _ => false,
    }
}

/// What one step of the sign-in form does at time `now`, from the cookies
/// `before` to the cookies `after`, answering `r`.
pub open spec fn log_in_step(
    before: Map<Seq<char>, Seq<char>>,
    after: Map<Seq<char>, Seq<char>>,
    attrs_before: Map<Seq<char>, CookieAttrs>,
    attrs_after: Map<Seq<char>, CookieAttrs>,
    form: LogIn,
    now: i64,
    state: LogInState,
    event: LogInEvent,
    r: (LogInState, LogInAction),
) -> bool {
    &&& (!(event is UserLoaded) ==> after == before && attrs_after == attrs_before)
    &&& (state is Start ==> r == (LogInState::AwaitLockout, LogInAction::CheckLockout))
    &&& (event == LogInEvent::LockoutChecked(Ok(true)) ==> (r.0 is Done && (r.1 matches LogInAction::Respond(f)
            && flashes(f, FlashKind::Error, "/log_in"@, LOCKED_OUT_MSG@))))
    &&& (event matches LogInEvent::LockoutChecked(res) ==> (res != Ok::<bool, UserError>(true)
            ==> r == (LogInState::AwaitUser, LogInAction::LoadUser)))
    &&& (event matches LogInEvent::UserLoaded(found) ==> (login_accepted(found, form.password@) ==> {
            let u = found->Ok_0->Some_0;
            if u.twofa_enabled {
                &&& after == before.insert(TWOFA_EMAIL_COOKIE@, u.email->0@)
                &&& attrs_after == attrs_before.insert(TWOFA_EMAIL_COOKIE@, default_attrs())
                &&& r.0 is Done
                &&& r.1 matches LogInAction::Respond(f) && flashes(
                    f,
                    FlashKind::Warning,
                    "/2fa_verify"@,
                    ENTER_2FA_CODE_MSG@,
                )
            } else {
                &&& after == before.insert(USER_ID_COOKIE@, int_digits(u.id as int))
                &&& attrs_after == attrs_before.insert(USER_ID_COOKIE@, default_attrs())
                &&& r.0 matches LogInState::AwaitLog(f) && flashes(
                    f,
                    FlashKind::Success,
                    "/admine_panel"@,
                    LOGGED_IN_MSG@,
                )
                &&& r.1 matches LogInAction::LogAttempt(a) && logs_attempt(
                    a,
                    form.email@,
                    true,
                    LOCAL_PROVIDER@,
                    now,
                )
            }
        }))
    &&& (event matches LogInEvent::UserLoaded(found) ==> (!login_accepted(found, form.password@) ==> {
            &&& after == before
            &&& attrs_after == attrs_before
            &&& r.0 matches LogInState::AwaitLog(f) && flashes(
                f,
                FlashKind::Error,
                "/log_in"@,
                BAD_CREDENTIALS_MSG@,
            )
            &&& r.1 matches LogInAction::LogAttempt(a) && logs_attempt(
                a,
                form.email@,
                false,
                LOCAL_PROVIDER@,
                now,
            )
        }))
    &&& (state matches LogInState::AwaitLog(f) ==> r == (LogInState::Done, LogInAction::Respond(f)))
}

/// One step of handling the sign-in form at time `now`.
///
/// A locked-out address is sent back with an error: its password is not
/// checked and nothing is logged. A good password for an account with
/// two-factor sign-in stores the account's address in the `email_2fa` cookie
/// and asks for the code, logging nothing yet. A good password otherwise
/// signs in: the `user_id` cookie gets the account's decimal id and a
/// successful attempt is logged. Anything else logs a failed attempt and
/// sends the visitor back with an error.
pub fn post_log_in(
    cookies: &mut CookieJar,
    form: &LogIn,
    now: i64,
    state: LogInState,
    event: LogInEvent,
) -> (r: (LogInState, LogInAction))
    requires
        log_in_expects(state, event, form.password@),
    ensures
        log_in_step(
            old(cookies)@,
            final(cookies)@,
            old(cookies).attributes(),
            final(cookies).attributes(),
            *form,
            now,
            state,
            event,
            r,
        ),
{
    match (state, event) {
        (LogInState::AwaitLockout, LogInEvent::LockoutChecked(res)) => {
            let locked = match res {
                Ok(b) => b,
                Err(_) => false,
            };
            if locked {
                (
                    LogInState::Done,
                    LogInAction::Respond(flash_redirect(FlashKind::Error, "/log_in", LOCKED_OUT_MSG)),
                )
            } else {
                (LogInState::AwaitUser, LogInAction::LoadUser)
            }
        },
        (LogInState::AwaitUser, LogInEvent::UserLoaded(found)) => match log_in_user(found, form) {
            Ok(user) => {
                if user.twofa_enabled {
                    let user_email = match user.email {
                        Some(e) => e,
                        None => String::new(),
                    };
                    cookies.add_private(TWOFA_EMAIL_COOKIE, user_email);
                    return (
                        LogInState::Done,
                        LogInAction::Respond(
                            flash_redirect(FlashKind::Warning, "/2fa_verify", ENTER_2FA_CODE_MSG),
                        ),
                    );
                }
                cookies.add_private(USER_ID_COOKIE, decimal_i32(user.id));
                let attempt = local_attempt(form.email.as_str(), true, LOCAL_PROVIDER, now);
                (
                    LogInState::AwaitLog(flash_redirect(FlashKind::Success, "/admine_panel", LOGGED_IN_MSG)),
                    LogInAction::LogAttempt(attempt),
                )
            },
            Err(_) => {
                let attempt = local_attempt(form.email.as_str(), false, LOCAL_PROVIDER, now);
                (
                    LogInState::AwaitLog(flash_redirect(FlashKind::Error, "/log_in", BAD_CREDENTIALS_MSG)),
                    LogInAction::LogAttempt(attempt),
                )
            },
        },
        (LogInState::AwaitLog(f), _) => (LogInState::Done, LogInAction::Respond(f)),
        (_, _) => (LogInState::AwaitLockout, LogInAction::CheckLockout),
    }
}

/// One step of handling the sign-in form, for a caller that has not checked
/// the password: `None` where the step stops the server, which is when the
/// password is accepted for an account with two-factor sign-in on and no
/// address; otherwise the step of `post_log_in`.
pub fn post_log_in_checked(
    cookies: &mut CookieJar,
    form: &LogIn,
    now: i64,
    state: LogInState,
    event: LogInEvent,
) -> (r: Option<(LogInState, LogInAction)>)
    requires
        log_in_shape(state, event),
    ensures
        r is None <==> log_in_stops(event, form.password@),
        r is None ==> final(cookies)@ == old(cookies)@ && final(cookies).attributes() == old(cookies).attributes(),
        r matches Some(step) ==> log_in_step(
            old(cookies)@,
            final(cookies)@,
            old(cookies).attributes(),
            final(cookies).attributes(),
            *form,
            now,
            state,
            event,
            step,
        ),
{
    let stops = match &event {
        LogInEvent::UserLoaded(Ok(Some(u))) => {
            if u.twofa_enabled && u.email.is_none() {
                match &u.password {
                    Some(h) => verify_secret(form.password.as_str(), h.as_str()),
                    None => false,
                }
            } else {
                false
            }
        },
        _ => false,
    };
    if stops {
        return None;
    }
    Some(post_log_in(cookies, form, now, state, event))
}

/// The value of the cookie `name`, or an empty text without one.
fn cookie_or_empty(cookies: &CookieJar, name: &str) -> (value: String)
    ensures
        cookies@.contains_key(name@) ==> value@ == cookies@[name@],
        !cookies@.contains_key(name@) ==> value@.len() == 0,
{
    match cookies.get_private(name) {
        Some(v) => v,
        None => String::new(),
    }
}

/// The address of a sign-in waiting for its second factor, or an empty text.
pub fn two_factor_email(cookies: &CookieJar) -> (email: String)
    ensures
        cookies@.contains_key(TWOFA_EMAIL_COOKIE@) ==> email@ == cookies@[TWOFA_EMAIL_COOKIE@],
        !cookies@.contains_key(TWOFA_EMAIL_COOKIE@) ==> email@.len() == 0,
{
    cookie_or_empty(cookies, TWOFA_EMAIL_COOKIE)
}

/// Where a page that makes sure a code was mailed stands: the page of the
/// second factor, or the page that confirms an address. The states carry
/// the address that the code goes to.
#[derive(Clone, Debug, PartialEq, Eq)]
pub enum CodePageState {
    Start,
    AwaitUser(String),
    AwaitPending(String),
    AwaitMail,
    Done,
}

/// What the server reports back to such a page.
#[derive(Debug, PartialEq, Eq)]
pub enum CodePageEvent {
    Begin,
    /// The account of the address; a failed lookup counts as none.
    UserLoaded(Option<User>),
    /// The lookup of the hash of the code pending for the address.
    PendingChecked(Result<String, UserError>),
    /// A fresh code was mailed.
    CodeSent(Result<(), UserError>),
}

/// What such a page asks the server to do next.
#[derive(Debug, PartialEq, Eq)]
pub enum CodePageAction {
    /// Look up the account of this address.
    LoadUser(String),
    /// Look up the code pending for this address.
    CheckPending(String),
    /// Mail a fresh code to this address, under this subject.
    SendCode(String, String),
    /// Show the page.
    Render,
    /// Send the visitor elsewhere.
    Refuse(FlashRedirect),
}

/// The event that each state of such a page waits for. Mailing the code may
/// not fail: the server stops when it does.
pub open spec fn code_page_expects(state: CodePageState, event: CodePageEvent) -> bool {
    match state {
        CodePageState::Start => event is Begin,
        CodePageState::AwaitUser(_) => event is UserLoaded,
        CodePageState::AwaitPending(_) => event is PendingChecked,
        CodePageState::AwaitMail => event matches CodePageEvent::CodeSent(Ok(_)),
        CodePageState::Done => false,
    }
}

/// What such a page does once it knows which address a code goes to: a code
/// is mailed only if none is pending, and then the page is shown.
pub open spec fn mails_code_unless_pending(
    state: CodePageState,
    event: CodePageEvent,
    r: (CodePageState, CodePageAction),
) -> bool {
    &&& state matches CodePageState::AwaitPending(email) ==> (event matches CodePageEvent::PendingChecked(
        lookup,
    ) ==> if lookup is Ok {
        r == (CodePageState::Done, CodePageAction::Render)
    } else {
        r.0 is AwaitMail && (r.1 matches CodePageAction::SendCode(to, subject) && to == email
            && subject@ == ACTIVATION_SUBJECT@)
    })
    &&& state is AwaitMail ==> r == (CodePageState::Done, CodePageAction::Render)
}

fn code_page_pending_step(state: CodePageState, event: CodePageEvent) -> (r: (
    CodePageState,
    CodePageAction,
))
    requires
        state is AwaitPending || state is AwaitMail,
        code_page_expects(state, event),
    ensures
        mails_code_unless_pending(state, event, r),
{
    match (state, event) {
        (CodePageState::AwaitPending(email), CodePageEvent::PendingChecked(lookup)) => {
            if have_token(&lookup) {
                (CodePageState::Done, CodePageAction::Render)
            } else {
                (CodePageState::AwaitMail, CodePageAction::SendCode(email, ACTIVATION_SUBJECT.to_string()))
            }
        },
        (_, _) => (CodePageState::Done, CodePageAction::Render),
    }
}

/// One step of showing the second-factor page. The waiting address is read
/// from the `email_2fa` cookie (an empty text without one); when its account
/// exists and has two-factor sign-in on, a code is mailed to it unless one is
/// pending; then the page is shown.
pub fn email_2fa_verify(cookies: &CookieJar, state: CodePageState, event: CodePageEvent) -> (r: (
    CodePageState,
    CodePageAction,
))
    requires
        code_page_expects(state, event),
    ensures
        state is Start ==> {
            let email = if cookies@.contains_key(TWOFA_EMAIL_COOKIE@) {
                cookies@[TWOFA_EMAIL_COOKIE@]
            } else {
                Seq::<char>::empty()
            };
            r.0 matches CodePageState::AwaitUser(e) && e@ == email && r.1 == CodePageAction::LoadUser(e)
        },
        state matches CodePageState::AwaitUser(email) ==> (event matches CodePageEvent::UserLoaded(found)
            ==> if found matches Some(u) && u.twofa_enabled {
            r == (CodePageState::AwaitPending(email), CodePageAction::CheckPending(email))
        } else {
            r == (CodePageState::Done, CodePageAction::Render)
        }),
        mails_code_unless_pending(state, event, r),
{
    match (state, event) {
        (CodePageState::Start, _) => {
            let email = two_factor_email(cookies);
            (CodePageState::AwaitUser(email.clone()), CodePageAction::LoadUser(email))
        },
        (CodePageState::AwaitUser(email), CodePageEvent::UserLoaded(found)) => {
            let needed = match &found {
                Some(u) => u.twofa_enabled,
                None => false,
            };
            if needed {
                (CodePageState::AwaitPending(email.clone()), CodePageAction::CheckPending(email))
            } else {
                (CodePageState::Done, CodePageAction::Render)
            }
        },
        (state, event) => code_page_pending_step(state, event),
    }
}

/// Where the handling of the second-factor form stands. The states carry
/// the waiting address, then the account and where the check of its code
/// stands, and the last state before the answer carries it while the
/// attempt is logged.
#[derive(Clone, Debug, PartialEq, Eq)]
pub enum TwoFactorState {
    Start,
    AwaitUser(String),
    Checking(User, String, CodeCheckState),
    AwaitLog(FlashRedirect),
    Done,
}

/// What the server reports back while handling the second-factor form.
#[derive(Debug, PartialEq, Eq)]
pub enum TwoFactorEvent {
    Begin,
    /// The account of the waiting address, if any.
    UserLoaded(Option<User>),
    /// What the server reports back to the check of the typed code.
    Check(CodeCheckEvent),
    /// The attempt was handed to the log; its failure is only reported.
    AttemptLogged,
}

/// What the handling of the second-factor form asks the server to do next.
#[derive(Debug, PartialEq, Eq)]
pub enum TwoFactorAction {
    /// Look up the account of this address.
    LoadUser(String),
    /// What the check of the typed code asks for.
    Check(CodeCheckAction),
    LogAttempt(NewLoginAttempt),
    Respond(FlashRedirect),
}

/// The event that each state of the second-factor form waits for.
pub open spec fn two_factor_expects(state: TwoFactorState, event: TwoFactorEvent) -> bool {
    match state {
        TwoFactorState::Start => event is Begin,
        TwoFactorState::AwaitUser(_) => event is UserLoaded,
        TwoFactorState::Checking(_, _, cs) => event matches TwoFactorEvent::Check(ev) && code_check_expects(
            cs,
            ev,
        ) && !(cs is AwaitUpdate),
        TwoFactorState::AwaitLog(_) => event is AttemptLogged,
        TwoFactorState::Done => false,
    }
}

/// What the second-factor form does with one step `inner` of the check of
/// the code for the account `u` waiting at `email`, at time `now`: a
/// successful check signs the account in (the `user_id` cookie gets its
/// decimal id) and logs a successful attempt; a failed check logs a failed
/// attempt and sends the visitor back; until then the check goes on.
pub open spec fn two_factor_outcome(
    before: Map<Seq<char>, Seq<char>>,
    after: Map<Seq<char>, Seq<char>>,
    attrs_before: Map<Seq<char>, CookieAttrs>,
    attrs_after: Map<Seq<char>, CookieAttrs>,
    u: User,
    email: String,
    now: i64,
    inner: (CodeCheckState, CodeCheckAction),
    r: (TwoFactorState, TwoFactorAction),
) -> bool {
    if inner.1 matches CodeCheckAction::Finish(Ok(_)) {
        &&& after == before.insert(USER_ID_COOKIE@, int_digits(u.id as int))
        &&& attrs_after == attrs_before.insert(USER_ID_COOKIE@, default_attrs())
        &&& r.0 matches TwoFactorState::AwaitLog(f) && flashes(
            f,
            FlashKind::Success,
            "/admine_panel"@,
            TWOFA_PASSED_MSG@,
        )
        &&& r.1 matches TwoFactorAction::LogAttempt(a) && logs_attempt(
            a,
            email@,
            true,
            LOCAL_PROVIDER@,
            now,
        )
    } else if inner.1 matches CodeCheckAction::Finish(Err(_)) {
        &&& after == before
        &&& attrs_after == attrs_before
        &&& r.0 matches TwoFactorState::AwaitLog(f) && flashes(
            f,
            FlashKind::Error,
            "/2fa_verify"@,
            BAD_CODE_MSG@,
        )
        &&& r.1 matches TwoFactorAction::LogAttempt(a) && logs_attempt(
            a,
            email@,
            false,
            LOCAL_PROVIDER@,
            now,
        )
    } else {
        &&& after == before
        &&& attrs_after == attrs_before
        &&& r == (TwoFactorState::Checking(u, email, inner.0), TwoFactorAction::Check(inner.1))
    }
}

/// One step of handling the second-factor form with the typed code `token`
/// at time `now`.
///
/// The waiting address is read from the `email_2fa` cookie (an empty text
/// without one). An unknown account is sent to the sign-in page. Otherwise
/// the code is checked as `email_2fa` does: it signs the account in only once
/// it matched and the account's codes were deleted; a refused code deletes
/// nothing, logs a failed attempt and sends the visitor back.
pub fn post_email_2fa_verify(
    cookies: &mut CookieJar,
    token: &str,
    now: i64,
    state: TwoFactorState,
    event: TwoFactorEvent,
) -> (r: (TwoFactorState, TwoFactorAction))
    requires
        two_factor_expects(state, event),
    ensures
        !(state is Checking) ==> final(cookies)@ == old(cookies)@ && final(cookies).attributes() == old(cookies).attributes(),
        state is Start ==> {
            let email = if old(cookies)@.contains_key(TWOFA_EMAIL_COOKIE@) {
                old(cookies)@[TWOFA_EMAIL_COOKIE@]
            } else {
                Seq::<char>::empty()
            };
            r.0 matches TwoFactorState::AwaitUser(e) && e@ == email && r.1 == TwoFactorAction::LoadUser(e)
        },
        state matches TwoFactorState::AwaitUser(email) ==> (event == TwoFactorEvent::UserLoaded(None)
            ==> r.0 is Done && (r.1 matches TwoFactorAction::Respond(f) && flashes(
            f,
            FlashKind::Error,
            "/log_in"@,
            USER_NOT_FOUND_MSG@,
        ))),
        state matches TwoFactorState::AwaitUser(email) ==> (event matches TwoFactorEvent::UserLoaded(
            Some(u),
        ) ==> r == (
            TwoFactorState::Checking(u, email, CodeCheckState::AwaitUser),
            TwoFactorAction::Check(CodeCheckAction::LoadUser(u.id)),
        )),
        state matches TwoFactorState::Checking(u, email, cs) ==> (event matches TwoFactorEvent::Check(ev)
            ==> exists|inner: (CodeCheckState, CodeCheckAction)|
            {
                &&& #[trigger] code_check_judges(token@, u.id, cs, ev, inner)
                &&& (cs is AwaitDeletion ==> inner == (
                    CodeCheckState::Done,
                    CodeCheckAction::Finish(Ok(())),
                ))
                &&& two_factor_outcome(
                    old(cookies)@,
                    final(cookies)@,
                    old(cookies).attributes(),
                    final(cookies).attributes(),
                    u,
                    email,
                    now,
                    inner,
                    r,
                )
            }),
        state matches TwoFactorState::AwaitLog(f) ==> r == (TwoFactorState::Done, TwoFactorAction::Respond(f)),
{
    match (state, event) {
        (TwoFactorState::Start, _) => {
            let email = two_factor_email(cookies);
            (TwoFactorState::AwaitUser(email.clone()), TwoFactorAction::LoadUser(email))
        },
        (TwoFactorState::AwaitUser(email), TwoFactorEvent::UserLoaded(found)) => match found {
            None => (
                TwoFactorState::Done,
                TwoFactorAction::Respond(flash_redirect(FlashKind::Error, "/log_in", USER_NOT_FOUND_MSG)),
            ),
            Some(user) => {
                let (cs, ca) = email_2fa(token, user.id, CodeCheckState::Start, CodeCheckEvent::Begin);
                (TwoFactorState::Checking(user, email, cs), TwoFactorAction::Check(ca))
            },
        },
        (TwoFactorState::Checking(user, email, cs), TwoFactorEvent::Check(ev)) => {
            let ghost g_cs = cs;
            let ghost g_ev = ev;
            let inner = email_2fa(token, user.id, cs, ev);
            proof {
                assert(code_check_judges(token@, user.id, g_cs, g_ev, inner));
            }
            let (cs2, ca2) = inner;
            match ca2 {
                CodeCheckAction::Finish(Ok(_)) => {
                    cookies.add_private(USER_ID_COOKIE, decimal_i32(user.id));
                    let attempt = local_attempt(email.as_str(), true, LOCAL_PROVIDER, now);
                    (
                        TwoFactorState::AwaitLog(
                            flash_redirect(FlashKind::Success, "/admine_panel", TWOFA_PASSED_MSG),
                        ),
                        TwoFactorAction::LogAttempt(attempt),
                    )
                },
                CodeCheckAction::Finish(Err(_)) => {
                    let attempt = local_attempt(email.as_str(), false, LOCAL_PROVIDER, now);
                    (
                        TwoFactorState::AwaitLog(flash_redirect(FlashKind::Error, "/2fa_verify", BAD_CODE_MSG)),
                        TwoFactorAction::LogAttempt(attempt),
                    )
                },
                other => (TwoFactorState::Checking(user, email, cs2), TwoFactorAction::Check(other)),
            }
        },
        (TwoFactorState::AwaitLog(f), _) => (TwoFactorState::Done, TwoFactorAction::Respond(f)),
        (_, _) => (
            TwoFactorState::Done,
            TwoFactorAction::Respond(flash_redirect(FlashKind::Error, "/log_in", USER_NOT_FOUND_MSG)),
        ),
    }
}

/// The answer to the registration form: the sign-in page on success, else
/// the registration page with the error's text after a fixed prefix.
pub fn post_register(result: Result<(), UserError>) -> (r: FlashRedirect)
    ensures
        result is Ok ==> flashes(r, FlashKind::Success, "/log_in"@, REGISTERED_MSG@),
        result matches Err(e) ==> flashes(
            r,
            FlashKind::Error,
            "/register"@,
            REGISTER_FAILED_PREFIX@ + error_text(e),
        ),
{
    match result {
        Ok(_) => flash_redirect(FlashKind::Success, "/log_in", REGISTERED_MSG),
        Err(e) => {
            let mut message = REGISTER_FAILED_PREFIX.to_string();
            let text = e.message();
            push_str(&mut message, text.as_str());
            FlashRedirect {
                flash: Flash { kind: FlashKind::Error, message },
                to: "/register".to_string(),
            }
        },
    }
}

/// Whether a session belongs to a signed-in account: there is one, with an id other than 0.
pub open spec fn signed_in(session: Option<UserDTO>) -> bool {
    session matches Some(s) && s.id != 0
}

/// The switch of two-factor sign-in: without a signed-in account, the sign-in
/// page and nothing to switch; otherwise the account to switch and the admin panel.
pub fn toggle_2fa(session: Option<UserDTO>) -> (r: (Redirect, Option<i32>))
    ensures
        !signed_in(session) ==> r.0.to@ == "/log_in"@ && r.1 is None,
        signed_in(session) ==> r.0.to@ == "/admine_panel"@ && r.1 == Some(session->0.id),
{
    match session {
        Some(s) => if s.id == 0 {
            (redirect("/log_in"), None)
        } else {
            (redirect("/admine_panel"), Some(s.id))
        },
        None => (redirect("/log_in"), None),
    }
}

/// The admin panel: without a signed-in account, the sign-in page with an
/// error; otherwise the account to show and a welcome flash.
pub fn admine_panel(session: Option<UserDTO>) -> (r: Result<(UserDTO, Flash), FlashRedirect>)
    ensures
        !signed_in(session) ==> (r matches Err(f) && flashes(
            f,
            FlashKind::Error,
            "/log_in"@,
            SIGN_IN_FIRST_MSG@,
        )),
        signed_in(session) ==> (r matches Ok((dto, flash)) && dto == session->0 && flash.kind
            == FlashKind::Success && flash.message@ == WELCOME_MSG@),
{
    match session {
        Some(s) => if s.id == 0 {
            Err(flash_redirect(FlashKind::Error, "/log_in", SIGN_IN_FIRST_MSG))
        } else {
            Ok((s, Flash { kind: FlashKind::Success, message: WELCOME_MSG.to_string() }))
        },
        None => Err(flash_redirect(FlashKind::Error, "/log_in", SIGN_IN_FIRST_MSG)),
    }
}

/// One step of showing the e-mail confirmation page: without a session, the
/// sign-in page; for an active account, the admin panel; otherwise a code is
/// mailed to the account's address unless one is pending, and the page is shown.
pub fn email_verify(session: &Option<UserDTO>, state: CodePageState, event: CodePageEvent) -> (r: (
    CodePageState,
    CodePageAction,
))
    requires
        code_page_expects(state, event),
        !(state is AwaitUser),
    ensures
        state is Start && session is None ==> r.0 is Done && (r.1 matches CodePageAction::Refuse(f)
            && flashes(f, FlashKind::Error, "/log_in"@, SIGN_IN_FIRST_MSG@)),
        state is Start && (session matches Some(s) && s.is_active) ==> r.0 is Done && (r.1
            matches CodePageAction::Refuse(f) && flashes(
            f,
            FlashKind::Error,
            "/admine_panel"@,
            ALREADY_ACTIVE_MSG@,
        )),
        state is Start && (session matches Some(s) && !s.is_active) ==> r == (
            CodePageState::AwaitPending(session->0.email),
            CodePageAction::CheckPending(session->0.email),
        ),
        mails_code_unless_pending(state, event, r),
{
    match state {
        CodePageState::Start => match session {
            None => (
                CodePageState::Done,
                CodePageAction::Refuse(flash_redirect(FlashKind::Error, "/log_in", SIGN_IN_FIRST_MSG)),
            ),
            Some(s) => if s.is_active {
                (
                    CodePageState::Done,
                    CodePageAction::Refuse(
                        flash_redirect(FlashKind::Error, "/admine_panel", ALREADY_ACTIVE_MSG),
                    ),
                )
            } else {
                (CodePageState::AwaitPending(s.email.clone()), CodePageAction::CheckPending(s.email.clone()))
            },
        },
        state => code_page_pending_step(state, event),
    }
}

/// The answer to the e-mail confirmation form, given the outcome of the activation.
pub fn post_email_verify(result: Result<(), UserError>) -> (r: FlashRedirect)
    ensures
        result is Ok ==> flashes(r, FlashKind::Success, "/admine_panel"@, EMAIL_CONFIRMED_MSG@),
        result is Err ==> flashes(r, FlashKind::Error, "/email_verify"@, BAD_TOKEN_MSG@),
{
    match result {
        Ok(_) => flash_redirect(FlashKind::Success, "/admine_panel", EMAIL_CONFIRMED_MSG),
        Err(_) => flash_redirect(FlashKind::Error, "/email_verify", BAD_TOKEN_MSG),
    }
}

/// Where a request for a reset code stands; the state after the request
/// carries the address the code went to.
#[derive(Clone, Debug, PartialEq, Eq)]
pub enum ResetRequestState {
    Start,
    AwaitCode(String),
    Done,
}

/// What the server reports back to a request for a reset code.
#[derive(Debug, PartialEq, Eq)]
pub enum ResetRequestEvent {
    Begin,
    /// The outcome of mailing the code.
    CodeSent(Result<(), UserError>),
}

/// What a request for a reset code asks the server to do next.
#[derive(Debug, PartialEq, Eq)]
pub enum ResetRequestAction {
    /// Mail a fresh code to this address, under this subject.
    SendCode(String, String),
    Respond(Redirect),
}

/// The event that each state of a request for a reset code waits for.
pub open spec fn reset_request_expects(state: ResetRequestState, event: ResetRequestEvent) -> bool {
    match state {
        ResetRequestState::Start => event is Begin,
        ResetRequestState::AwaitCode(_) => event is CodeSent,
        ResetRequestState::Done => false,
    }
}

/// One step of a request for a reset code for `email`: a code is mailed to
/// the address under the subject `Reset password`; once it was sent, the
/// address is kept in the `reset_email` cookie (with the jar's default
/// attributes) and the visitor goes to the reset form; otherwise back to the
/// request page, with the cookies unchanged.
pub fn creat_resets_token(
    cookies: &mut CookieJar,
    email: &String,
    state: ResetRequestState,
    event: ResetRequestEvent,
) -> (r: (ResetRequestState, ResetRequestAction))
    requires
        reset_request_expects(state, event),
    ensures
        state is Start ==> (r.0 == ResetRequestState::AwaitCode(*email) && (r.1
            matches ResetRequestAction::SendCode(to, subject) && to == *email && subject@
            == RESET_SUBJECT@)),
        !(event matches ResetRequestEvent::CodeSent(Ok(_))) ==> final(cookies)@ == old(cookies)@
            && final(cookies).attributes() == old(cookies).attributes(),
        state matches ResetRequestState::AwaitCode(e) ==> (event matches ResetRequestEvent::CodeSent(
            Ok(_),
        ) ==> final(cookies)@ == old(cookies)@.insert(RESET_EMAIL_COOKIE@, e@) && final(cookies).attributes() == old(cookies).attributes().insert(RESET_EMAIL_COOKIE@, default_attrs())
            && r.0 is Done && (r.1 matches ResetRequestAction::Respond(to) && to.to@
            == "/password_resets"@)),
        event matches ResetRequestEvent::CodeSent(Err(_)) ==> r.0 is Done && (r.1
            matches ResetRequestAction::Respond(to) && to.to@ == "/user_verify"@),
{
    match (state, event) {
        (ResetRequestState::AwaitCode(e), ResetRequestEvent::CodeSent(sent)) => match sent {
            Ok(_) => {
                cookies.add_private(RESET_EMAIL_COOKIE, e);
                (ResetRequestState::Done, ResetRequestAction::Respond(redirect("/password_resets")))
            },
            Err(_) => (ResetRequestState::Done, ResetRequestAction::Respond(redirect("/user_verify"))),
        },
        (_, _) => (
            ResetRequestState::AwaitCode(email.clone()),
            ResetRequestAction::SendCode(email.clone(), RESET_SUBJECT.to_string()),
        ),
    }
}

/// The address of the pending password reset: without a `reset_email`
/// cookie, or with an empty one, the request page with an error.
pub fn reset_email(cookies: &CookieJar) -> (r: Result<String, FlashRedirect>)
    ensures
        r is Ok <==> (cookies@.contains_key(RESET_EMAIL_COOKIE@)
            && cookies@[RESET_EMAIL_COOKIE@].len() > 0),
        r matches Ok(e) ==> e@ == cookies@[RESET_EMAIL_COOKIE@],
        r matches Err(f) ==> flashes(f, FlashKind::Error, "/user_verify"@, NO_RESET_MSG@),
{
    let email = cookie_or_empty(cookies, RESET_EMAIL_COOKIE);
    if email.as_str().is_empty() {
        return Err(flash_redirect(FlashKind::Error, "/user_verify", NO_RESET_MSG));
    }
    Ok(email)
}

/// Where the handling of the password reset form stands.
#[derive(Clone, Debug, PartialEq, Eq)]
pub enum PasswordResetState {
    Start,
    AwaitReset,
    Done,
}

/// What the server reports back to the password reset form.
#[derive(Debug, PartialEq, Eq)]
pub enum PasswordResetEvent {
    Begin,
    /// The outcome of the reset.
    ResetFinished(Result<(), UserError>),
}

/// What the password reset form asks the server to do next.
#[derive(Debug, PartialEq, Eq)]
pub enum PasswordResetAction {
    /// Reset the password of the account with this address.
    RunReset(String),
    Respond(FlashRedirect),
}

/// The event that each state of the password reset form waits for.
pub open spec fn password_reset_expects(state: PasswordResetState, event: PasswordResetEvent) -> bool {
    match state {
        PasswordResetState::Start => event is Begin,
        PasswordResetState::AwaitReset => event is ResetFinished,
        PasswordResetState::Done => false,
    }
}

/// One step of handling the password reset form. Without a `reset_email`
/// cookie, or with an empty one, the visitor goes to the request page with
/// an error, no reset runs and the cookies stay as they are. Otherwise the
/// reset runs for that address; on success the `reset_email` cookie is
/// removed and the visitor goes to the sign-in page, on failure back to the
/// reset form with the cookies unchanged.
pub fn post_password_resets(
    cookies: &mut CookieJar,
    state: PasswordResetState,
    event: PasswordResetEvent,
) -> (r: (PasswordResetState, PasswordResetAction))
    requires
        password_reset_expects(state, event),
    ensures
        !(event matches PasswordResetEvent::ResetFinished(Ok(_))) ==> final(cookies)@ == old(cookies)@
            && final(cookies).attributes() == old(cookies).attributes(),
        state is Start ==> if old(cookies)@.contains_key(RESET_EMAIL_COOKIE@) && old(cookies)@[RESET_EMAIL_COOKIE@].len() > 0 {
            r.0 is AwaitReset && (r.1 matches PasswordResetAction::RunReset(e) && e@ == old(cookies)@[RESET_EMAIL_COOKIE@])
        } else {
            r.0 is Done && (r.1 matches PasswordResetAction::Respond(f) && flashes(
                f,
                FlashKind::Error,
                "/user_verify"@,
                NO_RESET_MSG@,
            ))
        },
        event matches PasswordResetEvent::ResetFinished(Ok(_)) ==> final(cookies)@ == old(cookies)@.remove(RESET_EMAIL_COOKIE@) && final(cookies).attributes() == old(cookies).attributes().remove(RESET_EMAIL_COOKIE@) && r.0 is Done && (r.1
            matches PasswordResetAction::Respond(f) && flashes(
            f,
            FlashKind::Success,
            "/log_in"@,
            PASSWORD_CHANGED_MSG@,
        )),
        event matches PasswordResetEvent::ResetFinished(Err(_)) ==> r.0 is Done && (r.1
            matches PasswordResetAction::Respond(f) && flashes(
            f,
            FlashKind::Error,
            "/password_resets"@,
            RESET_FAILED_MSG@,
        )),
{
    match (state, event) {
        (PasswordResetState::AwaitReset, PasswordResetEvent::ResetFinished(result)) => match result {
            Ok(_) => {
                cookies.remove_private(RESET_EMAIL_COOKIE);
                (
                    PasswordResetState::Done,
                    PasswordResetAction::Respond(
                        flash_redirect(FlashKind::Success, "/log_in", PASSWORD_CHANGED_MSG),
                    ),
                )
            },
            Err(_) => (
                PasswordResetState::Done,
                PasswordResetAction::Respond(
                    flash_redirect(FlashKind::Error, "/password_resets", RESET_FAILED_MSG),
                ),
            ),
        },
        (_, _) => match reset_email(cookies) {
            Ok(e) => (PasswordResetState::AwaitReset, PasswordResetAction::RunReset(e)),
            Err(f) => (PasswordResetState::Done, PasswordResetAction::Respond(f)),
        },
    }
}

/// One address from the list that GitHub shows of an account.
#[derive(Clone, Debug, PartialEq, Eq)]
pub struct GithubEmail {
    /// The address, when the entry holds a text.
    pub email: Option<String>,
    /// Whether the entry is marked primary; an entry without the mark is not.
    pub primary: bool,
}

/// The address of the first entry marked primary, if there is such an
/// entry and it holds one.
pub open spec fn primary_address(emails: Seq<GithubEmail>) -> Option<String> {
    if exists|i: int| 0 <= i < emails.len() && (#[trigger] emails[i]).primary {
        let first = choose|i: int|
            0 <= i < emails.len() && (#[trigger] emails[i]).primary && forall|j: int|
                0 <= j < i ==> !(#[trigger] emails[j]).primary;
        emails[first].email
    } else {
        None
    }
}

/// The address of the first entry marked primary, if there is such an entry and it holds one.
pub fn primary_email(emails: &Vec<GithubEmail>) -> (r: Option<String>)
    ensures
        r == primary_address(emails@),
{
    let mut i: usize = 0;
    while i < emails.len()
        invariant
            i <= emails@.len(),
            forall|j: int| 0 <= j < i ==> !(#[trigger] emails@[j]).primary,
        decreases emails@.len() - i,
    {
        if emails[i].primary {
            let r = emails[i].email.clone();
            proof {
                let first = choose|k: int|
                    0 <= k < emails@.len() && (#[trigger] emails@[k]).primary && forall|j: int|
                        0 <= j < k ==> !(#[trigger] emails@[j]).primary;
                assert(0 <= i < emails@.len() && emails@[i as int].primary && forall|j: int|
                    0 <= j < i ==> !(#[trigger] emails@[j]).primary);
                assert(first == i) by {
                    if first < i {
                        assert(!emails@[first].primary);
                    } else if first > i {
                        assert(!emails@[i as int].primary);
                    }
                }
            }
            return r;
        }
        i = i + 1;
    }
    None
}

/// The address of a GitHub account whose profile shows none: its primary
/// address, else its decimal id followed by `@github.local`.
pub open spec fn github_address(primary: Option<String>, github_id: i64) -> Seq<char> {
    match primary {
        Some(p) => p@,
        None => int_digits(github_id as int) + GITHUB_FALLBACK_DOMAIN@,
    }
}

/// The address of a GitHub account: the address of its profile, else its
/// primary address, else its decimal id followed by `@github.local`.
pub fn github_email(profile: Option<String>, primary: Option<String>, github_id: i64) -> (email:
    String)
    ensures
        profile matches Some(p) ==> email == p,
        profile is None ==> email@ == github_address(primary, github_id),
{
    match profile {
        Some(p) => p,
        None => match primary {
            Some(p) => p,
            None => {
                let mut e = decimal_i64(github_id);
                push_str(&mut e, GITHUB_FALLBACK_DOMAIN);
                e
            },
        },
    }
}

/// The attributes of the `user_id` cookie that a sign-in through GitHub
/// sets: not readable by scripts, and sent along from other sites only on
/// top-level navigation.
pub open spec fn github_cookie_attrs() -> CookieAttrs {
    CookieAttrs { http_only: Some(true), same_site: Some(SameSite::Lax) }
}

/// Whether `n` is the account that a sign-in through GitHub creates for the
/// GitHub id written `github_id` and the address `email`: active, without a
/// password, with the provider `github` and that id.
pub open spec fn is_new_github_user(n: NewUser, github_id: Seq<char>, email: Seq<char>) -> bool {
    &&& n.email matches Some(e) && e@ == email
    &&& n.password is None
    &&& n.is_active
    &&& n.oauth_provider matches Some(p) && p@ == "github"@
    &&& n.oauth_id matches Some(t) && t@ == github_id
}

/// Where a sign-in through GitHub stands. The states carry the GitHub id,
/// then the address chosen for the account.
#[derive(Clone, Debug, PartialEq, Eq)]
pub enum GithubState {
    Start,
    AwaitProfile,
    AwaitEmails(i64),
    AwaitAccount(i64, String),
    AwaitInsert(String),
    AwaitLog,
    Done,
}

/// What the server reports back during a sign-in through GitHub.
#[derive(Debug, PartialEq, Eq)]
pub enum GithubEvent {
    Begin,
    /// The profile of the GitHub account: its id, and its address if it shows one.
    ProfileLoaded(i64, Option<String>),
    /// The list of addresses of the GitHub account.
    EmailsLoaded(Vec<GithubEmail>),
    /// The account stored for the GitHub id, if the lookup found one.
    AccountFound(Result<Option<User>, UserError>),
    /// The account that was created.
    AccountInserted(User),
    /// The attempt was handed to the log; its failure is only reported.
    AttemptLogged,
}

/// What a sign-in through GitHub asks the server to do next.
#[derive(Debug, PartialEq, Eq)]
pub enum GithubAction {
    /// Fetch the profile of the GitHub account.
    LoadProfile,
    /// Fetch the list of addresses of the GitHub account.
    LoadEmails,
    /// Look up the account stored for the GitHub id written so.
    FindAccount(String),
    /// Create this account.
    InsertAccount(NewUser),
    LogAttempt(NewLoginAttempt),
    Respond(Redirect),
}

/// The event that each state of a sign-in through GitHub waits for.
pub open spec fn github_expects(state: GithubState, event: GithubEvent) -> bool {
    match state {
        GithubState::Start => event is Begin,
        GithubState::AwaitProfile => event is ProfileLoaded,
        GithubState::AwaitEmails(_) => event is EmailsLoaded,
        GithubState::AwaitAccount(_, _) => event is AccountFound,
        GithubState::AwaitInsert(_) => event is AccountInserted,
        GithubState::AwaitLog => event is AttemptLogged,
        GithubState::Done => false,
    }
}

/// Whether a step signs the account `user_id` in through GitHub for the
/// address `email` at time `now`: the `user_id` cookie gets the account's
/// decimal id with the attributes of `github_cookie_attrs`, and a
/// successful attempt is logged with the provider `GitHub`.
pub open spec fn github_signs_in(
    before: Map<Seq<char>, Seq<char>>,
    after: Map<Seq<char>, Seq<char>>,
    attrs_before: Map<Seq<char>, CookieAttrs>,
    attrs_after: Map<Seq<char>, CookieAttrs>,
    user_id: i32,
    email: Seq<char>,
    now: i64,
    r: (GithubState, GithubAction),
) -> bool {
    &&& after == before.insert(USER_ID_COOKIE@, int_digits(user_id as int))
    &&& attrs_after == attrs_before.insert(USER_ID_COOKIE@, github_cookie_attrs())
    &&& r.0 is AwaitLog
    &&& r.1 matches GithubAction::LogAttempt(a) && logs_attempt(a, email, true, GITHUB_PROVIDER@, now)
}

/// What one step of a sign-in through GitHub does at time `now`, from the
/// cookies `before` (with attributes `attrs_before`) to the cookies `after`
/// (with `attrs_after`), answering `r`.
///
/// The profile is fetched first; the list of addresses is fetched only when
/// the profile shows no address. The address is the profile's, else the
/// first primary one of the list, else the decimal id followed by
/// `@github.local`. The account stored for the GitHub id is signed in; when
/// the lookup finds none, or fails, an account is created and signed in.
/// Then the visitor goes to the admin panel.
pub open spec fn github_step(
    before: Map<Seq<char>, Seq<char>>,
    after: Map<Seq<char>, Seq<char>>,
    attrs_before: Map<Seq<char>, CookieAttrs>,
    attrs_after: Map<Seq<char>, CookieAttrs>,
    now: i64,
    state: GithubState,
    event: GithubEvent,
    r: (GithubState, GithubAction),
) -> bool {
    &&& (!(event is AccountInserted) && !(event matches GithubEvent::AccountFound(Ok(Some(_)))))
        ==> after == before && attrs_after == attrs_before
    &&& state is Start ==> r == (GithubState::AwaitProfile, GithubAction::LoadProfile)
    &&& event matches GithubEvent::ProfileLoaded(id, Some(e)) ==> (r.0 == GithubState::AwaitAccount(
        id,
        e,
    ) && (r.1 matches GithubAction::FindAccount(t) && t@ == int_digits(id as int)))
    &&& event matches GithubEvent::ProfileLoaded(id, None) ==> r == (
        GithubState::AwaitEmails(id),
        GithubAction::LoadEmails,
    )
    &&& state matches GithubState::AwaitEmails(id) ==> (event matches GithubEvent::EmailsLoaded(list) ==> (
    (r.0 matches GithubState::AwaitAccount(id2, e) && id2 == id && e@ == github_address(
        primary_address(list@),
        id,
    )) && (r.1 matches GithubAction::FindAccount(t) && t@ == int_digits(id as int))))
    &&& state matches GithubState::AwaitAccount(id, e) ==> (event matches GithubEvent::AccountFound(
        Ok(Some(u)),
    ) ==> github_signs_in(before, after, attrs_before, attrs_after, u.id, e@, now, r))
    &&& state matches GithubState::AwaitAccount(id, e) ==> (event matches GithubEvent::AccountFound(
        found,
    ) ==> (!(found matches Ok(Some(_))) ==> r.0 == GithubState::AwaitInsert(e) && (r.1
        matches GithubAction::InsertAccount(n) && is_new_github_user(n, int_digits(id as int), e@))))
    &&& state matches GithubState::AwaitInsert(e) ==> (event matches GithubEvent::AccountInserted(u)
        ==> github_signs_in(before, after, attrs_before, attrs_after, u.id, e@, now, r))
    &&& state is AwaitLog ==> (r.0 is Done && (r.1 matches GithubAction::Respond(to) && to.to@
        == "/admine_panel"@))
}

fn github_sign_in(cookies: &mut CookieJar, user_id: i32, email: &str, now: i64) -> (r: (
    GithubState,
    GithubAction,
))
    ensures
        github_signs_in(
            old(cookies)@,
            final(cookies)@,
            old(cookies).attributes(),
            final(cookies).attributes(),
            user_id,
            email@,
            now,
            r,
        ),
{
    let attrs = CookieAttrs { http_only: Some(true), same_site: Some(SameSite::Lax) };
    cookies.add_private_with(USER_ID_COOKIE, decimal_i32(user_id), attrs);
    let attempt = local_attempt(email, true, GITHUB_PROVIDER, now);
    (GithubState::AwaitLog, GithubAction::LogAttempt(attempt))
}

/// One step of a sign-in through GitHub at time `now`; `github_step` says
/// what it does.
pub fn github_callback(cookies: &mut CookieJar, now: i64, state: GithubState, event: GithubEvent) -> (r: (
    GithubState,
    GithubAction,
))
    requires
        github_expects(state, event),
    ensures
        github_step(
            old(cookies)@,
            final(cookies)@,
            old(cookies).attributes(),
            final(cookies).attributes(),
            now,
            state,
            event,
            r,
        ),
{
    match (state, event) {
        (GithubState::AwaitProfile, GithubEvent::ProfileLoaded(id, profile)) => match profile {
            Some(e) => (GithubState::AwaitAccount(id, e), GithubAction::FindAccount(decimal_i64(id))),
            None => (GithubState::AwaitEmails(id), GithubAction::LoadEmails),
        },
        (GithubState::AwaitEmails(id), GithubEvent::EmailsLoaded(list)) => {
            let email = github_email(None, primary_email(&list), id);
            (GithubState::AwaitAccount(id, email), GithubAction::FindAccount(decimal_i64(id)))
        },
        (GithubState::AwaitAccount(id, email), GithubEvent::AccountFound(found)) => {
            match find_or_create_github_user(found, decimal_i64(id), Some(email.clone())) {
                GithubAccount::Existing(u) => github_sign_in(cookies, u.id, email.as_str(), now),
                GithubAccount::Create(n) => (GithubState::AwaitInsert(email), GithubAction::InsertAccount(n)),
            }
        },
        (GithubState::AwaitInsert(email), GithubEvent::AccountInserted(u)) => github_sign_in(
            cookies,
            u.id,
            email.as_str(),
            now,
        ),
        (GithubState::AwaitLog, _) => (GithubState::Done, GithubAction::Respond(redirect("/admine_panel"))),
        (_, _) => (GithubState::AwaitProfile, GithubAction::LoadProfile),
    }
}

/// Whether the account `u` is stored for the GitHub id written `github_id`.
pub open spec fn has_github_id(u: User, github_id: Seq<char>) -> bool {
    u.oauth_id matches Some(t) && t@ == github_id
}

/// What the lookup of the account stored for a GitHub id answers among the
/// stored accounts `users`: an account that carries the id, or none.
pub open spec fn github_lookup(users: Seq<User>, github_id: Seq<char>) -> Option<User> {
    if exists|i: int| 0 <= i < users.len() && has_github_id(#[trigger] users[i], github_id) {
        let i = choose|i: int| 0 <= i < users.len() && has_github_id(#[trigger] users[i], github_id);
        Some(users[i])
    } else {
        None
    }
}

/// Whether `u` is the account that the store holds once `n` is inserted:
/// the same fields, an id of the store's choosing, two-factor sign-in off.
pub open spec fn stored_as(u: User, n: NewUser) -> bool {
    &&& u.email == n.email
    &&& u.password == n.password
    &&& u.is_active == n.is_active
    &&& u.oauth_provider == n.oauth_provider
    &&& u.oauth_id == n.oauth_id
    &&& !u.twofa_enabled
}

/// One account per GitHub id: when no stored account carries the id, a
/// first sign-in through GitHub creates one that carries it; once it is
/// stored, the lookup of a second sign-in with that id, whatever its
/// address, finds exactly that account, and the second sign-in signs it in
/// and creates none.
pub proof fn lemma_one_account_per_github_id(
    users: Seq<User>,
    github_id: i64,
    first_email: Seq<char>,
    created: NewUser,
    stored: User,
    second_email: String,
    now: i64,
    before: Map<Seq<char>, Seq<char>>,
    after: Map<Seq<char>, Seq<char>>,
    attrs_before: Map<Seq<char>, CookieAttrs>,
    attrs_after: Map<Seq<char>, CookieAttrs>,
    r: (GithubState, GithubAction),
)
    requires
        github_lookup(users, int_digits(github_id as int)) is None,
        is_new_github_user(created, int_digits(github_id as int), first_email),
        stored_as(stored, created),
        github_step(
            before,
            after,
            attrs_before,
            attrs_after,
            now,
            GithubState::AwaitAccount(github_id, second_email),
            GithubEvent::AccountFound(Ok(github_lookup(users.push(stored), int_digits(github_id as int)))),
            r,
        ),
    ensures
        github_lookup(users.push(stored), int_digits(github_id as int)) == Some(stored),
        after == before.insert(USER_ID_COOKIE@, int_digits(stored.id as int)),
        !(r.1 is InsertAccount),
{
    let id = int_digits(github_id as int);
    let all = users.push(stored);
    assert(has_github_id(all[users.len() as int], id));
    let i = choose|i: int| 0 <= i < all.len() && has_github_id(#[trigger] all[i], id);
    if i < users.len() {
        assert(all[i] == users[i]);
        assert(has_github_id(users[i], id));
    }
}

/// A sign-in that waits for its second factor signs no account in: the
/// session reads the same id as before the password was checked.
pub proof fn lemma_pending_second_factor_signs_nobody_in(
    cookies: Map<Seq<char>, Seq<char>>,
    email: Seq<char>,
)
    ensures
        session_id_of(cookies.insert(TWOFA_EMAIL_COOKIE@, email)) == session_id_of(cookies),
{
    reveal_strlit("email_2fa");
    reveal_strlit("user_id");
    assert(TWOFA_EMAIL_COOKIE@[0] != USER_ID_COOKIE@[0]);
    assert(TWOFA_EMAIL_COOKIE@ != USER_ID_COOKIE@);
}

/// A password is all that sign-in checks: when the account found for the
/// address verifies the typed password and has two-factor sign-in off, the
/// step signs it in, whether or not its address was confirmed. The
/// `user_id` cookie gets the account's decimal id and a successful attempt
/// for the typed address is logged.
pub proof fn lemma_password_alone_signs_in(
    before: Map<Seq<char>, Seq<char>>,
    after: Map<Seq<char>, Seq<char>>,
    attrs_before: Map<Seq<char>, CookieAttrs>,
    attrs_after: Map<Seq<char>, CookieAttrs>,
    form: LogIn,
    now: i64,
    u: User,
    r: (LogInState, LogInAction),
)
    requires
        password_matches(u, form.password@),
        !u.twofa_enabled,
        log_in_step(
            before,
            after,
            attrs_before,
            attrs_after,
            form,
            now,
            LogInState::AwaitUser,
            LogInEvent::UserLoaded(Ok(Some(u))),
            r,
        ),
    ensures
        after == before.insert(USER_ID_COOKIE@, int_digits(u.id as int)),
        r.0 matches LogInState::AwaitLog(f) && f.to@ == "/admine_panel"@ && f.flash.kind
            == FlashKind::Success,
        r.1 matches LogInAction::LogAttempt(a) && a.success && a.user_email@ == form.email@,
{
}

/// An account as a registration inserts it, not yet confirmed, signs in with
/// the password typed at registration: the confirmation page, which needs a
/// signed-in session, can be reached.
pub proof fn lemma_unconfirmed_registration_signs_in(
    created: NewUser,
    stored: User,
    before: Map<Seq<char>, Seq<char>>,
    after: Map<Seq<char>, Seq<char>>,
    attrs_before: Map<Seq<char>, CookieAttrs>,
    attrs_after: Map<Seq<char>, CookieAttrs>,
    form: LogIn,
    now: i64,
    r: (LogInState, LogInAction),
)
    requires
        is_new_local_user(created, form.email@, form.password@),
        stored.password == created.password,
        !stored.is_active,
        !stored.twofa_enabled,
        log_in_step(
            before,
            after,
            attrs_before,
            attrs_after,
            form,
            now,
            LogInState::AwaitUser,
            LogInEvent::UserLoaded(Ok(Some(stored))),
            r,
        ),
    ensures
        after == before.insert(USER_ID_COOKIE@, int_digits(stored.id as int)),
        r.1 matches LogInAction::LogAttempt(a) && a.success,
{
}

} // verus!
