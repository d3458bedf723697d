//! The account services: registration, sign-in, one-time codes, password
//! reset, activation, two-factor sign-in and accounts made through GitHub.
//!
//! Each function takes what the store, the mail relay or the captcha service
//! answered as plain values, and says what the service does with it.

use vstd::prelude::*;
use crate::models::user_model::{Model as User, NewUser, UserForm, LogIn, ResetsPassword, UserDTO};
use crate::models::verify_model::{Model as Token, NewToken};
use crate::services::secrets::{
    argon2_verifies, utf8_of, hash_secret, verify_secret, generate_token, token_alphabet,
    is_argon2id_phc, lemma_alphabet_text_is_no_phc, TOKEN_LEN,
};
use crate::text::push_str;
use crate::validators::{
    FieldViolation, RuleParam, ViolationView, violations_view, registration_violations,
    password_violations,
    validate_registration, validate_reset,
};

verus! {

/// Why an account service refused.
#[derive(Clone, Debug, PartialEq, Eq)]
pub enum UserError {
    /// The store failed; the text describes the failure.
    DatabaseError(String),
    PasswordsDoNotMatch,
    ValidationError(Vec<FieldViolation>),
    UserLogInError,
    UserNotFound,
    /// The captcha, or a mailed code, was not accepted.
    CaptchaError,
}

/// The text of one rule parameter: its quoted name and its written value.
pub open spec fn param_text(p: RuleParam) -> Seq<char> {
    "\""@ + p.name@ + "\": "@ + p.value@
}

/// The texts of a rule's parameters, separated by commas.
pub open spec fn params_join(ps: Seq<RuleParam>) -> Seq<char>
    decreases ps.len(),
{
    if ps.len() == 0 {
        Seq::empty()
    } else if ps.len() == 1 {
        param_text(ps[0])
    } else {
        params_join(ps.drop_last()) + ", "@ + param_text(ps.last())
    }
}

/// The text of one broken field rule, as the validator writes it: the
/// field's name, the rule's code, and its parameters in brackets and braces.
/// The validator keeps a rule's parameters in a hash map, so the order in
/// which it lists two or more of them is not fixed; they are written here in
/// the order the violation holds them.
pub open spec fn violation_text(v: FieldViolation) -> Seq<char> {
    v.field@ + ": Validation error: "@ + v.code@ + " [{"@ + params_join(v.params@) + "}]"@
}

/// The texts of the broken field rules, one line each, in order.
pub open spec fn violations_text(vs: Seq<FieldViolation>) -> Seq<char>
    decreases vs.len(),
{
    if vs.len() == 0 {
        Seq::empty()
    } else if vs.len() == 1 {
        violation_text(vs[0])
    } else {
        violations_text(vs.drop_last()) + "\n"@ + violation_text(vs.last())
    }
}

/// Appends the texts of a rule's parameters, separated by commas.
fn push_params(text: &mut String, ps: &Vec<RuleParam>)
    ensures
        final(text)@ == old(text)@ + params_join(ps@),
{
    let ghost start = text@;
    let mut i: usize = 0;
    while i < ps.len()
        invariant
            i <= ps@.len(),
            start == old(text)@,
            text@ == start + params_join(ps@.subrange(0, i as int)),
        decreases ps@.len() - i,
    {
        let ghost before = text@;
        let ghost done = ps@.subrange(0, i as int);
        assert(ps@.subrange(0, i + 1).drop_last() =~= done);
        if i > 0 {
            push_str(text, ", ");
        }
        push_str(text, "\"");
        push_str(text, ps[i].name.as_str());
        push_str(text, "\": ");
        push_str(text, ps[i].value.as_str());
        proof {
            let next = ps@.subrange(0, i + 1);
            assert(next.last() == ps@[i as int]);
            if i == 0 {
                assert(done =~= Seq::<RuleParam>::empty());
                assert(text@ =~= start + param_text(ps@[0]));
            } else {
                assert(text@ =~= before + ", "@ + param_text(ps@[i as int]));
            }
        }
        i = i + 1;
    }
    assert(ps@.subrange(0, i as int) =~= ps@);
}

/// The text of each error.
pub open spec fn error_text(e: UserError) -> Seq<char> {
    match e {
        UserError::DatabaseError(_) => "Failed to insert user into database"@,
        UserError::PasswordsDoNotMatch => "PasswordsDoNotMatch"@,
        UserError::ValidationError(vs) => "Validation failed: "@ + violations_text(vs@),
        UserError::UserLogInError => "UserLogInError"@,
        UserError::UserNotFound => "User not found"@,
        UserError::CaptchaError => "CaptchaError"@,
    }
}

impl UserError {
    /// The error's text, as the pages show it.
    pub fn message(&self) -> (text: String)
        ensures
            text@ == error_text(*self),
    {
        match self {
            UserError::DatabaseError(_) => "Failed to insert user into database".to_string(),
            UserError::PasswordsDoNotMatch => "PasswordsDoNotMatch".to_string(),
            UserError::ValidationError(vs) => {
                let mut text = "Validation failed: ".to_string();
                let ghost start = text@;
                let mut i: usize = 0;
                while i < vs.len()
                    invariant
                        i <= vs@.len(),
                        text@ == start + violations_text(vs@.subrange(0, i as int)),
                    decreases vs@.len() - i,
                {
                    let ghost before = text@;
                    let ghost done = vs@.subrange(0, i as int);
                    assert(vs@.subrange(0, i + 1).drop_last() =~= done);
                    if i > 0 {
                        push_str(&mut text, "\n");
                    }
                    push_str(&mut text, vs[i].field.as_str());
                    push_str(&mut text, ": Validation error: ");
                    push_str(&mut text, vs[i].code.as_str());
                    push_str(&mut text, " [{");
                    push_params(&mut text, &vs[i].params);
                    push_str(&mut text, "}]");
                    proof {
                        let next = vs@.subrange(0, i + 1);
                        assert(next.last() == vs@[i as int]);
                        if i == 0 {
                            assert(done =~= Seq::<FieldViolation>::empty());
                            assert(text@ =~= start + violation_text(vs@[0]));
                        } else {
                            assert(text@ =~= before + "\n"@ + violation_text(vs@[i as int]));
                        }
                    }
                    i = i + 1;
                }
                assert(vs@.subrange(0, i as int) =~= vs@);
                text
            },
            UserError::UserLogInError => "UserLogInError".to_string(),
            UserError::UserNotFound => "User not found".to_string(),
            UserError::CaptchaError => "CaptchaError".to_string(),
        }
    }
}

/// The subject of the mail that carries a code for a second factor or for
/// confirming an address.
pub const ACTIVATION_SUBJECT: &'static str = "Activate Email";

/// The subject of the mail that carries a password reset code.
pub const RESET_SUBJECT: &'static str = "Reset password";

/// How long a mailed code stays valid, in microseconds: one minute.
pub const TOKEN_LIFETIME_MICROS: i64 = 60_000_000;

/// Whether `password` matches the hash stored in `user`.
pub open spec fn password_matches(user: User, password: Seq<char>) -> bool {
    user.password is Some && argon2_verifies(utf8_of(password), user.password->0@)
}

/// Whether a form passes the checks made before the captcha is asked: no
/// field rule is broken, and the password was typed twice alike.
pub open spec fn form_accepted(
    violations: Seq<ViolationView>,
    password: Seq<char>,
    password2: Seq<char>,
) -> bool {
    violations.len() == 0 && password == password2
}

/// Whether `e` is the refusal of a form by the checks made before the
/// captcha is asked: the broken field rules when there are any, else the
/// mismatch of the two passwords.
pub open spec fn form_refused_with(
    violations: Seq<ViolationView>,
    password: Seq<char>,
    password2: Seq<char>,
    e: UserError,
) -> bool {
    if violations.len() > 0 {
        e matches UserError::ValidationError(vs) && violations_view(vs@) == violations
    } else {
        password != password2 && e matches UserError::PasswordsDoNotMatch
    }
}

fn check_form(
    vs: Vec<FieldViolation>,
    password: &String,
    password2: &String,
) -> (r: Result<(), UserError>)
    ensures
        r is Ok <==> form_accepted(violations_view(vs@), password@, password2@),
        r matches Err(e) ==> form_refused_with(violations_view(vs@), password@, password2@, e),
{
    if vs.len() > 0 {
        return Err(UserError::ValidationError(vs));
    }
    if *password != *password2 {
        return Err(UserError::PasswordsDoNotMatch);
    }
    Ok(())
}

/// The checks made on a registration form before the captcha is asked.
pub fn check_registration(form: &UserForm) -> (r: Result<(), UserError>)
    ensures
        r is Ok <==> form_accepted(
            registration_violations(form.email@, form.password@),
            form.password@,
            form.password2@,
        ),
        r matches Err(e) ==> form_refused_with(
            registration_violations(form.email@, form.password@),
            form.password@,
            form.password2@,
            e,
        ),
{
    let vs = validate_registration(&form.email, &form.password);
    check_form(vs, &form.password, &form.password2)
}

/// The checks made on a password reset form before the captcha is asked.
pub fn check_password_reset(form: &ResetsPassword) -> (r: Result<(), UserError>)
    ensures
        r is Ok <==> form_accepted(password_violations(form.password@), form.password@, form.password2@),
        r matches Err(e) ==> form_refused_with(
            password_violations(form.password@),
            form.password@,
            form.password2@,
            e,
        ),
{
    let vs = validate_reset(&form.password);
    check_form(vs, &form.password, &form.password2)
}

/// Whether `user` is the account that a registration with `email` and
/// `password` inserts: that address, a hash of that password, not yet
/// activated, with no outside provider.
pub open spec fn is_new_local_user(user: NewUser, email: Seq<char>, password: Seq<char>) -> bool {
    &&& user.email matches Some(e) && e@ == email
    &&& user.password matches Some(h) && argon2_verifies(utf8_of(password), h@) && is_argon2id_phc(
        h@,
    ) && (!is_argon2id_phc(password) ==> h@ != password)
    &&& !user.is_active
    &&& user.oauth_provider is None
    &&& user.oauth_id is None
}

/// The account that a registration inserts.
fn new_local_user(form: &UserForm) -> (user: NewUser)
    requires
        utf8_of(form.password@).len() <= 0xFFFF_FFFF,
    ensures
        is_new_local_user(user, form.email@, form.password@),
{
    NewUser {
        email: Some(form.email.clone()),
        password: Some(hash_secret(form.password.as_str())),
        is_active: false,
        oauth_provider: None,
        oauth_id: None,
    }
}

/// Signs in with the account that the store found for the form's address:
/// a failed lookup is passed on; no account, or a wrong password, is a `UserLogInError`.
pub fn log_in_user(found: Result<Option<User>, UserError>, form: &LogIn) -> (r: Result<
    User,
    UserError,
>)
    requires
        found matches Ok(Some(u)) ==> u.password is Some,
    ensures
        found is Err ==> r == Err::<User, UserError>(found->Err_0),
        found matches Ok(None) ==> r matches Err(UserError::UserLogInError),
        found matches Ok(Some(u)) ==> (password_matches(u, form.password@) ==> r == Ok::<
            User,
            UserError,
        >(u)),
        found matches Ok(Some(u)) ==> (!password_matches(u, form.password@) ==> r matches Err(
            UserError::UserLogInError,
        )),
{
    match found {
        Err(e) => Err(e),
        Ok(None) => Err(UserError::UserLogInError),
        Ok(Some(user)) => {
            let ok = match &user.password {
                Some(h) => verify_secret(form.password.as_str(), h.as_str()),
                None => false,
            };
            if ok {
                Ok(user)
            } else {
                Err(UserError::UserLogInError)
            }
        },
    }
}

/// The account that a lookup found: a failed lookup is passed on, a missing
/// account is a `UserNotFound`.
pub fn require_user(found: Result<Option<User>, UserError>) -> (r: Result<User, UserError>)
    ensures
        found matches Ok(Some(u)) ==> r == Ok::<User, UserError>(u),
        found matches Ok(None) ==> r matches Err(UserError::UserNotFound),
        found is Err ==> r == Err::<User, UserError>(found->Err_0),
{
    match found {
        Err(e) => Err(e),
        Ok(None) => Err(UserError::UserNotFound),
        Ok(Some(u)) => Ok(u),
    }
}

/// The stored hash of a user's code: a failed lookup is passed on, no code is
/// a `UserNotFound`.
pub fn require_token(found: Result<Option<Token>, UserError>) -> (r: Result<String, UserError>)
    ensures
        found matches Ok(Some(t)) ==> r == Ok::<String, UserError>(t.token_hash),
        found matches Ok(None) ==> r matches Err(UserError::UserNotFound),
        found is Err ==> r == Err::<String, UserError>(found->Err_0),
{
    match found {
        Err(e) => Err(e),
        Ok(None) => Err(UserError::UserNotFound),
        Ok(Some(t)) => Ok(t.token_hash),
    }
}

/// Whether a user has a pending code: the lookup of its hash succeeded.
pub fn have_token(lookup: &Result<String, UserError>) -> (r: bool)
    ensures
        r == lookup is Ok,
{
    lookup.is_ok()
}

/// A one-time code is short enough to hash.
proof fn lemma_short_ascii_fits(token: Seq<char>)
    requires
        token.len() == TOKEN_LEN,
    ensures
        utf8_of(token).len() <= 0xFFFF_FFFF,
{
    crate::services::secrets::lemma_utf8_len_bound(token);
}

/// Checks a code typed by a user against the stored hash; when the lookup of
/// the hash failed, an empty hash is checked, which never matches.
pub fn code_accepted(token: &str, stored: Result<String, UserError>) -> (ok: bool)
    ensures
        ok == code_matches(token@, stored),
{
    let hash = match stored {
        Ok(h) => h,
        Err(_) => String::new(),
    };
    verify_secret(token, hash.as_str())
}

/// Whether a typed code matches the stored hash; a failed lookup of the hash
/// counts as an empty hash, which never matches.
pub open spec fn code_matches(typed: Seq<char>, stored: Result<String, UserError>) -> bool {
    stored matches Ok(h) && argon2_verifies(utf8_of(typed), h@)
}

/// The account with its password hash replaced.
pub fn with_password(user: User, hash: String) -> (updated: User)
    ensures
        updated == (User { password: Some(hash), ..user }),
{
    User { password: Some(hash), ..user }
}

/// The account, activated.
pub open spec fn activated(user: User) -> User {
    User { is_active: true, ..user }
}

/// The account with two-factor sign-in switched.
pub open spec fn toggled(user: User) -> User {
    User { twofa_enabled: !user.twofa_enabled, ..user }
}

/// Switches two-factor sign-in of an account on or off.
pub fn chang_twofa(user: User) -> (updated: User)
    ensures
        updated == toggled(user),
{
    let new_state = !user.twofa_enabled;
    User { twofa_enabled: new_state, ..user }
}

/// Switching two-factor sign-in twice leaves the account as it was, and one
/// switch changes nothing but the switch.
pub proof fn lemma_toggle_twice(user: User)
    ensures
        toggled(toggled(user)) == user,
        toggled(user).twofa_enabled != user.twofa_enabled,
{
}

/// Confirming an address again leaves an activated account as it is.
pub proof fn lemma_activation_idempotent(user: User)
    ensures
        activated(activated(user)) == activated(user),
        activated(user).is_active,
{
}

/// What the pages show of an account that has an address.
pub open spec fn dto_of(user: User) -> UserDTO {
    UserDTO {
        id: user.id,
        email: user.email->0,
        is_active: user.is_active,
        oauth_provider: user.oauth_provider,
        twofa_enabled: user.twofa_enabled,
    }
}

/// What the list of all accounts shows; every account must have an address.
pub fn get_all_user(users: Vec<User>) -> (dtos: Vec<UserDTO>)
    requires
        forall|i: int| 0 <= i < users@.len() ==> (#[trigger] users@[i]).email is Some,
    ensures
        dtos@ == users@.map_values(|u: User| dto_of(u)),
{
    let ghost all = users@;
    let mut remaining = users;
    let mut reversed: Vec<UserDTO> = Vec::new();
    while remaining.len() > 0
        invariant
            remaining@.len() + reversed@.len() == all.len(),
            remaining@ == all.subrange(0, remaining@.len() as int),
            forall|i: int| 0 <= i < all.len() ==> (#[trigger] all[i]).email is Some,
            forall|k: int|
                0 <= k < reversed@.len() ==> #[trigger] reversed@[k] == dto_of(
                    all[all.len() - 1 - k],
                ),
        decreases remaining.len(),
    {
        let n = remaining.len();
        let user = remaining.pop().unwrap();
        assert(user == all[n - 1]);
        assert(remaining@ =~= all.subrange(0, remaining@.len() as int));
        let email = match user.email {
            Some(e) => e,
            None => String::new(),
        };
        reversed.push(
            UserDTO {
                id: user.id,
                email,
                is_active: user.is_active,
                oauth_provider: user.oauth_provider,
                twofa_enabled: user.twofa_enabled,
            },
        );
    }
    let mut dtos: Vec<UserDTO> = Vec::new();
    while reversed.len() > 0
        invariant
            reversed@.len() + dtos@.len() == all.len(),
            forall|k: int|
                0 <= k < reversed@.len() ==> #[trigger] reversed@[k] == dto_of(
                    all[all.len() - 1 - k],
                ),
            forall|k: int| 0 <= k < dtos@.len() ==> #[trigger] dtos@[k] == dto_of(all[k]),
        decreases reversed.len(),
    {
        let d = reversed.pop().unwrap();
        dtos.push(d);
    }
    assert(dtos@ =~= all.map_values(|u: User| dto_of(u)));
    dtos
}

/// What a sign-in through GitHub does with the account: an existing account
/// for the GitHub id is used, otherwise one is created.
#[derive(Clone, Debug, PartialEq, Eq)]
pub enum GithubAccount {
    Existing(User),
    Create(NewUser),
}

/// Picks the account for a sign-in through GitHub: the account that the
/// store found for the GitHub id, or, when none was found or the lookup
/// failed, a new active account with the given address, no password, the
/// provider `github` and the GitHub id.
pub fn find_or_create_github_user(
    found: Result<Option<User>, UserError>,
    github_id: String,
    email: Option<String>,
) -> (r: GithubAccount)
    ensures
        found matches Ok(Some(u)) ==> r == GithubAccount::Existing(u),
        !(found matches Ok(Some(_))) ==> (r matches GithubAccount::Create(n) && {
            &&& n.email == email
            &&& n.password is None
            &&& n.is_active
            &&& n.oauth_provider matches Some(p) && p@ == "github"@
            &&& n.oauth_id == Some(github_id)
        }),
{
    match found {
        Ok(Some(u)) => GithubAccount::Existing(u),
        _ => GithubAccount::Create(
            NewUser {
                email,
                password: None,
                is_active: true,
                oauth_provider: Some("github".to_string()),
                oauth_id: Some(github_id),
            },
        ),
    }
}

/// Whether a code record has expired at time `now`.
pub open spec fn token_expired(token: Token, now: i64) -> bool {
    token.expires_at < now
}

/// The ids of the code records that have expired at time `now`, in the order given.
pub fn expired_token_ids(tokens: &Vec<Token>, now: i64) -> (ids: Vec<i32>)
    ensures
        ids@ == tokens@.filter(|t: Token| token_expired(t, now)).map_values(|t: Token| t.id),
{
    let mut ids: Vec<i32> = Vec::new();
    let mut i: usize = 0;
    while i < tokens.len()
        invariant
            i <= tokens@.len(),
            ids@ == tokens@.subrange(0, i as int).filter(|t: Token| token_expired(t, now)).map_values(
                |t: Token| t.id,
            ),
        decreases tokens@.len() - i,
    {
        let ghost prefix = tokens@.subrange(0, i as int);
        assert(tokens@.subrange(0, i + 1) =~= prefix.push(tokens@[i as int]));
        proof {
            prefix.lemma_filter_push(tokens@[i as int], |t: Token| token_expired(t, now));
        }
        if tokens[i].expires_at < now {
            ids.push(tokens[i].id);
        }
        i = i + 1;
        assert(ids@ =~= tokens@.subrange(0, i as int).filter(|t: Token| token_expired(t, now)).map_values(
            |t: Token| t.id,
        ));
    }
    assert(tokens@.subrange(0, i as int) =~= tokens@);
    ids
}

/// Where a registration stands.
#[derive(Clone, Debug, PartialEq, Eq)]
pub enum RegistrationState {
    Start,
    AwaitCaptcha,
    AwaitInsert,
    AwaitCode,
    Done,
}

/// What the server reports back to a registration.
#[derive(Debug, PartialEq, Eq)]
pub enum RegistrationEvent {
    Begin,
    CaptchaChecked(bool),
    Inserted(Result<(), UserError>),
    CodeSent(Result<(), UserError>),
}

/// What a registration asks the server to do next.
#[derive(Debug, PartialEq, Eq)]
pub enum RegistrationAction {
    /// Ask the captcha service about this response.
    VerifyCaptcha(String),
    InsertUser(NewUser),
    /// Mail an activation code to this address, under this subject.
    SendCode(String, String),
    Finish(Result<(), UserError>),
}

/// The event that each state of a registration waits for. Mailing the
/// activation code may not fail: the server stops when it does.
pub open spec fn registration_expects(state: RegistrationState, event: RegistrationEvent) -> bool {
    match state {
        RegistrationState::Start => event is Begin,
        RegistrationState::AwaitCaptcha => event is CaptchaChecked,
        RegistrationState::AwaitInsert => event is Inserted,
        RegistrationState::AwaitCode => event matches RegistrationEvent::CodeSent(Ok(_)),
        RegistrationState::Done => false,
    }
}

/// One step of a registration: the field rules and the password match are
/// checked first, then the captcha; then the account is inserted, inactive,
/// with a hash of the password; then an activation code is mailed to the
/// form's address. Any refusal or failed insert ends the registration with its error.
pub fn add_user(form: &UserForm, state: RegistrationState, event: RegistrationEvent) -> (r: (
    RegistrationState,
    RegistrationAction,
))
    requires
        registration_expects(state, event),
        utf8_of(form.password@).len() <= 0xFFFF_FFFF,
    ensures
        state is Start ==> (if form_accepted(
            registration_violations(form.email@, form.password@),
            form.password@,
            form.password2@,
        ) {
            r.0 is AwaitCaptcha && r.1 == RegistrationAction::VerifyCaptcha(form.g_recaptcha_response)
        } else {
            r.0 is Done && (r.1 matches RegistrationAction::Finish(Err(e)) && form_refused_with(
                registration_violations(form.email@, form.password@),
                form.password@,
                form.password2@,
                e,
            ))
        }),
        event == RegistrationEvent::CaptchaChecked(false) ==> r.0 is Done && r.1
            matches RegistrationAction::Finish(Err(UserError::CaptchaError)),
        event == RegistrationEvent::CaptchaChecked(true) ==> r.0 is AwaitInsert && (r.1
            matches RegistrationAction::InsertUser(n) && is_new_local_user(
            n,
            form.email@,
            form.password@,
        )),
        event matches RegistrationEvent::Inserted(Err(e)) ==> r.0 is Done && r.1
            == RegistrationAction::Finish(Err(e)),
        event matches RegistrationEvent::Inserted(Ok(_)) ==> r.0 is AwaitCode && (r.1
            matches RegistrationAction::SendCode(to, subject) && to == form.email && subject@
            == ACTIVATION_SUBJECT@),
        event is CodeSent ==> r.0 is Done && r.1 == RegistrationAction::Finish(Ok(())),
{
    match event {
        RegistrationEvent::Begin => match check_registration(form) {
            Ok(()) => (
                RegistrationState::AwaitCaptcha,
                RegistrationAction::VerifyCaptcha(form.g_recaptcha_response.clone()),
            ),
            Err(e) => (RegistrationState::Done, RegistrationAction::Finish(Err(e))),
        },
        RegistrationEvent::CaptchaChecked(passed) => {
            if !passed {
                return (
                    RegistrationState::Done,
                    RegistrationAction::Finish(Err(UserError::CaptchaError)),
                );
            }
            (RegistrationState::AwaitInsert, RegistrationAction::InsertUser(new_local_user(form)))
        },
        RegistrationEvent::Inserted(Err(e)) => (
            RegistrationState::Done,
            RegistrationAction::Finish(Err(e)),
        ),
        RegistrationEvent::Inserted(Ok(())) => (
            RegistrationState::AwaitCode,
            RegistrationAction::SendCode(form.email.clone(), ACTIVATION_SUBJECT.to_string()),
        ),
        RegistrationEvent::CodeSent(_) => (RegistrationState::Done, RegistrationAction::Finish(Ok(()))),
    }
}

/// Where the mailing of a one-time code stands. The states after the lookup
/// carry the account's id, and the code once it is drawn.
#[derive(Clone, Debug, PartialEq, Eq)]
pub enum TokenState {
    Start,
    AwaitUser,
    AwaitTokenDeletion(i32),
    AwaitMail(i32, String),
    AwaitInsert,
    Done,
}

/// What the server reports back while a code is mailed.
#[derive(Debug, PartialEq, Eq)]
pub enum TokenEvent {
    Begin,
    UserLoaded(Result<Option<User>, UserError>),
    TokensDeleted(Result<(), UserError>),
    /// The mail was handed to the relay (its failure is only reported), at time `now`.
    MailAttempted(i64),
    Inserted(Result<(), UserError>),
}

/// What the mailing of a code asks the server to do next.
#[derive(Debug, PartialEq, Eq)]
pub enum TokenAction {
    /// Look up the account of this address.
    LoadUser(String),
    /// Delete every code record of this account.
    DeleteTokens(i32),
    /// Mail to this address, under this subject, this code as the body.
    SendMail(String, String, String),
    InsertToken(NewToken),
    Finish(Result<(), UserError>),
}

/// The event that each state of the mailing waits for; a drawn code is
/// well formed, and the time at which the mail went out is far enough from
/// the end of the clock for the expiry.
pub open spec fn token_expects(state: TokenState, event: TokenEvent) -> bool {
    match state {
        TokenState::Start => event is Begin,
        TokenState::AwaitUser => event is UserLoaded,
        TokenState::AwaitTokenDeletion(_) => event is TokensDeleted,
        TokenState::AwaitMail(_, code) => well_formed_code(code@) && (event matches TokenEvent::MailAttempted(now) && now
            <= i64::MAX - TOKEN_LIFETIME_MICROS),
        TokenState::AwaitInsert => event is Inserted,
        TokenState::Done => false,
    }
}

/// Whether `code` is a code as they are drawn: ten characters of the alphabet.
pub open spec fn well_formed_code(code: Seq<char>) -> bool {
    &&& code.len() == TOKEN_LEN
    &&& forall|k: int| 0 <= k < TOKEN_LEN ==> token_alphabet().contains(#[trigger] code[k])
}

/// One step of mailing a one-time code to `email` under `subject`: the
/// account of the address is looked up (no account is a `UserLogInError`),
/// its old codes are deleted, a fresh code is drawn and mailed to the
/// address under the subject, and a record holding only the code's hash is
/// inserted, expiring one minute after the mail went out. A failed lookup,
/// deletion or insert ends the mailing with its error.
pub fn send_token(email: &String, subject: &str, state: TokenState, event: TokenEvent) -> (r: (
    TokenState,
    TokenAction,
))
    requires
        token_expects(state, event),
    ensures
        state is Start ==> r.0 is AwaitUser && r.1 == TokenAction::LoadUser(*email),
        event matches TokenEvent::UserLoaded(Err(e)) ==> r.0 is Done && r.1 == TokenAction::Finish(
            Err(e),
        ),
        event == TokenEvent::UserLoaded(Ok(None)) ==> r.0 is Done && r.1 matches TokenAction::Finish(
            Err(UserError::UserLogInError),
        ),
        event matches TokenEvent::UserLoaded(Ok(Some(u))) ==> r.0 == TokenState::AwaitTokenDeletion(
            u.id,
        ) && r.1 == TokenAction::DeleteTokens(u.id),
        event matches TokenEvent::TokensDeleted(Err(e)) ==> r.0 is Done && r.1
            == TokenAction::Finish(Err(e)),
        state matches TokenState::AwaitTokenDeletion(id) ==> (event matches TokenEvent::TokensDeleted(
            Ok(_),
        ) ==> ((r.0 matches TokenState::AwaitMail(id2, code) && id2 == id && well_formed_code(code@)
            && (r.1 matches TokenAction::SendMail(to, subj, body) && to == *email && subj@ == subject@
            && body == code)))),
        state matches TokenState::AwaitMail(id, code) ==> (event matches TokenEvent::MailAttempted(now)
            ==> (r.0 is AwaitInsert && (r.1 matches TokenAction::InsertToken(record) && {
            &&& record.user_id == id
            &&& record.expires_at == now + TOKEN_LIFETIME_MICROS
            &&& argon2_verifies(utf8_of(code@), record.token_hash@)
            &&& is_argon2id_phc(record.token_hash@)
            &&& record.token_hash@ != code@
        }))),
        event matches TokenEvent::Inserted(Err(e)) ==> r.0 is Done && r.1 == TokenAction::Finish(
            Err(e),
        ),
        event matches TokenEvent::Inserted(Ok(_)) ==> r.0 is Done && r.1 == TokenAction::Finish(
            Ok(()),
        ),
{
    match (state, event) {
        (TokenState::AwaitUser, TokenEvent::UserLoaded(found)) => match found {
            Err(e) => (TokenState::Done, TokenAction::Finish(Err(e))),
            Ok(None) => (TokenState::Done, TokenAction::Finish(Err(UserError::UserLogInError))),
            Ok(Some(user)) => (
                TokenState::AwaitTokenDeletion(user.id),
                TokenAction::DeleteTokens(user.id),
            ),
        },
        (TokenState::AwaitTokenDeletion(id), TokenEvent::TokensDeleted(deleted)) => match deleted {
            Err(e) => (TokenState::Done, TokenAction::Finish(Err(e))),
            Ok(()) => {
                let code = generate_token();
                (
                    TokenState::AwaitMail(id, code.clone()),
                    TokenAction::SendMail(email.clone(), subject.to_string(), code),
                )
            },
        },
        (TokenState::AwaitMail(id, code), TokenEvent::MailAttempted(now)) => {
            proof {
                lemma_short_ascii_fits(code@);
                assert(token_alphabet().contains(code@[0]));
                lemma_alphabet_text_is_no_phc(code@);
            }
            let token_hash = hash_secret(code.as_str());
            (
                TokenState::AwaitInsert,
                TokenAction::InsertToken(
                    NewToken { user_id: id, token_hash, expires_at: now + TOKEN_LIFETIME_MICROS },
                ),
            )
        },
        (TokenState::AwaitInsert, TokenEvent::Inserted(inserted)) => match inserted {
            Err(e) => (TokenState::Done, TokenAction::Finish(Err(e))),
            Ok(()) => (TokenState::Done, TokenAction::Finish(Ok(()))),
        },
        (_, _) => (TokenState::AwaitUser, TokenAction::LoadUser(email.clone())),
    }
}

/// Where a password reset stands. The states after the code was accepted
/// carry the new password's hash, then the account with it.
#[derive(Clone, Debug, PartialEq, Eq)]
pub enum ResetState {
    Start,
    AwaitCaptcha,
    AwaitCodeHash,
    AwaitUser(String),
    AwaitTokenDeletion(User),
    AwaitUpdate,
    Done,
}

/// What the server reports back to a password reset.
#[derive(Debug, PartialEq, Eq)]
pub enum ResetEvent {
    Begin,
    CaptchaChecked(bool),
    /// The hash of the code pending for the reset's address.
    CodeHashLoaded(Result<String, UserError>),
    UserLoaded(Result<Option<User>, UserError>),
    TokensDeleted(Result<(), UserError>),
    PasswordUpdated(Result<(), UserError>),
}

/// What a password reset asks the server to do next.
#[derive(Debug, PartialEq, Eq)]
pub enum ResetAction {
    /// Ask the captcha service about this response.
    VerifyCaptcha(String),
    /// Look up the hash of the code pending for the reset's address.
    LoadCodeHash,
    /// Look up the account of the reset's address.
    LoadUser,
    /// Delete every code record of this account.
    DeleteTokens(i32),
    /// Store this account, whose password hash is the new one.
    UpdateUser(User),
    Finish(Result<(), UserError>),
}

/// The event that each state of a reset waits for. The account of the
/// address must exist once its code was accepted: the server stops when it does not.
pub open spec fn reset_expects(state: ResetState, event: ResetEvent) -> bool {
    match state {
        ResetState::Start => event is Begin,
        ResetState::AwaitCaptcha => event is CaptchaChecked,
        ResetState::AwaitCodeHash => event is CodeHashLoaded,
        ResetState::AwaitUser(_) => event is UserLoaded && !(event matches ResetEvent::UserLoaded(
            Ok(None),
        )),
        ResetState::AwaitTokenDeletion(_) => event is TokensDeleted,
        ResetState::AwaitUpdate => event is PasswordUpdated,
        ResetState::Done => false,
    }
}

/// What one step of a password reset does with the form `form`, answering `r`.
pub open spec fn reset_step(form: ResetsPassword, state: ResetState, event: ResetEvent, r: (
    ResetState,
    ResetAction,
)) -> bool {
    &&& (state is Start ==> (if form_accepted(
                password_violations(form.password@),
                form.password@,
                form.password2@,
            ) {
                r.0 is AwaitCaptcha && r.1 == ResetAction::VerifyCaptcha(form.g_recaptcha_response)
            } else {
                r.0 is Done && (r.1 matches ResetAction::Finish(Err(e)) && form_refused_with(
                    password_violations(form.password@),
                    form.password@,
                    form.password2@,
                    e,
                ))
            }))
    &&& (event == ResetEvent::CaptchaChecked(false) ==> r.0 is Done && r.1 matches ResetAction::Finish(
                Err(UserError::CaptchaError),
            ))
    &&& (event == ResetEvent::CaptchaChecked(true) ==> r.0 is AwaitCodeHash && r.1 is LoadCodeHash)
    &&& (event matches ResetEvent::CodeHashLoaded(stored) ==> (if code_matches(form.token@, stored) {
                (r.0 matches ResetState::AwaitUser(h) && argon2_verifies(utf8_of(form.password@), h@))
                    && r.1 is LoadUser
            } else {
                r.0 is Done && r.1 matches ResetAction::Finish(Err(UserError::CaptchaError))
            }))
    &&& (event matches ResetEvent::UserLoaded(Err(e)) ==> r.0 is Done && r.1 == ResetAction::Finish(
                Err(e),
            ))
    &&& (state matches ResetState::AwaitUser(h) ==> (event matches ResetEvent::UserLoaded(Ok(Some(u)))
                ==> r.0 == ResetState::AwaitTokenDeletion(User { password: Some(h), ..u }) && r.1
                == ResetAction::DeleteTokens(u.id)))
    &&& (event matches ResetEvent::TokensDeleted(Err(e)) ==> r.0 is Done && r.1 == ResetAction::Finish(
                Err(e),
            ))
    &&& (state matches ResetState::AwaitTokenDeletion(u) ==> (event matches ResetEvent::TokensDeleted(
                Ok(_),
            ) ==> r.0 is AwaitUpdate && r.1 == ResetAction::UpdateUser(u)))
    &&& (event matches ResetEvent::PasswordUpdated(res) ==> r.0 is Done && r.1 == ResetAction::Finish(
                res,
            ))
}

/// One step of a password reset: the field rules and the password match are
/// checked first, then the captcha; then the typed code must match the
/// pending code's hash (without one, nothing matches); then the account's
/// codes are deleted and its password hash is replaced by a hash of the new
/// password. A refusal ends the reset with a `CaptchaError` (for the captcha
/// and the code) or the check's error; a failed lookup, deletion or update
/// ends it with its error.
pub fn resets_user_password(form: &ResetsPassword, state: ResetState, event: ResetEvent) -> (r: (
    ResetState,
    ResetAction,
))
    requires
        reset_expects(state, event),
        utf8_of(form.password@).len() <= 0xFFFF_FFFF,
    ensures
        reset_step(*form, state, event, r),
{
    match (state, event) {
        (ResetState::Start, _) => match check_password_reset(form) {
            Ok(()) => (
                ResetState::AwaitCaptcha,
                ResetAction::VerifyCaptcha(form.g_recaptcha_response.clone()),
            ),
            Err(e) => (ResetState::Done, ResetAction::Finish(Err(e))),
        },
        (_, ResetEvent::CaptchaChecked(passed)) => {
            if passed {
                (ResetState::AwaitCodeHash, ResetAction::LoadCodeHash)
            } else {
                (ResetState::Done, ResetAction::Finish(Err(UserError::CaptchaError)))
            }
        },
        (_, ResetEvent::CodeHashLoaded(stored)) => {
            if code_accepted(form.token.as_str(), stored) {
                (ResetState::AwaitUser(hash_secret(form.password.as_str())), ResetAction::LoadUser)
            } else {
                (ResetState::Done, ResetAction::Finish(Err(UserError::CaptchaError)))
            }
        },
        (ResetState::AwaitUser(hash), ResetEvent::UserLoaded(found)) => match found {
            Err(e) => (ResetState::Done, ResetAction::Finish(Err(e))),
            Ok(Some(user)) => {
                let id = user.id;
                (ResetState::AwaitTokenDeletion(with_password(user, hash)), ResetAction::DeleteTokens(id))
            },
            Ok(None) => (ResetState::Done, ResetAction::Finish(Err(UserError::UserNotFound))),
        },
        (ResetState::AwaitTokenDeletion(user), ResetEvent::TokensDeleted(deleted)) => match deleted {
            Err(e) => (ResetState::Done, ResetAction::Finish(Err(e))),
            Ok(()) => (ResetState::AwaitUpdate, ResetAction::UpdateUser(user)),
        },
        (_, ResetEvent::PasswordUpdated(res)) => (ResetState::Done, ResetAction::Finish(res)),
        (_, _) => (ResetState::Done, ResetAction::Finish(Err(UserError::UserNotFound))),
    }
}

/// An account stored as a registration inserted it signs in with the
/// password typed at registration.
pub proof fn lemma_registered_password_signs_in(form_password: Seq<char>, stored: User, hash: String)
    requires
        stored.password == Some(hash),
        argon2_verifies(utf8_of(form_password), hash@),
    ensures
        password_matches(stored, form_password),
{
}

/// After a password reset the account signs in with the new password.
pub proof fn lemma_reset_password_signs_in(user: User, new_password: Seq<char>, hash: String)
    requires
        argon2_verifies(utf8_of(new_password), hash@),
    ensures
        password_matches(User { password: Some(hash), ..user }, new_password),
{
}

/// Where the check of a mailed code for an account stands: the code of a
/// sign-in's second factor, or the code that confirms an address. The states
/// after the lookup carry the account.
#[derive(Clone, Debug, PartialEq, Eq)]
pub enum CodeCheckState {
    Start,
    AwaitUser,
    AwaitCodeHash(User),
    AwaitDeletion(User),
    AwaitUpdate,
    Done,
}

/// What the server reports back while a code is checked.
#[derive(Debug, PartialEq, Eq)]
pub enum CodeCheckEvent {
    Begin,
    /// The account with the id, or `UserNotFound`, or the store's failure.
    UserLoaded(Result<User, UserError>),
    /// The hash of the code pending for the account's address.
    CodeHashLoaded(Result<String, UserError>),
    /// The account's codes were deleted; a failure of the deletion is ignored.
    TokensDeleted,
    Updated(Result<(), UserError>),
}

/// What the check of a code asks the server to do next.
#[derive(Debug, PartialEq, Eq)]
pub enum CodeCheckAction {
    /// Look up the account with this id.
    LoadUser(i32),
    /// Look up the hash of the code pending for this address.
    LoadCodeHash(String),
    /// Delete every code record of this account.
    DeleteTokens(i32),
    /// Store this account.
    UpdateUser(User),
    Finish(Result<(), UserError>),
}

/// The event that each state of a code check waits for. The account must
/// have an address: the server stops when it has none.
pub open spec fn code_check_expects(state: CodeCheckState, event: CodeCheckEvent) -> bool {
    match state {
        CodeCheckState::Start => event is Begin,
        CodeCheckState::AwaitUser => event matches CodeCheckEvent::UserLoaded(found) && (found matches Ok(
            u,
        ) ==> u.email is Some),
        CodeCheckState::AwaitCodeHash(_) => event is CodeHashLoaded,
        CodeCheckState::AwaitDeletion(_) => event is TokensDeleted,
        CodeCheckState::AwaitUpdate => event is Updated,
        CodeCheckState::Done => false,
    }
}

/// What a code check does until the code is judged, the same for both uses:
/// the account is looked up (a failed lookup ends the check with its error),
/// then the hash of the code pending for its address; a matching code asks
/// for the account's codes to be deleted, any other ends the check with a
/// `CaptchaError` and deletes nothing.
pub open spec fn code_check_judges(
    token: Seq<char>,
    user_id: i32,
    state: CodeCheckState,
    event: CodeCheckEvent,
    r: (CodeCheckState, CodeCheckAction),
) -> bool {
    &&& state is Start ==> r == (CodeCheckState::AwaitUser, CodeCheckAction::LoadUser(user_id))
    &&& event matches CodeCheckEvent::UserLoaded(Err(e)) ==> r == (
        CodeCheckState::Done,
        CodeCheckAction::Finish(Err(e)),
    )
    &&& event matches CodeCheckEvent::UserLoaded(Ok(u)) ==> r == (
        CodeCheckState::AwaitCodeHash(u),
        CodeCheckAction::LoadCodeHash(u.email->0),
    )
    &&& state matches CodeCheckState::AwaitCodeHash(u) ==> (event matches CodeCheckEvent::CodeHashLoaded(
        stored,
    ) ==> if code_matches(token, stored) {
        r == (CodeCheckState::AwaitDeletion(u), CodeCheckAction::DeleteTokens(u.id))
    } else {
        r.0 is Done && r.1 matches CodeCheckAction::Finish(Err(UserError::CaptchaError))
    })
}

/// What the check of a code for an account does once the account is known:
/// with `Begin` it looks up the hash of the code pending for the account's
/// address; a matching code asks for every code of the account to be
/// deleted and then succeeds; any other code fails with a `CaptchaError`
/// and deletes nothing.
pub open spec fn verify_step(
    token: Seq<char>,
    state: CodeCheckState,
    event: CodeCheckEvent,
    r: (CodeCheckState, CodeCheckAction),
) -> bool {
    &&& state matches CodeCheckState::AwaitCodeHash(u) ==> (event is Begin ==> r == (
        CodeCheckState::AwaitCodeHash(u),
        CodeCheckAction::LoadCodeHash(u.email->0),
    ))
    &&& state matches CodeCheckState::AwaitCodeHash(u) ==> (event matches CodeCheckEvent::CodeHashLoaded(
        stored,
    ) ==> if code_matches(token, stored) {
        r == (CodeCheckState::AwaitDeletion(u), CodeCheckAction::DeleteTokens(u.id))
    } else {
        r.0 is Done && r.1 matches CodeCheckAction::Finish(Err(UserError::CaptchaError))
    })
    &&& state is AwaitDeletion ==> r == (CodeCheckState::Done, CodeCheckAction::Finish(Ok(())))
}

/// One step of checking the code `token` for an account: it starts in
/// `AwaitCodeHash` with the account and `Begin`; `verify_step` says what it
/// does. Success is `Finish(Ok(()))`, failure `Finish(Err(CaptchaError))`.
pub fn is_verify(token: &str, state: CodeCheckState, event: CodeCheckEvent) -> (r: (
    CodeCheckState,
    CodeCheckAction,
))
    requires
        (state matches CodeCheckState::AwaitCodeHash(u) && (event is Begin ==> u.email is Some) && (
        event is Begin || event is CodeHashLoaded)) || (state is AwaitDeletion && event is TokensDeleted),
    ensures
        verify_step(token@, state, event, r),
{
    match (state, event) {
        (CodeCheckState::AwaitCodeHash(user), CodeCheckEvent::CodeHashLoaded(stored)) => {
            if code_accepted(token, stored) {
                let id = user.id;
                (CodeCheckState::AwaitDeletion(user), CodeCheckAction::DeleteTokens(id))
            } else {
                (CodeCheckState::Done, CodeCheckAction::Finish(Err(UserError::CaptchaError)))
            }
        },
        (CodeCheckState::AwaitCodeHash(user), _) => {
            let email = match &user.email {
                Some(e) => e.clone(),
                None => String::new(),
            };
            (CodeCheckState::AwaitCodeHash(user), CodeCheckAction::LoadCodeHash(email))
        },
        (_, _) => (CodeCheckState::Done, CodeCheckAction::Finish(Ok(()))),
    }
}

fn code_check_step(token: &str, user_id: i32, state: CodeCheckState, event: CodeCheckEvent) -> (r: (
    CodeCheckState,
    CodeCheckAction,
))
    requires
        code_check_expects(state, event),
        !(state is AwaitDeletion),
        !(state is AwaitUpdate),
    ensures
        code_check_judges(token@, user_id, state, event, r),
{
    match (state, event) {
        (CodeCheckState::AwaitUser, CodeCheckEvent::UserLoaded(found)) => match found {
            Err(e) => (CodeCheckState::Done, CodeCheckAction::Finish(Err(e))),
            Ok(user) => is_verify(token, CodeCheckState::AwaitCodeHash(user), CodeCheckEvent::Begin),
        },
        (CodeCheckState::AwaitCodeHash(user), event) => is_verify(token, CodeCheckState::AwaitCodeHash(user), event),
        (_, _) => (CodeCheckState::AwaitUser, CodeCheckAction::LoadUser(user_id)),
    }
}

/// One step of checking the second-factor code `token` of the account
/// `user_id`: once the code matches and the account's codes are deleted,
/// the check succeeds.
pub fn email_2fa(token: &str, user_id: i32, state: CodeCheckState, event: CodeCheckEvent) -> (r: (
    CodeCheckState,
    CodeCheckAction,
))
    requires
        code_check_expects(state, event),
        !(state is AwaitUpdate),
    ensures
        code_check_judges(token@, user_id, state, event, r),
        state is AwaitDeletion ==> r == (CodeCheckState::Done, CodeCheckAction::Finish(Ok(()))),
{
    match state {
        CodeCheckState::AwaitDeletion(_) => is_verify(token, state, event),
        _ => code_check_step(token, user_id, state, event),
    }
}

/// One step of confirming the address of the account `user_id` with the
/// code `token`: once the code matches and the account's codes are deleted,
/// the account is stored activated, and the outcome of that update ends the
/// confirmation.
pub fn activate_email(token: &str, user_id: i32, state: CodeCheckState, event: CodeCheckEvent) -> (r: (
    CodeCheckState,
    CodeCheckAction,
))
    requires
        code_check_expects(state, event),
    ensures
        code_check_judges(token@, user_id, state, event, r),
        state matches CodeCheckState::AwaitDeletion(u) ==> r == (
            CodeCheckState::AwaitUpdate,
            CodeCheckAction::UpdateUser(activated(u)),
        ),
        event matches CodeCheckEvent::Updated(res) ==> r == (
            CodeCheckState::Done,
            CodeCheckAction::Finish(res),
        ),
{
    match (state, event) {
        (CodeCheckState::AwaitDeletion(user), _) => (
            CodeCheckState::AwaitUpdate,
            CodeCheckAction::UpdateUser(User { is_active: true, ..user }),
        ),
        (CodeCheckState::AwaitUpdate, CodeCheckEvent::Updated(res)) => (
            CodeCheckState::Done,
            CodeCheckAction::Finish(res),
        ),
        (state, event) => code_check_step(token, user_id, state, event),
    }
}

/// The code records that remain once every record of the account `user_id` is deleted.
pub open spec fn without_tokens_of(tokens: Seq<Token>, user_id: i32) -> Seq<Token> {
    tokens.filter(|t: Token| t.user_id != user_id)
}

/// What the lookup of the code pending for the account `user_id` answers
/// among `tokens`: the hash of one of its records, or `UserNotFound` when it
/// has none.
pub open spec fn pending_code_hash(tokens: Seq<Token>, user_id: i32) -> Result<String, UserError> {
    if exists|i: int| 0 <= i < tokens.len() && (#[trigger] tokens[i]).user_id == user_id {
        let i = choose|i: int| 0 <= i < tokens.len() && (#[trigger] tokens[i]).user_id == user_id;
        Ok(tokens[i].token_hash)
    } else {
        Err(UserError::UserNotFound)
    }
}

/// Once every code record of an account is deleted, the lookup of its
/// pending code finds none.
proof fn lemma_no_code_after_deletion(tokens: Seq<Token>, user_id: i32)
    ensures
        pending_code_hash(without_tokens_of(tokens, user_id), user_id) is Err,
{
    let pred = |t: Token| t.user_id != user_id;
    let rest = without_tokens_of(tokens, user_id);
    assert forall|i: int| 0 <= i < rest.len() implies (#[trigger] rest[i]).user_id != user_id by {
        tokens.lemma_filter_pred(pred, i);
    }
}

/// A code is used once: once a reset, a second factor or a confirmation has
/// accepted a code and deleted the account's code records, the lookup of the
/// account's pending code finds none, no typed code matches it, and a later
/// check of a code for the account ends with a `CaptchaError` and deletes nothing.
pub proof fn lemma_code_used_once(
    tokens: Seq<Token>,
    u: User,
    typed: Seq<char>,
    r: (CodeCheckState, CodeCheckAction),
)
    requires
        code_check_judges(
            typed,
            u.id,
            CodeCheckState::AwaitCodeHash(u),
            CodeCheckEvent::CodeHashLoaded(pending_code_hash(without_tokens_of(tokens, u.id), u.id)),
            r,
        ),
    ensures
        pending_code_hash(without_tokens_of(tokens, u.id), u.id) is Err,
        !code_matches(typed, pending_code_hash(without_tokens_of(tokens, u.id), u.id)),
        r.0 is Done && r.1 matches CodeCheckAction::Finish(Err(UserError::CaptchaError)),
{
    lemma_no_code_after_deletion(tokens, u.id);
}

/// A reset code works once: a reset that accepted a code and found the
/// account asks for every code of that account to be deleted; once they are,
/// a second reset's lookup of the account's pending code finds none, so its
/// code step refuses with a `CaptchaError` and asks for nothing more: no
/// deletion and no new password.
pub proof fn lemma_reset_code_works_once(
    first_form: ResetsPassword,
    new_hash: String,
    u: User,
    first: (ResetState, ResetAction),
    tokens: Seq<Token>,
    second_form: ResetsPassword,
    second: (ResetState, ResetAction),
)
    requires
        reset_step(
            first_form,
            ResetState::AwaitUser(new_hash),
            ResetEvent::UserLoaded(Ok(Some(u))),
            first,
        ),
        reset_step(
            second_form,
            ResetState::AwaitCodeHash,
            ResetEvent::CodeHashLoaded(pending_code_hash(without_tokens_of(tokens, u.id), u.id)),
            second,
        ),
    ensures
        first.1 == ResetAction::DeleteTokens(u.id),
        second.0 is Done && second.1 matches ResetAction::Finish(Err(UserError::CaptchaError)),
{
    lemma_no_code_after_deletion(tokens, u.id);
}

/// Confirming an address changes nothing but the activation flag: the
/// account keeps its id, address, password hash, provider and two-factor
/// switch, so it signs in with exactly the passwords it signed in with before.
pub proof fn lemma_activation_keeps_the_account(u: User, password: Seq<char>)
    ensures
        activated(u).is_active,
        activated(u).id == u.id,
        activated(u).email == u.email,
        activated(u).password == u.password,
        activated(u).oauth_provider == u.oauth_provider,
        activated(u).oauth_id == u.oauth_id,
        activated(u).twofa_enabled == u.twofa_enabled,
        password_matches(activated(u), password) == password_matches(u, password),
{
}

/// The list of all accounts shows each account, in order, with its own id,
/// address, activation flag, provider and two-factor switch.
pub proof fn lemma_listing_copies_each_account(users: Seq<User>, dtos: Seq<UserDTO>)
    requires
        dtos == users.map_values(|u: User| dto_of(u)),
    ensures
        dtos.len() == users.len(),
        forall|i: int|
            0 <= i < users.len() ==> {
                &&& (#[trigger] dtos[i]).id == users[i].id
                &&& users[i].email is Some ==> users[i].email == Some(dtos[i].email)
                &&& dtos[i].is_active == users[i].is_active
                &&& dtos[i].oauth_provider == users[i].oauth_provider
                &&& dtos[i].twofa_enabled == users[i].twofa_enabled
            },
{
}

/// Whether `tokens` holds a record with the id `id` whose expiry lies before `now`.
pub open spec fn expired_record_with_id(tokens: Seq<Token>, id: i32, now: i64) -> bool {
    exists|t: Token| #![trigger tokens.contains(t)] tokens.contains(t) && t.id == id && t.expires_at < now
}

/// The cleanup lists a code record exactly when its expiry lies before
/// `now`, whatever else it holds: every expired record's id is listed, and
/// every listed id is that of a record that has expired.
pub proof fn lemma_cleanup_lists_exactly_the_expired(tokens: Seq<Token>, now: i64, ids: Seq<i32>)
    requires
        ids == tokens.filter(|t: Token| token_expired(t, now)).map_values(|t: Token| t.id),
    ensures
        forall|i: int| 0 <= i < tokens.len() && (#[trigger] tokens[i]).expires_at < now ==> ids.contains(
            tokens[i].id,
        ),
        forall|k: int| 0 <= k < ids.len() ==> #[trigger] expired_record_with_id(tokens, ids[k], now),
{
    let pred = |t: Token| token_expired(t, now);
    let kept = tokens.filter(pred);
    assert forall|i: int| 0 <= i < tokens.len() && (#[trigger] tokens[i]).expires_at < now implies ids.contains(
        tokens[i].id,
    ) by {
        tokens.lemma_filter_contains(pred, i);
        let j = choose|j: int| 0 <= j < kept.len() && kept[j] == tokens[i];
        assert(ids[j] == tokens[i].id);
    }
    assert forall|k: int| 0 <= k < ids.len() implies #[trigger] expired_record_with_id(tokens, ids[k], now) by {
        tokens.lemma_filter_len(pred);
        tokens.lemma_filter_pred(pred, k);
        let t = kept[k];
        assert(pred(t));
        assert(kept.contains(t));
        tokens.lemma_filter_contains_rev(pred, t);
        assert(ids[k] == t.id);
        assert(tokens.contains(t) && t.id == ids[k] && t.expires_at < now);
    }
}

} // verus!
