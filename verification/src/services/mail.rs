//! The mail that carries a code: its sender, recipient, subject and body,
//! checked before the relay is asked to send it.

use vstd::prelude::*;
use lettre::message::Mailbox;

verus! {

/// Whether lettre takes `s` for a mailbox (an address, with an optional
/// display name): the outcome of `Mailbox::from_str` on the text.
pub uninterp spec fn lettre_accepts_mailbox(s: Seq<char>) -> bool;

/// Whether a text parses as a mailbox.
///
/// Trusted: wraps `str::parse::<lettre::message::Mailbox>`, which runs
/// lettre's `FromStr` for `Mailbox` (its mailbox grammar, then the checks of
/// `Address::new`). The result is named by `lettre_accepts_mailbox`.
#[verifier::external_body]
fn mailbox_parses(s: &str) -> (ok: bool)
    ensures
        ok == lettre_accepts_mailbox(s@),
{
    s.parse::<Mailbox>().is_ok()
}

/// The settings of the mail relay.
#[derive(Clone, Debug, PartialEq, Eq)]
pub struct MailConfig {
    pub smtp_host: String,
    pub smtp_username: String,
    pub smtp_password: String,
    pub from_email: String,
}

/// A mail ready to be handed to the relay.
#[derive(Clone, Debug, PartialEq, Eq)]
pub struct Mail {
    pub from: String,
    pub to: String,
    pub subject: String,
    pub body: String,
}

/// The mail from the configured sender to `to`, with the given subject and
/// body; `None` when the sender or the recipient is not a mailbox.
pub fn compose_mail(config: &MailConfig, to: &str, subject: &str, body: &str) -> (r: Option<Mail>)
    ensures
        r is Some <==> lettre_accepts_mailbox(config.from_email@) && lettre_accepts_mailbox(to@),
        r matches Some(m) ==> m.from@ == config.from_email@ && m.to@ == to@ && m.subject@
            == subject@ && m.body@ == body@,
{
    if !mailbox_parses(config.from_email.as_str()) || !mailbox_parses(to) {
        return None;
    }
    Some(
        Mail {
            from: config.from_email.clone(),
            to: to.to_string(),
            subject: subject.to_string(),
            body: body.to_string(),
        },
    )
}

} // verus!
