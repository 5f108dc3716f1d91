//! Construction of the transactional notification emails.
//!
//! The pipeline sends plain-text email through an SMTP relay. This module
//! decides the exact message for each flow: the contact flow notifies the
//! organization's own configured address, the join flow notifies the
//! submitter's address. The relay transaction itself is performed by the
//! surrounding application; it receives an [`EmailMessage`] and reports a
//! success signal or a [`NotificationFailure`].

use vstd::prelude::*;

use crate::forms::ContactFormData;
use crate::forms::JoinFormData;
use crate::validate::email_well_formed;

verus! {

/// One plain-text email, ready for the relay: sender, recipient, subject
/// and body.
#[derive(Clone, Debug, PartialEq, Eq)]
pub struct EmailMessage {
    pub from: String,
    pub to: String,
    pub subject: String,
    pub body: String,
}

/// The mathematical content of an [`EmailMessage`]: its four fields as
/// character sequences.
pub struct EmailMessageView {
    pub from: Seq<char>,
    pub to: Seq<char>,
    pub subject: Seq<char>,
    pub body: Seq<char>,
}

impl View for EmailMessage {
    type V = EmailMessageView;

    open spec fn view(&self) -> EmailMessageView {
        EmailMessageView {
            from: self.from@,
            to: self.to@,
            subject: self.subject@,
            body: self.body@,
        }
    }
}

/// The relay's input contract: all four fields non-empty, sender and
/// recipient shaped like addresses.
pub open spec fn message_wf(m: EmailMessageView) -> bool {
    &&& m.from.len() > 0
    &&& m.to.len() > 0
    &&& m.subject.len() > 0
    &&& m.body.len() > 0
    &&& email_well_formed(m.from)
    &&& email_well_formed(m.to)
}

/// How one relay transaction can fail. Each is fatal to the request that
/// triggered it; nothing is retried.
#[derive(Clone, Copy, Debug, PartialEq, Eq, Structural)]
pub enum NotificationFailure {
    /// The relay could not be reached.
    Connection,
    /// The relay refused the configured credentials.
    Authentication,
    /// The relay refused an address of the message.
    Address,
}

/// The configuration fixed at process start: the organization's own address,
/// which is both the sender of every notification and the recipient of
/// contact notifications. The SMTP credentials and relay host that also
/// come from configuration never influence a decision of the pipeline and
/// stay with the application.
#[derive(Clone, Debug)]
pub struct IntakeConfig {
    pub org_email: String,
}

impl IntakeConfig {
    /// The configured address is shaped like an address.
    pub open spec fn wf(&self) -> bool {
        email_well_formed(self.org_email@)
    }

    /// Accepts the configured organization address, refusing one that is
    /// not shaped like an address. Failure here is startup-fatal for the
    /// application, never a per-request error.
    pub fn new(org_email: String) -> (r: Option<IntakeConfig>)
        ensures
            r is Some <==> email_well_formed(org_email@),
            r matches Some(c) ==> c.org_email@ == org_email@ && c.wf(),
    {
        if crate::validate::check_email(org_email.as_str()) {
            Some(IntakeConfig { org_email })
        } else {
            None
        }
    }
}

/// The subject line used by both flows, naming the submitter's address.
pub open spec fn notification_subject_text(email: Seq<char>) -> Seq<char> {
    "Contact from "@ + email
}

/// The body of a contact notification: every submitted field, one per line.
pub open spec fn contact_body_text(data: ContactFormData) -> Seq<char> {
    "First Name: "@ + data.first_name@ + "\nLast Name: "@ + data.last_name@ + "\nEmail: "@
        + data.email@ + "\nSubject: "@ + data.subject@ + "\nMessage: "@ + data.message@
}

/// The fixed body of a join notification.
pub open spec fn join_body_text() -> Seq<char> {
    "Thanks for joining njtts"@
}

/// The one email of the contact flow: from the organization's address to
/// that same address, carrying the whole submission.
pub open spec fn contact_notification_view(
    data: ContactFormData,
    org_email: Seq<char>,
) -> EmailMessageView {
    EmailMessageView {
        from: org_email,
        to: org_email,
        subject: notification_subject_text(data.email@),
        body: contact_body_text(data),
    }
}

/// The one email of the join flow: from the organization's address to the
/// submitter's own address.
pub open spec fn join_notification_view(
    data: JoinFormData,
    org_email: Seq<char>,
) -> EmailMessageView {
    EmailMessageView {
        from: org_email,
        to: data.email@,
        subject: notification_subject_text(data.email@),
        body: join_body_text(),
    }
}

impl ContactFormData {
    /// The submission rendered as plain text, one field per line: the body
    /// of the contact notification.
    pub fn to_text(&self) -> (r: String)
        ensures
            r@ == contact_body_text(*self),
    {
        let mut s = String::from_str("First Name: ");
        s.append(self.first_name.as_str());
        s.append("\nLast Name: ");
        s.append(self.last_name.as_str());
        s.append("\nEmail: ");
        s.append(self.email.as_str());
        s.append("\nSubject: ");
        s.append(self.subject.as_str());
        s.append("\nMessage: ");
        s.append(self.message.as_str());
        proof {
            assert(s@ =~= contact_body_text(*self));
        }
        s
    }
}

/// The subject line for a submitter's address.
fn build_subject(email: &str) -> (r: String)
    ensures
        r@ == notification_subject_text(email@),
{
    let mut s = String::from_str("Contact from ");
    s.append(email);
    s
}

/// Builds the contact flow's notification email; see
/// [`contact_notification_view`].
pub fn contact_notification(data: &ContactFormData, cfg: &IntakeConfig) -> (m: EmailMessage)
    ensures
        m@ == contact_notification_view(*data, cfg.org_email@),
{
    EmailMessage {
        from: cfg.org_email.clone(),
        to: cfg.org_email.clone(),
        subject: build_subject(data.email.as_str()),
        body: data.to_text(),
    }
}

/// Builds the join flow's notification email; see
/// [`join_notification_view`].
pub fn join_notification(data: &JoinFormData, cfg: &IntakeConfig) -> (m: EmailMessage)
    ensures
        m@ == join_notification_view(*data, cfg.org_email@),
{
    EmailMessage {
        from: cfg.org_email.clone(),
        to: data.email.clone(),
        subject: build_subject(data.email.as_str()),
        body: String::from_str("Thanks for joining njtts"),
    }
}

} // verus!
