//! The intake coordinator: one state machine per request.
//!
//! Contact path: received, validated, notification sent, response rendered;
//! validation failure moves to rejected with its field errors, notification
//! failure moves to failed and no response fragment exists. Join path: the
//! same up to the notification, then the membership record is persisted
//! best-effort and the response is rendered; a persistence failure is
//! recorded but never alters the user-visible outcome.
//!
//! The coordinator decides; the surrounding application acts. [`contact_intake`]
//! and [`join_intake`] take the raw form and yield a plan: either the
//! rejection fragment, or the one notification email to send. The
//! application performs the relay transaction and hands the outcome to
//! [`contact_finish`] or [`join_after_notification`]; for the join flow the
//! latter yields the one record to persist, and [`join_finish`] renders the
//! response whatever the storage write came to.

use vstd::prelude::*;

use crate::forms::ContactFormData;
use crate::forms::FieldError;
use crate::forms::FieldName;
use crate::forms::JoinFormData;
use crate::forms::MembershipRecord;
use crate::forms::RawContactForm;
use crate::forms::RawJoinForm;
use crate::forms::record_mirrors_submission;
use crate::fragment::error_fragment_text;
use crate::fragment::field_label;
use crate::fragment::lemma_error_fragment_names_fields;
use crate::fragment::text_contains;
use crate::fragment::contact_success_fragment_text;
use crate::fragment::join_success_fragment_text;
use crate::fragment::render_error_fragment;
use crate::fragment::render_contact_success;
use crate::fragment::render_join_success;
use crate::notify::EmailMessage;
use crate::notify::EmailMessageView;
use crate::notify::IntakeConfig;
use crate::notify::NotificationFailure;
use crate::notify::contact_notification;
use crate::notify::contact_notification_view;
use crate::notify::join_notification;
use crate::notify::join_notification_view;
use crate::notify::message_wf;
use crate::validate::contact_data_of;
use crate::validate::contact_errors;
use crate::validate::contact_well_formed;
use crate::validate::email_well_formed;
use crate::validate::field_present;
use crate::validate::join_data_of;
use crate::validate::join_errors;
use crate::validate::join_well_formed;
use crate::validate::missing;
use crate::validate::validate_contact;
use crate::validate::validate_join;

verus! {

/// How a storage write can fail. It is logged by the application and never
/// blocks the confirmation response.
#[derive(Clone, Copy, Debug, PartialEq, Eq, Structural)]
pub enum PersistenceFailure {
    /// The store could not be reached.
    Unavailable,
    /// The store refused the write.
    WriteRejected,
}

/// What the contact flow asks of the application after validation: answer
/// with the rejection fragment, or send the one notification email and
/// report back.
pub enum ContactPlan {
    Rejected { errors: Vec<FieldError>, fragment: String },
    Notify { data: ContactFormData, email: EmailMessage },
}

/// What the join flow asks of the application after validation; the shape
/// is the same, only the email differs.
pub enum JoinPlan {
    Rejected { errors: Vec<FieldError>, fragment: String },
    Notify { data: JoinFormData, email: EmailMessage },
}

/// Every email a contact plan asks to have sent.
pub open spec fn contact_plan_emails(p: ContactPlan) -> Seq<EmailMessageView> {
    match p {
        ContactPlan::Rejected { .. } => Seq::empty(),
        ContactPlan::Notify { email, .. } => seq![email@],
    }
}

/// Every email a join plan asks to have sent.
pub open spec fn join_plan_emails(p: JoinPlan) -> Seq<EmailMessageView> {
    match p {
        JoinPlan::Rejected { .. } => Seq::empty(),
        JoinPlan::Notify { email, .. } => seq![email@],
    }
}

/// A well-shaped address is at least one character around its `@`.
proof fn lemma_well_formed_email_nonempty(s: Seq<char>)
    requires
        email_well_formed(s),
    ensures
        s.len() > 0,
{
}

/// Validates a contact submission and plans its side effects: a rejected
/// submission gets its error fragment and asks for nothing else; a
/// well-formed one asks for exactly one notification email, addressed to
/// the organization's own configured address and meeting the relay's input
/// contract.
pub fn contact_intake(raw: &RawContactForm, cfg: &IntakeConfig) -> (p: ContactPlan)
    requires
        cfg.wf(),
    ensures
        p is Rejected <==> !contact_well_formed(*raw),
        p matches ContactPlan::Rejected { errors, fragment } ==> errors@ == contact_errors(*raw)
            && fragment@ == error_fragment_text(contact_errors(*raw)),
        p matches ContactPlan::Notify { data, email } ==> data == contact_data_of(*raw) && email@
            == contact_notification_view(contact_data_of(*raw), cfg.org_email@) && message_wf(
            email@,
        ),
        contact_plan_emails(p).len() == if contact_well_formed(*raw) {
            1int
        } else {
            0int
        },
{
    match validate_contact(raw) {
        Ok(data) => {
            let email = contact_notification(&data, cfg);
            proof {
                reveal_strlit("Contact from ");
                reveal_strlit("First Name: ");
                lemma_well_formed_email_nonempty(cfg.org_email@);
            }
            ContactPlan::Notify { data, email }
        },
        Err(errors) => {
            let fragment = render_error_fragment(&errors);
            ContactPlan::Rejected { errors, fragment }
        },
    }
}

/// Validates a join submission and plans its side effects: a rejected
/// submission gets its error fragment and asks for nothing else; a
/// well-formed one asks for exactly one notification email, addressed to
/// the submitter's own address and meeting the relay's input contract.
pub fn join_intake(raw: &RawJoinForm, cfg: &IntakeConfig) -> (p: JoinPlan)
    requires
        cfg.wf(),
    ensures
        p is Rejected <==> !join_well_formed(*raw),
        p matches JoinPlan::Rejected { errors, fragment } ==> errors@ == join_errors(*raw) && fragment@
            == error_fragment_text(join_errors(*raw)),
        p matches JoinPlan::Notify { data, email } ==> data == join_data_of(*raw) && email@
            == join_notification_view(join_data_of(*raw), cfg.org_email@) && message_wf(email@),
        join_plan_emails(p).len() == if join_well_formed(*raw) {
            1int
        } else {
            0int
        },
{
    match validate_join(raw) {
        Ok(data) => {
            let email = join_notification(&data, cfg);
            proof {
                reveal_strlit("Contact from ");
                reveal_strlit("Thanks for joining njtts");
                lemma_well_formed_email_nonempty(cfg.org_email@);
                lemma_well_formed_email_nonempty(data.email@);
            }
            JoinPlan::Notify { data, email }
        },
        Err(errors) => {
            let fragment = render_error_fragment(&errors);
            JoinPlan::Rejected { errors, fragment }
        },
    }
}

/// Ends the contact flow once the relay has answered. A success signal
/// yields the success fragment; a notification failure is fatal to the
/// request and yields that failure — no success fragment exists then.
pub fn contact_finish(data: &ContactFormData, sent: Result<(), NotificationFailure>) -> (r: Result<
    String,
    NotificationFailure,
>)
    ensures
        r is Ok <==> sent is Ok,
        r matches Ok(fragment) ==> fragment@ == contact_success_fragment_text(*data),
        r matches Err(e) ==> e == sent->Err_0,
{
    match sent {
        Ok(()) => Ok(render_contact_success(data)),
        Err(e) => Err(e),
    }
}

/// Continues the join flow once the relay has answered. A notification
/// failure is fatal to the request, exactly as in the contact flow; on
/// success, the one membership record to persist is handed out, mirroring
/// every field of the submission.
pub fn join_after_notification(data: &JoinFormData, sent: Result<(), NotificationFailure>) -> (r:
    Result<MembershipRecord, NotificationFailure>)
    ensures
        r is Ok <==> sent is Ok,
        r matches Ok(record) ==> record_mirrors_submission(record, *data),
        r matches Err(e) ==> e == sent->Err_0,
{
    match sent {
        Ok(()) => Ok(data.membership_record()),
        Err(e) => Err(e),
    }
}

/// Ends the join flow once the storage write has been attempted. The
/// response is the success fragment whatever the write came to: a
/// persistence failure is invisible to the caller. The failure is taken
/// here so that the asymmetry is explicit; the application logs it.
pub fn join_finish(data: &JoinFormData, stored: Result<(), PersistenceFailure>) -> (r: String)
    ensures
        r@ == join_success_fragment_text(*data),
{
    let _ = stored;
    render_join_success(data)
}

/// The fields the contact form requires.
pub open spec fn contact_required(f: FieldName) -> bool {
    f != FieldName::Phone
}

/// The fields the join form requires; the consent checkbox is not among
/// them.
pub open spec fn join_required(f: FieldName) -> bool {
    f == FieldName::FirstName || f == FieldName::LastName || f == FieldName::Email || f
        == FieldName::Phone
}

/// What the contact form carries for a field of its own.
pub open spec fn contact_field(raw: RawContactForm, f: FieldName) -> Option<String> {
    match f {
        FieldName::FirstName => raw.first_name,
        FieldName::LastName => raw.last_name,
        FieldName::Email => raw.email,
        FieldName::Subject => raw.subject,
        FieldName::Message => raw.message,
        FieldName::Phone => None,
    }
}

/// What the join form carries for a field of its own.
pub open spec fn join_field(raw: RawJoinForm, f: FieldName) -> Option<String> {
    match f {
        FieldName::FirstName => raw.first_name,
        FieldName::LastName => raw.last_name,
        FieldName::Email => raw.email,
        FieldName::Phone => raw.phone,
        FieldName::Subject => None,
        FieldName::Message => None,
    }
}

/// A contact submission that leaves any required field unsupplied is not
/// well-formed, and its error list names that field as missing. Together
/// with [`contact_intake`]'s contract this means such a submission is
/// rejected with an error naming the field, and no email is sent.
pub proof fn lemma_contact_missing_field(raw: RawContactForm, f: FieldName)
    requires
        contact_required(f),
        !field_present(contact_field(raw, f)),
    ensures
        !contact_well_formed(raw),
        contact_errors(raw).contains(missing(f)),
{
    let es = contact_errors(raw);
    let a = crate::validate::text_field_errors(raw.first_name, FieldName::FirstName);
    let b = crate::validate::text_field_errors(raw.last_name, FieldName::LastName);
    let c = crate::validate::email_field_errors(raw.email);
    let d = crate::validate::text_field_errors(raw.subject, FieldName::Subject);
    match f {
        FieldName::FirstName => {
            assert(es[0] == missing(f));
        },
        FieldName::LastName => {
            assert(es[a.len() as int] == missing(f));
        },
        FieldName::Email => {
            assert(es[(a.len() + b.len()) as int] == missing(f));
        },
        FieldName::Subject => {
            assert(es[(a.len() + b.len() + c.len()) as int] == missing(f));
        },
        FieldName::Message => {
            assert(es[(a.len() + b.len() + c.len() + d.len()) as int] == missing(f));
        },
        FieldName::Phone => {
            assert(false);
        },
    }
}

/// A join submission that leaves any required field unsupplied is not
/// well-formed, and its error list names that field as missing. Together
/// with [`join_intake`]'s contract this means such a submission is rejected
/// with an error naming the field, no email is sent, and no record is
/// handed out to persist.
pub proof fn lemma_join_missing_field(raw: RawJoinForm, f: FieldName)
    requires
        join_required(f),
        !field_present(join_field(raw, f)),
    ensures
        !join_well_formed(raw),
        join_errors(raw).contains(missing(f)),
{
    let es = join_errors(raw);
    let a = crate::validate::text_field_errors(raw.first_name, FieldName::FirstName);
    let b = crate::validate::text_field_errors(raw.last_name, FieldName::LastName);
    let c = crate::validate::email_field_errors(raw.email);
    match f {
        FieldName::FirstName => {
            assert(es[0] == missing(f));
        },
        FieldName::LastName => {
            assert(es[a.len() as int] == missing(f));
        },
        FieldName::Email => {
            assert(es[(a.len() + b.len()) as int] == missing(f));
        },
        FieldName::Phone => {
            assert(es[(a.len() + b.len() + c.len()) as int] == missing(f));
        },
        FieldName::Subject => {
            assert(false);
        },
        FieldName::Message => {
            assert(false);
        },
    }
}

/// A contact submission missing a required field is not only rejected: the
/// rejection fragment the plan carries names that field.
pub proof fn lemma_contact_missing_field_named_in_fragment(raw: RawContactForm, f: FieldName)
    requires
        contact_required(f),
        !field_present(contact_field(raw, f)),
    ensures
        text_contains(error_fragment_text(contact_errors(raw)), field_label(f)),
{
    lemma_contact_missing_field(raw, f);
    let es = contact_errors(raw);
    let i = choose|i: int| 0 <= i < es.len() && es[i] == missing(f);
    lemma_error_fragment_names_fields(es, i);
}

/// A join submission missing a required field is not only rejected: the
/// rejection fragment the plan carries names that field.
pub proof fn lemma_join_missing_field_named_in_fragment(raw: RawJoinForm, f: FieldName)
    requires
        join_required(f),
        !field_present(join_field(raw, f)),
    ensures
        text_contains(error_fragment_text(join_errors(raw)), field_label(f)),
{
    lemma_join_missing_field(raw, f);
    let es = join_errors(raw);
    let i = choose|i: int| 0 <= i < es.len() && es[i] == missing(f);
    lemma_error_fragment_names_fields(es, i);
}

} // verus!
