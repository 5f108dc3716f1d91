//! The two submission forms and the membership record they give rise to.
//!
//! A raw form holds what the presentation layer decoded from the HTTP post:
//! each field is present with its text, or absent. Validation (see
//! [`crate::validate`]) turns a raw form into a typed submission, or into a
//! list of field errors naming what is missing or malformed.

use vstd::prelude::*;

verus! {

/// A field of one of the two forms, named so that a validation error can say
/// exactly which field it is about.
#[derive(Clone, Copy, Debug, PartialEq, Eq, Structural)]
pub enum FieldName {
    FirstName,
    LastName,
    Email,
    Subject,
    Message,
    Phone,
}

/// Why a field was refused: it was absent (or blank), or it was given but is
/// not shaped like an email address.
#[derive(Clone, Copy, Debug, PartialEq, Eq, Structural)]
pub enum FieldErrorKind {
    Missing,
    MalformedEmail,
}

/// One field-level validation error.
#[derive(Clone, Copy, Debug, PartialEq, Eq, Structural)]
pub struct FieldError {
    pub field: FieldName,
    pub kind: FieldErrorKind,
}

/// The contact form as decoded from the HTTP post, before validation.
/// A field the post did not carry is `None`.
#[derive(Clone, Debug)]
pub struct RawContactForm {
    pub first_name: Option<String>,
    pub last_name: Option<String>,
    pub email: Option<String>,
    pub subject: Option<String>,
    pub message: Option<String>,
}

/// The join form as decoded from the HTTP post, before validation.
/// The consent checkbox is absent from the post when unchecked; it is the
/// one field that is not required and defaults to `false`.
#[derive(Clone, Debug)]
pub struct RawJoinForm {
    pub first_name: Option<String>,
    pub last_name: Option<String>,
    pub email: Option<String>,
    pub phone: Option<String>,
    pub agree_emails: Option<bool>,
}

/// A validated contact submission. All five fields are non-blank and the
/// email has the local@domain shape. Transient: it exists only for the
/// duration of one request and is never persisted.
#[derive(Clone, Debug, PartialEq, Eq)]
pub struct ContactFormData {
    pub first_name: String,
    pub last_name: String,
    pub email: String,
    pub subject: String,
    pub message: String,
}

/// A validated join submission. The four text fields are non-blank, the
/// email has the local@domain shape, and `agree_emails` records whether the
/// submitter consented to further email.
#[derive(Clone, Debug, PartialEq, Eq)]
pub struct JoinFormData {
    pub first_name: String,
    pub last_name: String,
    pub email: String,
    pub phone: String,
    pub agree_emails: bool,
}

/// The document persisted for one accepted join submission: the five input
/// fields, mirrored exactly. Created once per accepted submission; there is
/// no update or delete path, and duplicates are not deduplicated.
#[derive(Clone, Debug, PartialEq, Eq)]
pub struct MembershipRecord {
    pub first_name: String,
    pub last_name: String,
    pub email: String,
    pub phone: String,
    pub agree_emails: bool,
}

/// The record mirrors the submission field for field.
pub open spec fn record_mirrors_submission(r: MembershipRecord, data: JoinFormData) -> bool {
    &&& r.first_name@ == data.first_name@
    &&& r.last_name@ == data.last_name@
    &&& r.email@ == data.email@
    &&& r.phone@ == data.phone@
    &&& r.agree_emails == data.agree_emails
}

impl JoinFormData {
    /// The membership record that persisting this submission appends: every
    /// field of the submission, including the consent flag, carried over
    /// unchanged.
    pub fn membership_record(&self) -> (r: MembershipRecord)
        ensures
            record_mirrors_submission(r, *self),
    {
        MembershipRecord {
            first_name: self.first_name.clone(),
            last_name: self.last_name.clone(),
            email: self.email.clone(),
            phone: self.phone.clone(),
            agree_emails: self.agree_emails,
        }
    }
}

} // verus!
