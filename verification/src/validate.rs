//! Validation of raw submissions.
//!
//! A required field must be present and non-blank; the email field must in
//! addition have the plain local@domain shape: exactly one `@`, with at
//! least one character before it and at least one after it. No field has a
//! length limit. Validation has no side effects; it either yields the typed
//! submission or the full list of field errors, in field order.

use vstd::prelude::*;

use crate::forms::ContactFormData;
use crate::forms::FieldError;
use crate::forms::FieldErrorKind;
use crate::forms::FieldName;
use crate::forms::JoinFormData;
use crate::forms::RawContactForm;
use crate::forms::RawJoinForm;

verus! {

/// A required field counts as supplied only when the post carried it with
/// at least one character of text.
pub open spec fn field_present(f: Option<String>) -> bool {
    f.is_some() && f.unwrap()@.len() > 0
}

/// Position `i` holds the one `@` of a well-shaped address: it is neither
/// the first nor the last character, and no other position holds an `@`.
pub open spec fn email_at_sign_at(s: Seq<char>, i: int) -> bool {
    &&& 0 < i < s.len() - 1
    &&& s[i] == '@'
    &&& forall|j: int| 0 <= j < s.len() && j != i ==> s[j] != '@'
}

/// The plain local@domain shape: exactly one `@`, non-empty local part,
/// non-empty domain part.
pub open spec fn email_well_formed(s: Seq<char>) -> bool {
    exists|i: int| email_at_sign_at(s, i)
}

/// The error recorded for a required field that was not supplied.
pub open spec fn missing(f: FieldName) -> FieldError {
    FieldError { field: f, kind: FieldErrorKind::Missing }
}

/// The error recorded for an email field that was supplied but is not
/// shaped like an address.
pub open spec fn malformed_email() -> FieldError {
    FieldError { field: FieldName::Email, kind: FieldErrorKind::MalformedEmail }
}

/// The errors charged to one required plain-text field: its absence, or
/// nothing.
pub open spec fn text_field_errors(f: Option<String>, name: FieldName) -> Seq<FieldError> {
    if field_present(f) {
        Seq::empty()
    } else {
        seq![missing(name)]
    }
}

/// The errors charged to the email field: its absence, or its malformed
/// shape, or nothing.
pub open spec fn email_field_errors(f: Option<String>) -> Seq<FieldError> {
    if !field_present(f) {
        seq![missing(FieldName::Email)]
    } else if !email_well_formed(f.unwrap()@) {
        seq![malformed_email()]
    } else {
        Seq::empty()
    }
}

/// Every error of a contact submission, in field order.
pub open spec fn contact_errors(raw: RawContactForm) -> Seq<FieldError> {
    text_field_errors(raw.first_name, FieldName::FirstName)
        + text_field_errors(raw.last_name, FieldName::LastName)
        + email_field_errors(raw.email)
        + text_field_errors(raw.subject, FieldName::Subject)
        + text_field_errors(raw.message, FieldName::Message)
}

/// Every error of a join submission, in field order. The consent checkbox
/// is optional and can contribute no error.
pub open spec fn join_errors(raw: RawJoinForm) -> Seq<FieldError> {
    text_field_errors(raw.first_name, FieldName::FirstName)
        + text_field_errors(raw.last_name, FieldName::LastName)
        + email_field_errors(raw.email)
        + text_field_errors(raw.phone, FieldName::Phone)
}

/// A contact submission is well-formed when no field is in error.
pub open spec fn contact_well_formed(raw: RawContactForm) -> bool {
    contact_errors(raw).len() == 0
}

/// A join submission is well-formed when no field is in error.
pub open spec fn join_well_formed(raw: RawJoinForm) -> bool {
    join_errors(raw).len() == 0
}

/// Decides [`email_well_formed`] for a given string.
pub fn check_email(s: &str) -> (b: bool)
    ensures
        b == email_well_formed(s@),
{
    let n = s.unicode_len();
    let mut i: usize = 0;
    let mut at: Option<usize> = None;
    let mut dup: bool = false;
    let ghost mut d1: int = 0;
    let ghost mut d2: int = 0;
    while i < n
        invariant
            n == s@.len(),
            i <= n,
            !dup ==> match at {
                Some(k) => k < i && s@[k as int] == '@' && forall|j: int|
                    0 <= j < i && j != k ==> s@[j] != '@',
                None => forall|j: int| 0 <= j < i ==> s@[j] != '@',
            },
            dup ==> 0 <= d1 < d2 < i && s@[d1] == '@' && s@[d2] == '@',
        decreases n - i,
    {
        let c = s.get_char(i);
        if c == '@' {
            match at {
                None => {
                    at = Some(i);
                },
                Some(k) => {
                    if !dup {
                        proof {
                            d1 = k as int;
                            d2 = i as int;
                        }
                        dup = true;
                    }
                },
            }
        }
        i += 1;
    }
    if dup {
        proof {
            assert forall|m: int| !email_at_sign_at(s@, m) by {
                if email_at_sign_at(s@, m) {
                    if m != d1 {
                        assert(s@[d1] != '@');
                    } else {
                        assert(s@[d2] != '@');
                    }
                }
            }
        }
        false
    } else {
        match at {
            None => {
                proof {
                    assert forall|m: int| !email_at_sign_at(s@, m) by {
                        if 0 < m < s@.len() - 1 {
                            assert(s@[m] != '@');
                        }
                    }
                }
                false
            },
            Some(k) => {
                let ok = 0 < k && k + 1 < n;
                proof {
                    if ok {
                        assert(email_at_sign_at(s@, k as int));
                    } else {
                        assert forall|m: int| !email_at_sign_at(s@, m) by {
                            if email_at_sign_at(s@, m) && m != k {
                                assert(s@[m] != '@');
                            }
                        }
                    }
                }
                ok
            },
        }
    }
}

/// Whether a required field was supplied; see [`field_present`].
pub fn check_present(f: &Option<String>) -> (b: bool)
    ensures
        b == field_present(*f),
{
    match f {
        Some(s) => !s.as_str().is_empty(),
        None => false,
    }
}

/// The typed submission a well-formed contact form denotes.
pub open spec fn contact_data_of(raw: RawContactForm) -> ContactFormData
    recommends
        contact_well_formed(raw),
{
    ContactFormData {
        first_name: raw.first_name.unwrap(),
        last_name: raw.last_name.unwrap(),
        email: raw.email.unwrap(),
        subject: raw.subject.unwrap(),
        message: raw.message.unwrap(),
    }
}

/// The typed submission a well-formed join form denotes; an absent consent
/// checkbox defaults to `false`.
pub open spec fn join_data_of(raw: RawJoinForm) -> JoinFormData
    recommends
        join_well_formed(raw),
{
    JoinFormData {
        first_name: raw.first_name.unwrap(),
        last_name: raw.last_name.unwrap(),
        email: raw.email.unwrap(),
        phone: raw.phone.unwrap(),
        agree_emails: if raw.agree_emails is Some {
            raw.agree_emails.unwrap()
        } else {
            false
        },
    }
}

/// Checks a contact form: yields the typed submission exactly when no field
/// is in error, and otherwise the full list of field errors, in field order.
/// No side effect is performed either way.
pub fn validate_contact(raw: &RawContactForm) -> (r: Result<ContactFormData, Vec<FieldError>>)
    ensures
        r is Ok <==> contact_well_formed(*raw),
        r matches Ok(data) ==> data == contact_data_of(*raw),
        r matches Err(errs) ==> errs@ == contact_errors(*raw),
{
    let mut errs: Vec<FieldError> = Vec::new();
    if !check_present(&raw.first_name) {
        errs.push(FieldError { field: FieldName::FirstName, kind: FieldErrorKind::Missing });
    }
    if !check_present(&raw.last_name) {
        errs.push(FieldError { field: FieldName::LastName, kind: FieldErrorKind::Missing });
    }
    if !check_present(&raw.email) {
        errs.push(FieldError { field: FieldName::Email, kind: FieldErrorKind::Missing });
    } else if !check_email(raw.email.as_ref().unwrap().as_str()) {
        errs.push(FieldError { field: FieldName::Email, kind: FieldErrorKind::MalformedEmail });
    }
    if !check_present(&raw.subject) {
        errs.push(FieldError { field: FieldName::Subject, kind: FieldErrorKind::Missing });
    }
    if !check_present(&raw.message) {
        errs.push(FieldError { field: FieldName::Message, kind: FieldErrorKind::Missing });
    }
    proof {
        assert(errs@ =~= contact_errors(*raw));
    }
    if errs.len() == 0 {
        Ok(ContactFormData {
            first_name: raw.first_name.as_ref().unwrap().clone(),
            last_name: raw.last_name.as_ref().unwrap().clone(),
            email: raw.email.as_ref().unwrap().clone(),
            subject: raw.subject.as_ref().unwrap().clone(),
            message: raw.message.as_ref().unwrap().clone(),
        })
    } else {
        Err(errs)
    }
}

/// Checks a join form: yields the typed submission exactly when no field is
/// in error, and otherwise the full list of field errors, in field order.
/// No side effect is performed either way.
pub fn validate_join(raw: &RawJoinForm) -> (r: Result<JoinFormData, Vec<FieldError>>)
    ensures
        r is Ok <==> join_well_formed(*raw),
        r matches Ok(data) ==> data == join_data_of(*raw),
        r matches Err(errs) ==> errs@ == join_errors(*raw),
{
    let mut errs: Vec<FieldError> = Vec::new();
    if !check_present(&raw.first_name) {
        errs.push(FieldError { field: FieldName::FirstName, kind: FieldErrorKind::Missing });
    }
    if !check_present(&raw.last_name) {
        errs.push(FieldError { field: FieldName::LastName, kind: FieldErrorKind::Missing });
    }
    if !check_present(&raw.email) {
        errs.push(FieldError { field: FieldName::Email, kind: FieldErrorKind::Missing });
    } else if !check_email(raw.email.as_ref().unwrap().as_str()) {
        errs.push(FieldError { field: FieldName::Email, kind: FieldErrorKind::MalformedEmail });
    }
    if !check_present(&raw.phone) {
        errs.push(FieldError { field: FieldName::Phone, kind: FieldErrorKind::Missing });
    }
    proof {
        assert(errs@ =~= join_errors(*raw));
    }
    if errs.len() == 0 {
        Ok(JoinFormData {
            first_name: raw.first_name.as_ref().unwrap().clone(),
            last_name: raw.last_name.as_ref().unwrap().clone(),
            email: raw.email.as_ref().unwrap().clone(),
            phone: raw.phone.as_ref().unwrap().clone(),
            agree_emails: match &raw.agree_emails {
                Some(b) => *b,
                None => false,
            },
        })
    } else {
        Err(errs)
    }
}

} // verus!
