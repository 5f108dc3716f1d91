//! Form-intake pipeline for a community website.
//!
//! The site serves static informational pages and two user-submitted forms:
//! a contact form and a membership join form. This library is the core that
//! processes a submitted form: it validates the raw fields, decides which
//! notification email must be sent and which membership record must be
//! persisted, and renders the confirmation (or error) fragment that the
//! presentation layer embeds into the page.
//!
//! The library itself performs no I/O. The surrounding application decodes
//! the HTTP form post into a raw submission, asks the library for a plan,
//! performs the SMTP send and the storage write that the plan calls for, and
//! reports each outcome back; the library then says how the request ends.
//! Every decision — which submissions are rejected and with which field
//! errors, what exactly each email says, what the stored record holds, and
//! what the response fragment is — is made here and verified.

pub mod forms;
pub mod fragment;
pub mod intake;
pub mod notify;
pub mod validate;
