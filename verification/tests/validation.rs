use form_intake::forms::{FieldError, FieldErrorKind, FieldName, RawContactForm, RawJoinForm};
use form_intake::validate::{check_email, validate_contact, validate_join};

fn full_contact() -> RawContactForm {
    RawContactForm {
        first_name: Some("Ada".to_string()),
        last_name: Some("Lovelace".to_string()),
        email: Some("ada@example.org".to_string()),
        subject: Some("Hello".to_string()),
        message: Some("A note".to_string()),
    }
}

fn full_join() -> RawJoinForm {
    RawJoinForm {
        first_name: Some("Ada".to_string()),
        last_name: Some("Lovelace".to_string()),
        email: Some("ada@example.org".to_string()),
        phone: Some("555-0100".to_string()),
        agree_emails: Some(true),
    }
}

#[test]
fn email_shapes() {
    assert!(check_email("a@b"));
    assert!(check_email("a@b.com"));
    assert!(check_email("first.last@sub.domain.org"));
    assert!(!check_email(""));
    assert!(!check_email("plain"));
    assert!(!check_email("@domain"));
    assert!(!check_email("local@"));
    assert!(!check_email("two@at@signs"));
    assert!(!check_email("@"));
}

#[test]
fn contact_accepts_full_form() {
    let data = validate_contact(&full_contact()).expect("well-formed form");
    assert_eq!(data.first_name, "Ada");
    assert_eq!(data.last_name, "Lovelace");
    assert_eq!(data.email, "ada@example.org");
    assert_eq!(data.subject, "Hello");
    assert_eq!(data.message, "A note");
}

#[test]
fn join_accepts_full_form() {
    let data = validate_join(&full_join()).expect("well-formed form");
    assert_eq!(data.first_name, "Ada");
    assert_eq!(data.last_name, "Lovelace");
    assert_eq!(data.email, "ada@example.org");
    assert_eq!(data.phone, "555-0100");
    assert!(data.agree_emails);
}

#[test]
fn join_consent_defaults_to_false() {
    let mut raw = full_join();
    raw.agree_emails = None;
    let data = validate_join(&raw).expect("well-formed form");
    assert!(!data.agree_emails);
}

#[test]
fn contact_names_each_missing_field() {
    let cases = [
        (FieldName::FirstName, 0usize),
        (FieldName::LastName, 1),
        (FieldName::Email, 2),
        (FieldName::Subject, 3),
        (FieldName::Message, 4),
    ];
    for (field, slot) in cases {
        let mut raw = full_contact();
        match slot {
            0 => raw.first_name = None,
            1 => raw.last_name = None,
            2 => raw.email = None,
            3 => raw.subject = None,
            _ => raw.message = None,
        }
        let errs = validate_contact(&raw).expect_err("missing field");
        assert_eq!(errs, vec![FieldError { field, kind: FieldErrorKind::Missing }]);
    }
}

#[test]
fn blank_field_counts_as_missing() {
    let mut raw = full_contact();
    raw.subject = Some(String::new());
    let errs = validate_contact(&raw).expect_err("blank field");
    assert_eq!(errs, vec![FieldError { field: FieldName::Subject, kind: FieldErrorKind::Missing }]);
}

#[test]
fn contact_names_malformed_email() {
    let mut raw = full_contact();
    raw.email = Some("not-an-address".to_string());
    let errs = validate_contact(&raw).expect_err("malformed email");
    assert_eq!(
        errs,
        vec![FieldError { field: FieldName::Email, kind: FieldErrorKind::MalformedEmail }]
    );
}

#[test]
fn contact_reports_all_errors_in_field_order() {
    let raw = RawContactForm {
        first_name: None,
        last_name: Some("Lovelace".to_string()),
        email: Some("broken".to_string()),
        subject: None,
        message: Some("A note".to_string()),
    };
    let errs = validate_contact(&raw).expect_err("two bad fields");
    assert_eq!(
        errs,
        vec![
            FieldError { field: FieldName::FirstName, kind: FieldErrorKind::Missing },
            FieldError { field: FieldName::Email, kind: FieldErrorKind::MalformedEmail },
            FieldError { field: FieldName::Subject, kind: FieldErrorKind::Missing },
        ]
    );
}

#[test]
fn join_names_each_missing_field() {
    let cases = [
        (FieldName::FirstName, 0usize),
        (FieldName::LastName, 1),
        (FieldName::Email, 2),
        (FieldName::Phone, 3),
    ];
    for (field, slot) in cases {
        let mut raw = full_join();
        match slot {
            0 => raw.first_name = None,
            1 => raw.last_name = None,
            2 => raw.email = None,
            _ => raw.phone = None,
        }
        let errs = validate_join(&raw).expect_err("missing field");
        assert_eq!(errs, vec![FieldError { field, kind: FieldErrorKind::Missing }]);
    }
}
