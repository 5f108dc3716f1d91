use form_intake::forms::{FieldErrorKind, FieldName, RawContactForm, RawJoinForm};
use form_intake::intake::{
    contact_finish, contact_intake, join_after_notification, join_finish, join_intake,
    ContactPlan, JoinPlan, PersistenceFailure,
};
use form_intake::notify::{IntakeConfig, NotificationFailure};

fn config() -> IntakeConfig {
    IntakeConfig::new("board@njtts.org".to_string()).expect("configured address is well-shaped")
}

fn contact_raw() -> RawContactForm {
    RawContactForm {
        first_name: Some("Ada".to_string()),
        last_name: Some("Lovelace".to_string()),
        email: Some("ada@example.org".to_string()),
        subject: Some("Hello".to_string()),
        message: Some("A note".to_string()),
    }
}

fn join_raw() -> RawJoinForm {
    RawJoinForm {
        first_name: Some("A".to_string()),
        last_name: Some("B".to_string()),
        email: Some("a@b.com".to_string()),
        phone: Some("555-0100".to_string()),
        agree_emails: Some(true),
    }
}

#[test]
fn config_refuses_malformed_address() {
    assert!(IntakeConfig::new("not-an-address".to_string()).is_none());
    assert!(IntakeConfig::new(String::new()).is_none());
}

#[test]
fn contact_flow_sends_one_email_to_the_organization() {
    match contact_intake(&contact_raw(), &config()) {
        ContactPlan::Notify { data, email } => {
            assert_eq!(email.from, "board@njtts.org");
            assert_eq!(email.to, "board@njtts.org");
            assert_eq!(email.subject, "Contact from ada@example.org");
            assert_eq!(
                email.body,
                "First Name: Ada\nLast Name: Lovelace\nEmail: ada@example.org\nSubject: Hello\nMessage: A note"
            );
            assert_eq!(data.first_name, "Ada");
        }
        ContactPlan::Rejected { .. } => panic!("well-formed submission was rejected"),
    }
}

#[test]
fn contact_success_fragment_echoes_name_and_email() {
    let plan = contact_intake(&contact_raw(), &config());
    let data = match plan {
        ContactPlan::Notify { data, .. } => data,
        ContactPlan::Rejected { .. } => panic!("well-formed submission was rejected"),
    };
    let fragment = contact_finish(&data, Ok(())).expect("relay accepted");
    assert!(fragment.contains("Thank you for contacting us, Ada"));
    assert!(fragment.contains("ada@example.org"));
    assert!(fragment.contains("document.getElementById('contact_form').style.display = 'none';"));
}

#[test]
fn contact_notification_failure_yields_no_success_fragment() {
    let plan = contact_intake(&contact_raw(), &config());
    let data = match plan {
        ContactPlan::Notify { data, .. } => data,
        ContactPlan::Rejected { .. } => panic!("well-formed submission was rejected"),
    };
    for failure in [
        NotificationFailure::Connection,
        NotificationFailure::Authentication,
        NotificationFailure::Address,
    ] {
        let r = contact_finish(&data, Err(failure));
        assert_eq!(r.expect_err("failure is fatal"), failure);
    }
}

#[test]
fn rejected_contact_fragment_names_the_fields() {
    let mut raw = contact_raw();
    raw.first_name = None;
    raw.email = Some("broken".to_string());
    match contact_intake(&raw, &config()) {
        ContactPlan::Rejected { errors, fragment } => {
            assert_eq!(errors.len(), 2);
            assert_eq!(errors[0].field, FieldName::FirstName);
            assert_eq!(errors[0].kind, FieldErrorKind::Missing);
            assert_eq!(errors[1].field, FieldName::Email);
            assert_eq!(errors[1].kind, FieldErrorKind::MalformedEmail);
            assert_eq!(
                fragment,
                "<div><p>Please correct the following:</p><ul>\
                 <li>first name is required</li>\
                 <li>email must be an address of the form local@domain</li>\
                 </ul></div>"
            );
        }
        ContactPlan::Notify { .. } => panic!("malformed submission was accepted"),
    }
}

#[test]
fn join_flow_sends_one_email_to_the_submitter() {
    match join_intake(&join_raw(), &config()) {
        JoinPlan::Notify { data, email } => {
            assert_eq!(email.from, "board@njtts.org");
            assert_eq!(email.to, "a@b.com");
            assert_eq!(email.subject, "Contact from a@b.com");
            assert_eq!(email.body, "Thanks for joining njtts");
            assert_eq!(data.email, "a@b.com");
        }
        JoinPlan::Rejected { .. } => panic!("well-formed submission was rejected"),
    }
}

#[test]
fn join_record_mirrors_all_five_fields() {
    let data = match join_intake(&join_raw(), &config()) {
        JoinPlan::Notify { data, .. } => data,
        JoinPlan::Rejected { .. } => panic!("well-formed submission was rejected"),
    };
    let record = join_after_notification(&data, Ok(())).expect("relay accepted");
    assert_eq!(record.first_name, "A");
    assert_eq!(record.last_name, "B");
    assert_eq!(record.email, "a@b.com");
    assert_eq!(record.phone, "555-0100");
    assert!(record.agree_emails);
}

#[test]
fn join_notification_failure_stops_the_flow() {
    let data = match join_intake(&join_raw(), &config()) {
        JoinPlan::Notify { data, .. } => data,
        JoinPlan::Rejected { .. } => panic!("well-formed submission was rejected"),
    };
    let r = join_after_notification(&data, Err(NotificationFailure::Connection));
    assert_eq!(r.expect_err("failure is fatal"), NotificationFailure::Connection);
}

#[test]
fn join_scenario_record_email_and_fragment() {
    let cfg = config();
    let data = match join_intake(&join_raw(), &cfg) {
        JoinPlan::Notify { data, email } => {
            assert_eq!(email.to, "a@b.com");
            data
        }
        JoinPlan::Rejected { .. } => panic!("well-formed submission was rejected"),
    };
    let record = join_after_notification(&data, Ok(())).expect("relay accepted");
    assert_eq!(
        (
            record.first_name.as_str(),
            record.last_name.as_str(),
            record.email.as_str(),
            record.phone.as_str(),
            record.agree_emails,
        ),
        ("A", "B", "a@b.com", "555-0100", true)
    );
    let fragment = join_finish(&data, Ok(()));
    assert!(fragment.contains("Thank you for joining us, A"));
}

#[test]
fn persistence_failure_is_invisible_to_the_caller() {
    let data = match join_intake(&join_raw(), &config()) {
        JoinPlan::Notify { data, .. } => data,
        JoinPlan::Rejected { .. } => panic!("well-formed submission was rejected"),
    };
    let after_ok = join_finish(&data, Ok(()));
    let after_unavailable = join_finish(&data, Err(PersistenceFailure::Unavailable));
    let after_rejected = join_finish(&data, Err(PersistenceFailure::WriteRejected));
    assert_eq!(after_ok, after_unavailable);
    assert_eq!(after_ok, after_rejected);
    assert!(after_ok.contains("Thank you for joining us, A"));
    assert!(after_ok.contains("document.getElementById('join_form').style.display = 'none';"));
}

#[test]
fn rejected_join_plan_asks_for_nothing() {
    let raw = RawJoinForm {
        first_name: None,
        last_name: None,
        email: None,
        phone: None,
        agree_emails: None,
    };
    match join_intake(&raw, &config()) {
        JoinPlan::Rejected { errors, .. } => {
            let fields: Vec<FieldName> = errors.iter().map(|e| e.field).collect();
            assert_eq!(
                fields,
                vec![FieldName::FirstName, FieldName::LastName, FieldName::Email, FieldName::Phone]
            );
        }
        JoinPlan::Notify { .. } => panic!("empty submission was accepted"),
    }
}

#[test]
fn contact_body_rendering_is_exact() {
    let data = match contact_intake(&contact_raw(), &config()) {
        ContactPlan::Notify { data, .. } => data,
        ContactPlan::Rejected { .. } => panic!("well-formed submission was rejected"),
    };
    assert_eq!(
        data.to_text(),
        "First Name: Ada\nLast Name: Lovelace\nEmail: ada@example.org\nSubject: Hello\nMessage: A note"
    );
}
