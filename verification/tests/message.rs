use uat::mail::{mail_plan, EmailParams};
use uat::message::{compose_message, ComposeError};

fn params(receiver: &str) -> EmailParams {
    EmailParams {
        lang: "en".to_string(),
        email_type: "confirmAccount".to_string(),
        receiver_display_name: "Ann".to_string(),
        receiver_email: receiver.to_string(),
        token: "abc".to_string(),
    }
}

#[test]
fn composes_the_planned_mail() {
    let plan = mail_plan(&params("ann@example.com"));
    let msg = compose_message(&plan, "<p>Hi Ann</p>".to_string()).unwrap().into_message();
    let text = String::from_utf8(msg.formatted()).unwrap();
    assert!(text.contains("From: Peciel <noreply@peciel.com>"));
    assert!(text.contains("Reply-To: Peciel <noreply@peciel.com>"));
    assert!(text.contains("To: ann@example.com"));
    assert!(text.contains("Subject: Please Confirm Your Email - Peciel"));
    assert!(text.contains("Content-Type: text/html"));
    assert!(text.contains("<p>Hi Ann</p>"));
}

#[test]
fn refuses_a_receiver_that_is_no_address() {
    let plan = mail_plan(&params("not an address"));
    assert!(matches!(compose_message(&plan, String::new()), Err(ComposeError::BadReceiver)));
}

#[test]
fn refuses_a_sender_that_is_no_address() {
    let mut plan = mail_plan(&params("ann@example.com"));
    plan.sender = "nobody".to_string();
    assert!(matches!(compose_message(&plan, String::new()), Err(ComposeError::BadSender)));
    let mut plan = mail_plan(&params("ann@example.com"));
    plan.reply_to = "@@".to_string();
    assert!(matches!(compose_message(&plan, String::new()), Err(ComposeError::BadReplyTo)));
}
