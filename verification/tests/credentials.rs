use uat::account::{
    password_hash, sign_up_step_with, SignUpAction, SignUpEvent, SignUpRequest, SignUpState,
};
use uat::credentials::{
    change_password, change_password_with, confirm_account, password_reset, password_reset_with,
    sign_in, AccountWrite, ChangePasswordRequest, ConfirmAccountRequest, PasswordResetRequest,
    SignInRequest, StoredUser,
};

fn user(confirm: Option<&str>, reset: Option<&str>) -> StoredUser {
    let salt = "00000000000000000000000000abcd".to_string();
    StoredUser {
        email: "ann@example.com".to_string(),
        displayname: "Ann".to_string(),
        hash: password_hash(&salt, "hunter2"),
        salt,
        confirm_mail_token: confirm.map(|s| s.to_string()),
        reset_token: reset.map(|s| s.to_string()),
    }
}

#[test]
fn confirmation_activates_the_waiting_account() {
    let req = ConfirmAccountRequest { token: "tok1".to_string() };
    match confirm_account(&req, &Some(user(Some("tok1"), None))) {
        Some(AccountWrite::Activate(e)) => assert_eq!(e, "ann@example.com"),
        other => panic!("unexpected {:?}", other),
    }
    assert!(confirm_account(&req, &Some(user(Some("tok2"), None))).is_none());
    assert!(confirm_account(&req, &Some(user(None, None))).is_none());
    assert!(confirm_account(&req, &None).is_none());
}

#[test]
fn sign_in_needs_an_active_account_and_the_password() {
    let ok = SignInRequest { email: "ann@example.com".to_string(), password: "hunter2".to_string() };
    let wrong = SignInRequest { email: "ann@example.com".to_string(), password: "hunter3".to_string() };
    let other = SignInRequest { email: "bob@example.com".to_string(), password: "hunter2".to_string() };
    assert!(sign_in(&ok, &Some(user(None, None))));
    assert!(!sign_in(&wrong, &Some(user(None, None))));
    assert!(!sign_in(&ok, &Some(user(Some("tok"), None))));
    assert!(!sign_in(&other, &Some(user(None, None))));
    assert!(!sign_in(&ok, &None));
}

#[test]
fn reset_stores_and_mails_one_token() {
    let req = PasswordResetRequest { email: "ann@example.com".to_string() };
    let r = password_reset_with(&req, &Some(user(None, None)), 0xff).unwrap();
    match &r.write {
        AccountWrite::SetResetToken { email, token } => {
            assert_eq!(email, "ann@example.com");
            assert_eq!(token, "0000000000000000000000000000ff");
        }
        other => panic!("unexpected {:?}", other),
    }
    assert_eq!(r.mail.lang, "en");
    assert_eq!(r.mail.email_type, "resetPassword");
    assert_eq!(r.mail.receiver_email, "ann@example.com");
    assert_eq!(r.mail.receiver_display_name, "Ann");
    assert_eq!(r.mail.token, "0000000000000000000000000000ff");
    let other = PasswordResetRequest { email: "bob@example.com".to_string() };
    assert!(password_reset(&other, &Some(user(None, None))).is_none());
    assert!(password_reset(&req, &None).is_none());
    let drawn = password_reset(&req, &Some(user(None, None))).unwrap();
    assert!(drawn.mail.token.len() >= 30);
}

#[test]
fn password_change_with_reset_token_then_signs_in() {
    let req = ChangePasswordRequest { token: "r1".to_string(), password: "newpass".to_string() };
    let w = change_password_with(&req, &Some(user(None, Some("r1"))), 7).unwrap();
    match w {
        AccountWrite::SetPassword { email, salt, hash } => {
            assert_eq!(email, "ann@example.com");
            assert_eq!(salt, format!("{:030x}", 7u128));
            assert_eq!(hash, password_hash(&salt, "newpass"));
            let mut u = user(None, None);
            u.salt = salt;
            u.hash = hash;
            let signin = SignInRequest { email: "ann@example.com".to_string(), password: "newpass".to_string() };
            assert!(sign_in(&signin, &Some(u)));
        }
        other => panic!("unexpected {:?}", other),
    }
    assert!(change_password(&req, &Some(user(None, Some("r2")))).is_none());
    assert!(change_password(&req, &Some(user(None, None))).is_none());
    assert!(change_password(&req, &None).is_none());
}

#[test]
fn sign_up_confirm_then_sign_in() {
    let req = SignUpRequest {
        email: "ann@example.com".to_string(),
        displayname: "Ann".to_string(),
        password: "pw".to_string(),
    };
    let (st, _) = sign_up_step_with(&req, SignUpState::CheckingDuplicate, SignUpEvent::Rows(0), 11, 12);
    let (st, act) = sign_up_step_with(&req, st, SignUpEvent::Rows(0), 0, 0);
    let r = match act {
        SignUpAction::InsertUser(r) => r,
        other => panic!("unexpected {:?}", other),
    };
    let (_, act) = sign_up_step_with(&req, st, SignUpEvent::Done, 0, 0);
    let mailed = match act {
        SignUpAction::SendMail(m) => m.token,
        other => panic!("unexpected {:?}", other),
    };
    let mut row = StoredUser {
        email: r.email,
        displayname: r.displayname,
        salt: r.salt,
        hash: r.hash,
        confirm_mail_token: Some(r.confirm_mail_token),
        reset_token: None,
    };
    let signin = SignInRequest { email: "ann@example.com".to_string(), password: "pw".to_string() };
    assert!(!sign_in(&signin, &Some(StoredUser { confirm_mail_token: row.confirm_mail_token.clone(), ..clone_user(&row) })));
    let confirm = ConfirmAccountRequest { token: mailed };
    match confirm_account(&confirm, &Some(clone_user(&row))) {
        Some(AccountWrite::Activate(e)) => assert_eq!(e, "ann@example.com"),
        other => panic!("unexpected {:?}", other),
    }
    row.confirm_mail_token = None;
    assert!(sign_in(&signin, &Some(clone_user(&row))));
    assert!(confirm_account(&confirm, &Some(row)).is_none());
}

fn clone_user(u: &StoredUser) -> StoredUser {
    StoredUser {
        email: u.email.clone(),
        displayname: u.displayname.clone(),
        salt: u.salt.clone(),
        hash: u.hash.clone(),
        confirm_mail_token: u.confirm_mail_token.clone(),
        reset_token: u.reset_token.clone(),
    }
}
