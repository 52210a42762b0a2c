use sha2::{Digest, Sha512};
use uat::account::{
    new_pending_account, password_hash, pending_account_from, sign_up_start, sign_up_step,
    sign_up_step_with, token_from, SignUpAction, SignUpEvent, SignUpReply, SignUpRequest,
    SignUpState,
};
use uat::endpoints::{converted, setAccountSetting, signIn_github, signIn_google, signOut};

fn request() -> SignUpRequest {
    SignUpRequest {
        email: "ann@example.com".to_string(),
        displayname: "Ann".to_string(),
        password: "hunter2".to_string(),
    }
}

fn is_token(s: &str) -> bool {
    (30..=32).contains(&s.len()) && s.chars().all(|c| c.is_ascii_digit() || ('a'..='f').contains(&c))
}

#[test]
fn tokens_are_padded_lower_hex() {
    assert_eq!(token_from(0), "000000000000000000000000000000");
    assert_eq!(token_from(0xbeef), "00000000000000000000000000beef");
    assert_eq!(token_from(u128::MAX - 1), "fffffffffffffffffffffffffffffffe");
    for n in [1u128, 77, 1 << 100, u128::MAX / 3] {
        assert_eq!(token_from(n), format!("{:030x}", n));
        assert!(is_token(&token_from(n)));
    }
}

#[test]
fn password_hash_of_known_input() {
    // SHA-512 of "abc".
    let h = password_hash("ab", "c");
    assert_eq!(
        h,
        "ddaf35a193617abacc417349ae20413112e6fa4e89a97ea20a9eeee64b55d39a\
         2192992a274fc1a836ba3c23a3feebbd454d4423643ce80e2a9ac94fa54ca49f"
    );
    assert_eq!(h.len(), 128);
}

#[test]
fn password_hash_is_salt_then_password() {
    let salt = "0000000000000000000000000000ff";
    let expected = format!("{:x}", Sha512::digest(format!("{}{}", salt, "pässwörd")));
    assert_eq!(password_hash(salt, "pässwörd"), expected);
    assert_ne!(password_hash("a", "bc"), password_hash("ab", "bd"));
}

#[test]
fn pending_account_from_numbers() {
    let req = request();
    let p = pending_account_from(&req, 1, 2);
    assert_eq!(p.confirm_mail_token, format!("{:030x}", 1u128));
    assert_eq!(p.salt, format!("{:030x}", 2u128));
    assert_eq!(p.hash, password_hash(&p.salt, "hunter2"));
    assert_eq!(p.hash.len(), 128);
}

#[test]
fn new_pending_account_draws_fresh_secrets() {
    let req = request();
    let a = new_pending_account(&req);
    let b = new_pending_account(&req);
    assert!(is_token(&a.confirm_mail_token) && is_token(&a.salt));
    assert_eq!(a.hash, password_hash(&a.salt, "hunter2"));
    assert_ne!(a.salt, b.salt);
    assert_ne!(a.confirm_mail_token, b.confirm_mail_token);
}

#[test]
fn sign_up_starts_with_duplicate_check() {
    let req = request();
    let (st, act) = sign_up_start(&req);
    assert!(matches!(st, SignUpState::CheckingDuplicate));
    match act {
        SignUpAction::FindConfirmedUser(e) => assert_eq!(e, "ann@example.com"),
        other => panic!("unexpected {:?}", other),
    }
}

#[test]
fn confirmed_address_is_refused() {
    let req = request();
    let (st, act) = sign_up_step(&req, SignUpState::CheckingDuplicate, SignUpEvent::Rows(1));
    assert!(matches!(st, SignUpState::Finished));
    match act {
        SignUpAction::Reply(r) => assert_eq!(r, SignUpReply::Duplicate),
        other => panic!("unexpected {:?}", other),
    }
}

fn run(existing: usize) -> (String, String, String, bool) {
    let req = request();
    let (st, act) = sign_up_step_with(&req, SignUpState::CheckingDuplicate, SignUpEvent::Rows(0), 5, 6);
    match act {
        SignUpAction::FindUser(e) => assert_eq!(e, "ann@example.com"),
        other => panic!("unexpected {:?}", other),
    }
    let (st, act) = sign_up_step(&req, st, SignUpEvent::Rows(existing));
    let (inserted, record) = match act {
        SignUpAction::InsertUser(r) => (true, r),
        SignUpAction::UpdateUser(r) => (false, r),
        other => panic!("unexpected {:?}", other),
    };
    assert_eq!(record.email, "ann@example.com");
    assert_eq!(record.displayname, "Ann");
    assert_eq!(record.salt, format!("{:030x}", 6u128));
    assert_eq!(record.confirm_mail_token, format!("{:030x}", 5u128));
    assert_eq!(record.hash, password_hash(&record.salt, "hunter2"));
    let (st, act) = sign_up_step(&req, st, SignUpEvent::Done);
    let mail = match act {
        SignUpAction::SendMail(m) => m,
        other => panic!("unexpected {:?}", other),
    };
    assert_eq!(mail.lang, "en");
    assert_eq!(mail.email_type, "confirmAccount");
    assert_eq!(mail.receiver_email, "ann@example.com");
    assert_eq!(mail.receiver_display_name, "Ann");
    let (st, act) = sign_up_step(&req, st, SignUpEvent::Done);
    assert!(matches!(st, SignUpState::Finished));
    match act {
        SignUpAction::Reply(r) => assert_eq!(r, SignUpReply::Created),
        other => panic!("unexpected {:?}", other),
    }
    (record.confirm_mail_token, mail.token, record.salt, inserted)
}

#[test]
fn new_address_is_inserted_and_mailed_its_token() {
    let (stored, mailed, _, inserted) = run(0);
    assert!(inserted);
    assert_eq!(stored, mailed);
}

#[test]
fn unconfirmed_address_is_overwritten_and_mailed_its_token() {
    let (stored, mailed, _, inserted) = run(2);
    assert!(!inserted);
    assert_eq!(stored, mailed);
}

#[test]
fn random_sign_up_draws_a_token() {
    let req = request();
    let (st, _) = sign_up_step(&req, SignUpState::CheckingDuplicate, SignUpEvent::Rows(0));
    match st {
        SignUpState::CheckingExisting(p) => {
            assert!(is_token(&p.confirm_mail_token));
            assert!(is_token(&p.salt));
            assert_eq!(p.hash, password_hash(&p.salt, "hunter2"));
        }
        other => panic!("unexpected {:?}", other),
    }
}

#[test]
fn unimplemented_endpoints_answer_none() {
    assert_eq!(signIn_github(Some(1)), None);
    assert_eq!(signIn_google(None), None);
    assert_eq!(signOut(None), None);
    assert_eq!(setAccountSetting(None), None);
    assert_eq!(converted(Some(6)), None);
}
