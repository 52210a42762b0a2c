use uat::mail::{mail_plan, render_mail_body, topic_and_template_lang, EmailParams};

fn params(lang: &str, kind: &str) -> EmailParams {
    EmailParams {
        lang: lang.to_string(),
        email_type: kind.to_string(),
        receiver_display_name: "Ann".to_string(),
        receiver_email: "ann@example.com".to_string(),
        token: "0123abc".to_string(),
    }
}

#[test]
fn topics_by_language_and_kind() {
    assert_eq!(topic_and_template_lang("en", "confirmAccount"), ("Please Confirm Your Email", "en"));
    assert_eq!(topic_and_template_lang("en", "resetPassword"), ("Reset Your Password", "en"));
    assert_eq!(topic_and_template_lang("en", "other"), ("Welcome", "en"));
    assert_eq!(topic_and_template_lang("zh_cn", "confirmAccount"), ("请确认您的电邮", "hans"));
    assert_eq!(topic_and_template_lang("zh_cn", "resetPassword"), ("重设您的密码", "hans"));
    assert_eq!(topic_and_template_lang("zh_cn", "x"), ("欢迎", "hans"));
    assert_eq!(topic_and_template_lang("zh_hk", "confirmAccount"), ("請確認您的電郵", "hant"));
    assert_eq!(topic_and_template_lang("zh_hk", "resetPassword"), ("重設您的密碼", "hant"));
    assert_eq!(topic_and_template_lang("zh_hk", ""), ("歡迎", "hant"));
}

#[test]
fn unknown_language_gets_english_welcome() {
    assert_eq!(topic_and_template_lang("fr", "confirmAccount"), ("Welcome", "en"));
    assert_eq!(topic_and_template_lang("", "resetPassword"), ("Welcome", "en"));
    assert_eq!(topic_and_template_lang("EN", "confirmAccount"), ("Welcome", "en"));
}

#[test]
fn plan_of_confirmation_mail() {
    let plan = mail_plan(&params("en", "confirmAccount"));
    assert_eq!(plan.sender, "Peciel <noreply@peciel.com>");
    assert_eq!(plan.reply_to, "Peciel <noreply@peciel.com>");
    assert_eq!(plan.receiver, "ann@example.com");
    assert_eq!(plan.subject, "Please Confirm Your Email - Peciel");
    assert_eq!(plan.template_path, "email_server/confirmAccount_en.html");
}

#[test]
fn plan_of_chinese_reset_mail() {
    let plan = mail_plan(&params("zh_hk", "resetPassword"));
    assert_eq!(plan.subject, "重設您的密碼 - Peciel");
    assert_eq!(plan.template_path, "email_server/resetPassword_hant.html");
    let plan = mail_plan(&params("de", "resetPassword"));
    assert_eq!(plan.subject, "Welcome - Peciel");
    assert_eq!(plan.template_path, "email_server/resetPassword_en.html");
}

#[test]
fn body_fills_every_placeholder() {
    let p = params("en", "confirmAccount");
    let body = render_mail_body("<p>Hi {{username}}</p><a href=\"/c/{{token}}\">{{token}}</a>", &p);
    assert_eq!(body, "<p>Hi Ann</p><a href=\"/c/0123abc\">0123abc</a>");
}

#[test]
fn body_fills_name_before_token() {
    let mut p = params("en", "confirmAccount");
    p.receiver_display_name = "{{token}}".to_string();
    assert_eq!(render_mail_body("{{username}}", &p), "0123abc");
}

#[test]
fn body_without_placeholders_is_unchanged() {
    let p = params("en", "confirmAccount");
    assert_eq!(render_mail_body("<p>Plain {{user}}</p>", &p), "<p>Plain {{user}}</p>");
}
