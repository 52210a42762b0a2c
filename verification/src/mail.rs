//! Composition of the service's mails: topic and template language by the
//! reader's language and the mail's kind, subject line, template file name,
//! addresses, and the filling of the template's placeholders.
use vstd::prelude::*;

use crate::text::{concat3, lemma_replace_absent, occurs_in, replace_all, replace_every, text_eq};

verus! {

broadcast use vstd::string::group_string_axioms;

/// What a mail is about and to whom it goes.
#[derive(Debug)]
pub struct EmailParams {
    /// The reader's language: `en`, `zh_cn` or `zh_hk`.
    pub lang: String,
    /// The mail's kind, such as `confirmAccount` or `resetPassword`.
    pub email_type: String,
    pub receiver_display_name: String,
    pub receiver_email: String,
    pub token: String,
}

/// All that is needed to build the mail around its rendered body.
#[derive(Debug)]
pub struct MailPlan {
    pub sender: String,
    pub reply_to: String,
    pub receiver: String,
    pub subject: String,
    pub template_path: String,
}

/// The address that every mail is sent from and answered to.
pub open spec fn sender_address() -> Seq<char> {
    "Peciel <noreply@peciel.com>"@
}

/// The placeholder of the reader's display name in a template.
pub open spec fn username_placeholder() -> Seq<char> {
    "{{username}}"@
}

/// The placeholder of the one-time token in a template.
pub open spec fn token_placeholder() -> Seq<char> {
    "{{token}}"@
}

/// The topic of a mail of kind `kind` for a reader of language `lang`, and the
/// language of its template file; any other language gets the English welcome.
pub open spec fn mail_topic(lang: Seq<char>, kind: Seq<char>) -> (Seq<char>, Seq<char>) {
    if lang == "en"@ {
        if kind == "confirmAccount"@ {
            ("Please Confirm Your Email"@, "en"@)
        } else if kind == "resetPassword"@ {
            ("Reset Your Password"@, "en"@)
        } else {
            ("Welcome"@, "en"@)
        }
    } else if lang == "zh_cn"@ {
        if kind == "confirmAccount"@ {
            ("请确认您的电邮"@, "hans"@)
        } else if kind == "resetPassword"@ {
            ("重设您的密码"@, "hans"@)
        } else {
            ("欢迎"@, "hans"@)
        }
    } else if lang == "zh_hk"@ {
        if kind == "confirmAccount"@ {
            ("請確認您的電郵"@, "hant"@)
        } else if kind == "resetPassword"@ {
            ("重設您的密碼"@, "hant"@)
        } else {
            ("歡迎"@, "hant"@)
        }
    } else {
        ("Welcome"@, "en"@)
    }
}

/// The subject line of a mail with topic `topic`.
pub open spec fn mail_subject(topic: Seq<char>) -> Seq<char> {
    topic + " - Peciel"@
}

/// The template file of a mail of kind `kind` in template language `filelang`.
pub open spec fn template_path(kind: Seq<char>, filelang: Seq<char>) -> Seq<char> {
    "email_server/"@ + kind + "_"@ + filelang + ".html"@
}

/// The template with the reader's display name and the token filled in.
pub open spec fn rendered_body(template: Seq<char>, name: Seq<char>, token: Seq<char>) -> Seq<char> {
    replace_all(replace_all(template, username_placeholder(), name), token_placeholder(), token)
}

/// Chooses the topic and template language of a mail.
pub fn topic_and_template_lang(lang: &str, kind: &str) -> (r: (&'static str, &'static str))
    ensures
        (r.0@, r.1@) == mail_topic(lang@, kind@),
{
    let confirm = text_eq(kind, "confirmAccount");
    let reset = text_eq(kind, "resetPassword");
    if text_eq(lang, "en") {
        if confirm {
            ("Please Confirm Your Email", "en")
        } else if reset {
            ("Reset Your Password", "en")
        } else {
            ("Welcome", "en")
        }
    } else if text_eq(lang, "zh_cn") {
        if confirm {
            ("请确认您的电邮", "hans")
        } else if reset {
            ("重设您的密码", "hans")
        } else {
            ("欢迎", "hans")
        }
    } else if text_eq(lang, "zh_hk") {
        if confirm {
            ("請確認您的電郵", "hant")
        } else if reset {
            ("重設您的密碼", "hant")
        } else {
            ("歡迎", "hant")
        }
    } else {
        ("Welcome", "en")
    }
}

/// Works out the addresses, subject and template file of a mail.
pub fn mail_plan(params: &EmailParams) -> (plan: MailPlan)
    ensures
        plan.sender@ == sender_address(),
        plan.reply_to@ == sender_address(),
        plan.receiver@ == params.receiver_email@,
        plan.subject@ == mail_subject(mail_topic(params.lang@, params.email_type@).0),
        plan.template_path@ == template_path(
            params.email_type@,
            mail_topic(params.lang@, params.email_type@).1,
        ),
{
    let (topic, filelang) = topic_and_template_lang(params.lang.as_str(), params.email_type.as_str());
    let mut subject = String::new();
    subject.append(topic);
    subject.append(" - Peciel");
    let mut path = concat3("email_server/", params.email_type.as_str(), "_");
    path.append(filelang);
    path.append(".html");
    let sender = "Peciel <noreply@peciel.com>".to_owned();
    let reply_to = "Peciel <noreply@peciel.com>".to_owned();
    let receiver = params.receiver_email.clone();
    MailPlan { sender, reply_to, receiver, subject, template_path: path }
}

/// Fills the reader's display name and then the token into a mail template,
/// every occurrence of each placeholder.
pub fn render_mail_body(template: &str, params: &EmailParams) -> (body: String)
    ensures
        body@ == rendered_body(
            template@,
            params.receiver_display_name@,
            params.token@,
        ),
{
    proof {
        reveal_strlit("{{username}}");
        reveal_strlit("{{token}}");
    }
    let named = replace_every(template, "{{username}}", params.receiver_display_name.as_str());
    replace_every(named.as_str(), "{{token}}", params.token.as_str())
}

/// A template that holds neither placeholder is sent as it is, whatever the
/// reader's name and token.
pub proof fn law_template_without_placeholders_is_unchanged(
    template: Seq<char>,
    name: Seq<char>,
    token: Seq<char>,
)
    requires
        !occurs_in(username_placeholder(), template),
        !occurs_in(token_placeholder(), template),
    ensures
        rendered_body(template, name, token) == template,
{
    reveal_strlit("{{username}}");
    reveal_strlit("{{token}}");
    lemma_replace_absent(template, username_placeholder(), name);
    lemma_replace_absent(template, token_placeholder(), token);
}

/// A reader of a language the service does not know gets the English welcome
/// mail, whatever its kind.
pub proof fn law_unknown_language_falls_back_to_english(lang: Seq<char>, kind: Seq<char>)
    requires
        lang != "en"@,
        lang != "zh_cn"@,
        lang != "zh_hk"@,
    ensures
        mail_topic(lang, kind) == mail_topic("en"@, "welcome"@),
{
    reveal_strlit("welcome");
    reveal_strlit("confirmAccount");
    reveal_strlit("resetPassword");
    assert("welcome"@ != "confirmAccount"@) by {
        assert("welcome"@.len() != "confirmAccount"@.len());
    }
    assert("welcome"@ != "resetPassword"@) by {
        assert("welcome"@[0] != "resetPassword"@[0]);
    }
}

/// The template file names the mail's kind and its template language: the
/// language stands between the kind's `_` and `.html`, so different
/// languages give different files; and a reader of `zh_cn` gets the `hans`
/// file, of `zh_hk` the `hant` file, of any other language the `en` file.
pub proof fn law_template_path_names_the_language(
    kind: Seq<char>,
    filelang: Seq<char>,
    other: Seq<char>,
    lang: Seq<char>,
)
    ensures
        template_path(kind, filelang).subrange(
            14int + kind.len(),
            template_path(kind, filelang).len() - 5,
        ) == filelang,
        template_path(kind, filelang).take(13) == "email_server/"@,
        template_path(kind, filelang) == template_path(kind, other) ==> filelang == other,
        mail_topic(lang, kind).1 == (if lang == "zh_cn"@ {
            "hans"@
        } else if lang == "zh_hk"@ {
            "hant"@
        } else {
            "en"@
        }),
{
    reveal_strlit("email_server/");
    reveal_strlit("_");
    reveal_strlit(".html");
    reveal_strlit("en");
    reveal_strlit("zh_cn");
    reveal_strlit("zh_hk");
    assert("en"@ != "zh_cn"@) by {
        assert("en"@.len() != "zh_cn"@.len());
    }
    assert("en"@ != "zh_hk"@) by {
        assert("en"@.len() != "zh_hk"@.len());
    }
    let p = template_path(kind, filelang);
    assert(p.subrange(14int + kind.len(), p.len() - 5) =~= filelang);
    assert(p.take(13) =~= "email_server/"@);
    let q = template_path(kind, other);
    if p == q {
        assert(p.len() == q.len());
        assert(q.subrange(14int + kind.len(), q.len() - 5) =~= other);
    }
}

} // verus!
