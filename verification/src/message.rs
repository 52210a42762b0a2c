//! Building a mail for delivery with the `lettre` crate from a mail plan and
//! a rendered body: the addresses are parsed in the order sender, reply-to,
//! receiver, and the first one that does not parse is reported. Each step
//! keeps a record of the texts it handed to `lettre`, so that the built mail
//! is known to carry the plan's addresses, subject and body.
use vstd::prelude::*;

use lettre::address::AddressError;
use lettre::error::Error as EmailError;
use lettre::message::header::ContentType;
use lettre::message::{Mailbox, MessageBuilder};
use lettre::Message;

use crate::mail::MailPlan;

verus! {

/// A mail address with an optional display name.
#[verifier::external_type_specification]
#[verifier::external_body]
pub struct ExMailbox(Mailbox);

/// Why a text is no mail address.
#[verifier::external_type_specification]
#[verifier::external_body]
pub struct ExAddressError(AddressError);

/// A mail ready for delivery.
#[verifier::external_type_specification]
#[verifier::external_body]
pub struct ExMessage(Message);

/// A mail under construction.
#[verifier::external_type_specification]
#[verifier::external_body]
pub struct ExMessageBuilder(MessageBuilder);

/// Why a mail could not be built.
#[verifier::external_type_specification]
#[verifier::external_body]
pub struct ExEmailError(EmailError);

/// The header texts handed to a mail under construction: each list in the
/// order its mailboxes were added.
pub struct MailHeaders {
    pub from: Seq<Seq<char>>,
    pub reply_to: Seq<Seq<char>>,
    pub to: Seq<Seq<char>>,
    pub subject: Option<Seq<char>>,
    pub html: bool,
}

/// The headers and the body text handed to a built mail.
pub struct MailContents {
    pub headers: MailHeaders,
    pub body: Seq<char>,
}

/// A mailbox parsed by `lettre`, with the text it was parsed from.
pub struct ParsedMailbox {
    mailbox: Mailbox,
    text: Ghost<Seq<char>>,
}

impl View for ParsedMailbox {
    type V = Seq<char>;

    closed spec fn view(&self) -> Seq<char> {
        self.text@
    }
}

/// A mail under construction, with the headers handed to it so far.
pub struct MailDraft {
    builder: MessageBuilder,
    headers: Ghost<MailHeaders>,
}

impl View for MailDraft {
    type V = MailHeaders;

    closed spec fn view(&self) -> MailHeaders {
        self.headers@
    }
}

/// A mail ready for delivery, with the headers and body it was built from.
pub struct BuiltMail {
    message: Message,
    contents: Ghost<MailContents>,
}

impl View for BuiltMail {
    type V = MailContents;

    closed spec fn view(&self) -> MailContents {
        self.contents@
    }
}

impl BuiltMail {
    /// The `lettre` message, to be handed to a transport.
    pub fn into_message(self) -> Message {
        self.message
    }
}

/// Whether `lettre` reads `text` as a mailbox (`Name <user@domain>` or a bare
/// address); its parser decides this from the text alone.
pub uninterp spec fn mailbox_parses(text: Seq<char>) -> bool;

/// Calls `<Mailbox as FromStr>::from_str` of `lettre` (`text.parse()`).
/// Claims that it succeeds exactly where `mailbox_parses` holds of the text,
/// and records the text beside the mailbox; nothing is claimed of how the
/// mailbox itself renders the text.
#[verifier::external_body]
fn parse_mailbox(text: &str) -> (r: Result<ParsedMailbox, AddressError>)
    ensures
        r is Ok <==> mailbox_parses(text@),
        r matches Ok(m) ==> m@ == text@,
{
    match text.parse::<Mailbox>() {
        Ok(mailbox) => Ok(ParsedMailbox { mailbox, text: Ghost(text@) }),
        Err(e) => Err(e),
    }
}

/// The headers of a new mail: none.
pub open spec fn no_headers() -> MailHeaders {
    MailHeaders { from: Seq::empty(), reply_to: Seq::empty(), to: Seq::empty(), subject: None, html: false }
}

/// Calls `Message::builder` of `lettre`, which starts a mail without headers.
#[verifier::external_body]
fn message_builder() -> (d: MailDraft)
    ensures
        d@ == no_headers(),
{
    MailDraft { builder: Message::builder(), headers: Ghost(no_headers()) }
}

/// Calls `MessageBuilder::from` of `lettre`, which adds the mailbox to the
/// `From` header.
#[verifier::external_body]
fn builder_from(d: MailDraft, mbox: ParsedMailbox) -> (r: MailDraft)
    ensures
        r@ == (MailHeaders { from: d@.from.push(mbox@), ..d@ }),
{
    let headers = Ghost(MailHeaders { from: d.headers@.from.push(mbox.text@), ..d.headers@ });
    MailDraft { builder: d.builder.from(mbox.mailbox), headers }
}

/// Calls `MessageBuilder::reply_to` of `lettre`, which adds the mailbox to
/// the `Reply-To` header.
#[verifier::external_body]
fn builder_reply_to(d: MailDraft, mbox: ParsedMailbox) -> (r: MailDraft)
    ensures
        r@ == (MailHeaders { reply_to: d@.reply_to.push(mbox@), ..d@ }),
{
    let headers = Ghost(MailHeaders { reply_to: d.headers@.reply_to.push(mbox.text@), ..d.headers@ });
    MailDraft { builder: d.builder.reply_to(mbox.mailbox), headers }
}

/// Calls `MessageBuilder::to` of `lettre`, which adds the mailbox to the `To`
/// header.
#[verifier::external_body]
fn builder_to(d: MailDraft, mbox: ParsedMailbox) -> (r: MailDraft)
    ensures
        r@ == (MailHeaders { to: d@.to.push(mbox@), ..d@ }),
{
    let headers = Ghost(MailHeaders { to: d.headers@.to.push(mbox.text@), ..d.headers@ });
    MailDraft { builder: d.builder.to(mbox.mailbox), headers }
}

/// Calls `MessageBuilder::subject` of `lettre`, which sets the `Subject`
/// header to the text.
#[verifier::external_body]
fn builder_subject(d: MailDraft, subject: String) -> (r: MailDraft)
    ensures
        r@ == (MailHeaders { subject: Some(subject@), ..d@ }),
{
    let headers = Ghost(MailHeaders { subject: Some(subject@), ..d.headers@ });
    MailDraft { builder: d.builder.subject(subject), headers }
}

/// Calls `MessageBuilder::header` of `lettre` with `ContentType::TEXT_HTML`,
/// which sets the `Content-Type` header to `text/html; charset=utf-8`.
#[verifier::external_body]
fn builder_html(d: MailDraft) -> (r: MailDraft)
    ensures
        r@ == (MailHeaders { html: true, ..d@ }),
{
    let headers = Ghost(MailHeaders { html: true, ..d.headers@ });
    MailDraft { builder: d.builder.header(ContentType::TEXT_HTML), headers }
}

/// Calls `MessageBuilder::body` of `lettre`, which builds the mail with the
/// headers handed so far and the body text (adding a `Date` header of the
/// current time and a transfer encoding of its choice). Claims that a built
/// mail carries those headers and that body, and that the build succeeds
/// where `From` holds exactly one mailbox and `To` at least one: `lettre`
/// refuses a mail only for a missing or multiple `From` without `Sender`, or
/// for no recipient, reading these from the headers it was handed. Nothing
/// is claimed of the error where the build fails.
#[verifier::external_body]
fn builder_body(d: MailDraft, body: String) -> (r: Result<BuiltMail, EmailError>)
    ensures
        r matches Ok(m) ==> m@ == (MailContents { headers: d@, body: body@ }),
        d@.from.len() == 1 && d@.to.len() >= 1 ==> r is Ok,
{
    let contents = Ghost(MailContents { headers: d.headers@, body: body@ });
    match d.builder.body(body) {
        Ok(message) => Ok(BuiltMail { message, contents }),
        Err(e) => Err(e),
    }
}

/// Why a mail could not be built.
#[derive(Debug)]
pub enum ComposeError {
    /// The sender is no mail address.
    BadSender,
    /// The reply-to address is no mail address.
    BadReplyTo,
    /// The receiver is no mail address.
    BadReceiver,
    /// `lettre` refused to build the mail.
    Build(EmailError),
}

/// Builds the HTML mail that `plan` describes with body `body`: from the
/// sender, answered to the reply-to address, to the receiver, under the
/// plan's subject. It succeeds exactly where all three addresses parse.
pub fn compose_message(plan: &MailPlan, body: String) -> (r: Result<BuiltMail, ComposeError>)
    ensures
        r matches Err(ComposeError::BadSender) <==> !mailbox_parses(plan.sender@),
        r matches Err(ComposeError::BadReplyTo) <==> mailbox_parses(plan.sender@)
            && !mailbox_parses(plan.reply_to@),
        r matches Err(ComposeError::BadReceiver) <==> mailbox_parses(plan.sender@)
            && mailbox_parses(plan.reply_to@) && !mailbox_parses(plan.receiver@),
        r is Ok <==> mailbox_parses(plan.sender@) && mailbox_parses(plan.reply_to@)
            && mailbox_parses(plan.receiver@),
        !(r matches Err(ComposeError::Build(_))),
        r matches Ok(m) ==> {
            &&& m@.headers.from == seq![plan.sender@]
            &&& m@.headers.reply_to == seq![plan.reply_to@]
            &&& m@.headers.to == seq![plan.receiver@]
            &&& m@.headers.subject == Some(plan.subject@)
            &&& m@.headers.html
            &&& m@.body == body@
        },
{
    let from = match parse_mailbox(plan.sender.as_str()) {
        Ok(m) => m,
        Err(_) => {
            return Err(ComposeError::BadSender);
        },
    };
    let reply_to = match parse_mailbox(plan.reply_to.as_str()) {
        Ok(m) => m,
        Err(_) => {
            return Err(ComposeError::BadReplyTo);
        },
    };
    let to = match parse_mailbox(plan.receiver.as_str()) {
        Ok(m) => m,
        Err(_) => {
            return Err(ComposeError::BadReceiver);
        },
    };
    let d = message_builder();
    let d = builder_from(d, from);
    let d = builder_reply_to(d, reply_to);
    let d = builder_to(d, to);
    let d = builder_subject(d, plan.subject.clone());
    let d = builder_html(d);
    match builder_body(d, body) {
        Ok(m) => {
            assert(m@.headers.from =~= seq![plan.sender@]);
            assert(m@.headers.reply_to =~= seq![plan.reply_to@]);
            assert(m@.headers.to =~= seq![plan.receiver@]);
            Ok(m)
        },
        Err(e) => Err(ComposeError::Build(e)),
    }
}

} // verus!
