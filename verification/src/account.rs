//! Account sign-up: one-time tokens and salts, salted password hashes, and the
//! sign-up procedure as a state machine whose caller performs the database
//! queries and the mail delivery that each step asks for.
use vstd::prelude::*;

use sha2::{Digest, Sha512};

use crate::hex::{
    hex_bytes, hex_digits, hex_encode_lower, hex_value, lemma_hex_bytes_injective, lemma_hex_bytes_len,
    lemma_hex_value_padded, hex_lower_padded, is_hex_char, lemma_hex_digits_are_digits,
    lemma_hex_digits_u128, zero_padded,
};
use crate::mail::EmailParams;
use crate::random::{draw_below_u128_max, RandomDraw};

verus! {

broadcast use vstd::string::group_string_axioms;

/// What a client sends to open an account.
#[derive(Debug)]
pub struct SignUpRequest {
    pub email: String,
    pub displayname: String,
    pub password: String,
}

/// The secrets drawn for a new account: the one-time token of the
/// confirmation mail, the salt, and the salted password hash.
#[derive(Debug)]
pub struct PendingAccount {
    pub confirm_mail_token: String,
    pub salt: String,
    pub hash: String,
    /// The draws that the token and the salt were made from, where they were
    /// drawn at random.
    pub draws: Option<SecretDraws>,
}

/// The random draws of a new account's token and salt.
#[derive(Debug)]
pub struct SecretDraws {
    pub token: RandomDraw,
    pub salt: RandomDraw,
}

/// Whether `p` holds secrets made from its own random draws for a sign-up
/// with this password.
pub open spec fn drawn_pending(p: PendingAccount, password: Seq<char>) -> bool {
    &&& p.draws matches Some(d)
    &&& pending_from(p, password, d.token@, d.salt@)
    &&& d.token@ < u128::MAX
    &&& d.salt@ < u128::MAX
}

/// A row of the users table as sign-up writes it.
#[derive(Debug)]
pub struct UserRecord {
    pub email: String,
    pub displayname: String,
    pub salt: String,
    pub hash: String,
    pub confirm_mail_token: String,
}

/// How a sign-up is answered.
#[derive(Debug, PartialEq, Eq, Structural)]
pub enum SignUpReply {
    /// A confirmed account with this address exists already.
    Duplicate,
    /// The account was written and the confirmation mail sent.
    Created,
}

/// Where a sign-up stands.
#[derive(Debug)]
pub enum SignUpState {
    /// Waiting for the number of confirmed accounts with the address.
    CheckingDuplicate,
    /// Waiting for the number of accounts with the address, confirmed or not.
    CheckingExisting(PendingAccount),
    /// Waiting for the account to be written.
    Writing(PendingAccount),
    /// Waiting for the confirmation mail to be sent.
    Mailing,
    /// Answered; nothing more happens.
    Finished,
}

/// What the caller reports back after doing what a step asked for.
#[derive(Debug)]
pub enum SignUpEvent {
    /// A query found this many rows (a failed query counts as none).
    Rows(usize),
    /// The write or the mail is done.
    Done,
}

/// What a step asks the caller to do.
#[derive(Debug)]
pub enum SignUpAction {
    /// Count the confirmed accounts with this address.
    FindConfirmedUser(String),
    /// Count the accounts with this address.
    FindUser(String),
    /// Insert this account.
    InsertUser(UserRecord),
    /// Overwrite the account with this address.
    UpdateUser(UserRecord),
    /// Send this mail.
    SendMail(EmailParams),
    /// Answer the client.
    Reply(SignUpReply),
}

/// The 64-byte SHA-512 digest of `data`, as the `sha2` crate computes it.
pub uninterp spec fn sha512(data: Seq<u8>) -> Seq<u8>;

/// Calls `Sha512::digest` of the `sha2` crate (through its `Digest` trait).
/// Claims that the 64-byte result is the digest named `sha512` of the bytes,
/// which the crate computes from them alone.
#[verifier::external_body]
fn sha512_digest(data: &[u8]) -> (d: Vec<u8>)
    ensures
        d@ == sha512(data@),
        d@.len() == 64,
{
    Sha512::digest(data).to_vec()
}

/// How many characters a token or salt has at least.
pub const TOKEN_WIDTH: usize = 30;

/// The token or salt text of the random number `n`: its lower-case
/// hexadecimal numeral, padded with zeros to thirty characters.
pub open spec fn token_text(n: u128) -> Seq<char> {
    zero_padded(hex_digits(n as nat), TOKEN_WIDTH as nat)
}

/// The stored hash of `password` with `salt`: the lower-case hexadecimal
/// SHA-512 digest of the UTF-8 bytes of the salt followed by the password.
pub open spec fn password_hash_text(salt: Seq<char>, password: Seq<char>) -> Seq<char> {
    hex_bytes(sha512(vstd::utf8::encode_utf8(salt + password)))
}

/// Whether `p` holds the secrets drawn from `token_n` and `salt_n` for a
/// sign-up with this password.
pub open spec fn pending_from(p: PendingAccount, password: Seq<char>, token_n: u128, salt_n: u128) -> bool {
    &&& p.confirm_mail_token@ == token_text(token_n)
    &&& p.salt@ == token_text(salt_n)
    &&& p.hash@ == password_hash_text(token_text(salt_n), password)
    &&& p.hash@.len() == 128
}

/// Whether `r` is the account row of sign-up `req` with secrets `p`.
pub open spec fn record_from(r: UserRecord, req: SignUpRequest, p: PendingAccount) -> bool {
    &&& r.email@ == req.email@
    &&& r.displayname@ == req.displayname@
    &&& r.salt@ == p.salt@
    &&& r.hash@ == p.hash@
    &&& r.confirm_mail_token@ == p.confirm_mail_token@
}

/// Whether `m` is the English account confirmation mail of sign-up `req`
/// carrying `token`.
pub open spec fn confirmation_mail(m: EmailParams, req: SignUpRequest, token: Seq<char>) -> bool {
    &&& m.lang@ == "en"@
    &&& m.email_type@ == "confirmAccount"@
    &&& m.receiver_display_name@ == req.displayname@
    &&& m.receiver_email@ == req.email@
    &&& m.token@ == token
}

/// Whether a sign-up in state `st` can take event `ev`.
pub open spec fn accepts(st: SignUpState, ev: SignUpEvent) -> bool {
    match (st, ev) {
        (SignUpState::CheckingDuplicate, SignUpEvent::Rows(_)) => true,
        (SignUpState::CheckingExisting(_), SignUpEvent::Rows(_)) => true,
        (SignUpState::Writing(_), SignUpEvent::Done) => true,
        (SignUpState::Mailing, SignUpEvent::Done) => true,
        _ => false,
    }
}

/// One step of sign-up `req` from `st` on `ev` to `next`, asking for `act`,
/// where a new account's token and salt come from `token_n` and `salt_n`.
pub open spec fn step_with(
    req: SignUpRequest,
    st: SignUpState,
    ev: SignUpEvent,
    next: SignUpState,
    act: SignUpAction,
    token_n: u128,
    salt_n: u128,
) -> bool {
    match (st, ev) {
        (SignUpState::CheckingDuplicate, SignUpEvent::Rows(n)) => if n > 0 {
            next is Finished && act == SignUpAction::Reply(SignUpReply::Duplicate)
        } else {
            &&& next matches SignUpState::CheckingExisting(p) && pending_from(
                p,
                req.password@,
                token_n,
                salt_n,
            )
            &&& act matches SignUpAction::FindUser(e) && e@ == req.email@
        },
        (SignUpState::CheckingExisting(p), SignUpEvent::Rows(n)) => {
            &&& next == SignUpState::Writing(p)
            &&& if n == 0 {
                act matches SignUpAction::InsertUser(r) && record_from(r, req, p)
            } else {
                act matches SignUpAction::UpdateUser(r) && record_from(r, req, p)
            }
        },
        (SignUpState::Writing(p), SignUpEvent::Done) => {
            &&& next is Mailing
            &&& act matches SignUpAction::SendMail(m) && confirmation_mail(
                m,
                req,
                p.confirm_mail_token@,
            )
        },
        (SignUpState::Mailing, SignUpEvent::Done) => {
            next is Finished && act == SignUpAction::Reply(SignUpReply::Created)
        },
        _ => false,
    }
}

/// One step of sign-up `req`, for some token and salt drawn below
/// `u128::MAX`.
pub open spec fn step(
    req: SignUpRequest,
    st: SignUpState,
    ev: SignUpEvent,
    next: SignUpState,
    act: SignUpAction,
) -> bool {
    exists|token_n: u128, salt_n: u128|
        token_n < u128::MAX && salt_n < u128::MAX && #[trigger] step_with(
            req,
            st,
            ev,
            next,
            act,
            token_n,
            salt_n,
        )
}

/// Formats the random number `n` as a token or salt (`format!("{:030x}", n)`).
pub fn token_from(n: u128) -> (s: String)
    ensures
        s@ == token_text(n),
{
    hex_lower_padded(n, TOKEN_WIDTH)
}

/// Hashes `password` with `salt`: the lower-case hexadecimal SHA-512 digest
/// of the salt followed by the password.
pub fn password_hash(salt: &str, password: &str) -> (h: String)
    ensures
        h@ == password_hash_text(salt@, password@),
        h@.len() == 128,
{
    let mut text = String::new();
    text.append(salt);
    text.append(password);
    assert(text@ =~= salt@ + password@);
    let bytes = text.as_str().as_bytes();
    let digest = sha512_digest(bytes);
    proof {
        lemma_hex_bytes_len(digest@);
    }
    hex_encode_lower(digest.as_slice())
}

/// The secrets of a new account from the random numbers `token_n` and
/// `salt_n`.
pub fn pending_account_from(req: &SignUpRequest, token_n: u128, salt_n: u128) -> (p: PendingAccount)
    ensures
        pending_from(p, req.password@, token_n, salt_n),
{
    let confirm_mail_token = token_from(token_n);
    let salt = token_from(salt_n);
    let hash = password_hash(salt.as_str(), req.password.as_str());
    PendingAccount { confirm_mail_token, salt, hash, draws: None }
}

/// Draws the secrets of a new account: a token and a salt from numbers
/// drawn at random below `u128::MAX`, which the account keeps.
pub fn new_pending_account(req: &SignUpRequest) -> (p: PendingAccount)
    ensures
        drawn_pending(p, req.password@),
        exists|token_n: u128, salt_n: u128|
            token_n < u128::MAX && salt_n < u128::MAX && #[trigger] pending_from(
                p,
                req.password@,
                token_n,
                salt_n,
            ),
{
    let token = draw_below_u128_max();
    let salt = draw_below_u128_max();
    let mut p = pending_account_from(req, token.value(), salt.value());
    p.draws = Some(SecretDraws { token, salt });
    p
}

/// The account row of sign-up `req` with secrets `p`.
fn record_of(req: &SignUpRequest, p: &PendingAccount) -> (r: UserRecord)
    ensures
        record_from(r, *req, *p),
{
    UserRecord {
        email: req.email.clone(),
        displayname: req.displayname.clone(),
        salt: p.salt.clone(),
        hash: p.hash.clone(),
        confirm_mail_token: p.confirm_mail_token.clone(),
    }
}

/// Whether a sign-up in state `st` can take event `ev`.
pub fn sign_up_accepts(st: &SignUpState, ev: &SignUpEvent) -> (r: bool)
    ensures
        r == accepts(*st, *ev),
{
    match (st, ev) {
        (SignUpState::CheckingDuplicate, SignUpEvent::Rows(_)) => true,
        (SignUpState::CheckingExisting(_), SignUpEvent::Rows(_)) => true,
        (SignUpState::Writing(_), SignUpEvent::Done) => true,
        (SignUpState::Mailing, SignUpEvent::Done) => true,
        _ => false,
    }
}

/// The first step of a sign-up: look for a confirmed account with the
/// address.
pub fn sign_up_start(req: &SignUpRequest) -> (r: (SignUpState, SignUpAction))
    ensures
        r.0 is CheckingDuplicate,
        r.1 matches SignUpAction::FindConfirmedUser(e) && e@ == req.email@,
{
    (SignUpState::CheckingDuplicate, SignUpAction::FindConfirmedUser(req.email.clone()))
}

/// The next step of a sign-up, with a new account's token and salt taken
/// from `token_n` and `salt_n`.
pub fn sign_up_step_with(
    req: &SignUpRequest,
    st: SignUpState,
    ev: SignUpEvent,
    token_n: u128,
    salt_n: u128,
) -> (r: (SignUpState, SignUpAction))
    requires
        accepts(st, ev),
    ensures
        step_with(*req, st, ev, r.0, r.1, token_n, salt_n),
{
    match st {
        SignUpState::CheckingDuplicate => {
            let n = match ev {
                SignUpEvent::Rows(n) => n,
                SignUpEvent::Done => 0,
            };
            if n > 0 {
                (SignUpState::Finished, SignUpAction::Reply(SignUpReply::Duplicate))
            } else {
                let p = pending_account_from(req, token_n, salt_n);
                (SignUpState::CheckingExisting(p), SignUpAction::FindUser(req.email.clone()))
            }
        },
        SignUpState::CheckingExisting(p) => {
            let n = match ev {
                SignUpEvent::Rows(n) => n,
                SignUpEvent::Done => 0,
            };
            let r = record_of(req, &p);
            if n == 0 {
                (SignUpState::Writing(p), SignUpAction::InsertUser(r))
            } else {
                (SignUpState::Writing(p), SignUpAction::UpdateUser(r))
            }
        },
        SignUpState::Writing(p) => {
            let m = EmailParams {
                lang: "en".to_owned(),
                email_type: "confirmAccount".to_owned(),
                receiver_display_name: req.displayname.clone(),
                receiver_email: req.email.clone(),
                token: p.confirm_mail_token.clone(),
            };
            (SignUpState::Mailing, SignUpAction::SendMail(m))
        },
        _ => (SignUpState::Finished, SignUpAction::Reply(SignUpReply::Created)),
    }
}

/// The next step of a sign-up; where it creates an account it draws the
/// token and the salt at random, and the new account keeps those draws.
pub fn sign_up_step(req: &SignUpRequest, st: SignUpState, ev: SignUpEvent) -> (r: (
    SignUpState,
    SignUpAction,
))
    requires
        accepts(st, ev),
    ensures
        step(*req, st, ev, r.0, r.1),
        (st is CheckingDuplicate && ev == SignUpEvent::Rows(0)) ==> (r.0 matches SignUpState::CheckingExisting(
            p,
        ) && drawn_pending(p, req.password@)),
{
    let fresh = match (&st, &ev) {
        (SignUpState::CheckingDuplicate, SignUpEvent::Rows(n)) => *n == 0,
        _ => false,
    };
    if fresh {
        let p = new_pending_account(req);
        let ghost d = p.draws->0;
        let r = (SignUpState::CheckingExisting(p), SignUpAction::FindUser(req.email.clone()));
        assert(step_with(*req, st, ev, r.0, r.1, d.token@, d.salt@));
        r
    } else {
        let r = sign_up_step_with(req, st, ev, 0, 0);
        assert(step_with(*req, st, ev, r.0, r.1, 0, 0));
        r
    }
}

/// The account row that an action writes, if it writes one.
pub open spec fn written_record(a: SignUpAction) -> Option<UserRecord> {
    match a {
        SignUpAction::InsertUser(r) => Some(r),
        SignUpAction::UpdateUser(r) => Some(r),
        _ => None,
    }
}

/// How many steps a sign-up in state `st` has still to take at most.
pub open spec fn steps_left(st: SignUpState) -> nat {
    match st {
        SignUpState::CheckingDuplicate => 4,
        SignUpState::CheckingExisting(_) => 3,
        SignUpState::Writing(_) => 2,
        SignUpState::Mailing => 1,
        SignUpState::Finished => 0,
    }
}

/// Every step brings a sign-up closer to its end, and it ends exactly when
/// the step answers the client: a sign-up answers once and then does
/// nothing more.
pub proof fn law_sign_up_ends_with_one_reply(
    req: SignUpRequest,
    st: SignUpState,
    ev: SignUpEvent,
    next: SignUpState,
    act: SignUpAction,
)
    requires
        step(req, st, ev, next, act),
    ensures
        steps_left(next) < steps_left(st),
        (next is Finished) <==> (act is Reply),
        forall|e: SignUpEvent| !accepts(SignUpState::Finished, e),
{
}

/// A sign-up whose address a confirmed account holds already is refused at
/// once: it writes nothing and sends no mail.
pub proof fn law_confirmed_address_is_refused(
    req: SignUpRequest,
    n: usize,
    next: SignUpState,
    act: SignUpAction,
)
    requires
        n > 0,
        step(req, SignUpState::CheckingDuplicate, SignUpEvent::Rows(n), next, act),
    ensures
        act == SignUpAction::Reply(SignUpReply::Duplicate),
        next is Finished,
{
}

/// A sign-up that passes the duplicate check writes the account (inserting it
/// where no account has the address, overwriting it otherwise) with the
/// salted hash of the password, mails to the address exactly the token that
/// it stored, and then answers that the account was created.
pub proof fn law_mailed_token_is_the_stored_token(
    req: SignUpRequest,
    existing: usize,
    s1: SignUpState,
    a1: SignUpAction,
    s2: SignUpState,
    a2: SignUpAction,
    s3: SignUpState,
    a3: SignUpAction,
    s4: SignUpState,
    a4: SignUpAction,
)
    requires
        step(req, SignUpState::CheckingDuplicate, SignUpEvent::Rows(0), s1, a1),
        step(req, s1, SignUpEvent::Rows(existing), s2, a2),
        step(req, s2, SignUpEvent::Done, s3, a3),
        step(req, s3, SignUpEvent::Done, s4, a4),
    ensures
        a1 matches SignUpAction::FindUser(e) && e@ == req.email@,
        existing == 0 <==> a2 is InsertUser,
        written_record(a2) matches Some(r) && {
            &&& r.email@ == req.email@
            &&& r.displayname@ == req.displayname@
            &&& r.hash@ == password_hash_text(r.salt@, req.password@)
            &&& a3 matches SignUpAction::SendMail(m) && confirmation_mail(
                m,
                req,
                r.confirm_mail_token@,
            )
        },
        a4 == SignUpAction::Reply(SignUpReply::Created),
        s4 is Finished,
{
}

/// Tokens and salts are lower-case hexadecimal texts of thirty to thirty-two
/// characters.
pub proof fn law_token_shape(n: u128)
    ensures
        TOKEN_WIDTH <= token_text(n).len() <= 32,
        forall|i: int| 0 <= i < token_text(n).len() ==> is_hex_char(#[trigger] token_text(n)[i]),
{
    lemma_hex_digits_u128(n);
    lemma_hex_digits_are_digits(n as nat);
    let d = hex_digits(n as nat);
    if d.len() < TOKEN_WIDTH {
        let pad = Seq::new((TOKEN_WIDTH - d.len()) as nat, |i: int| '0');
        assert(token_text(n) == pad + d);
        assert forall|i: int| 0 <= i < token_text(n).len() implies is_hex_char(
            #[trigger] token_text(n)[i],
        ) by {
            if i >= pad.len() {
                assert(token_text(n)[i] == d[i - pad.len()]);
            }
        }
    }
}

/// A token or salt reads back, as a hexadecimal numeral, as the number it
/// was made from; so different numbers give different tokens.
pub proof fn law_token_reads_back_as_its_number(a: u128, b: u128)
    ensures
        hex_value(token_text(a)) == a,
        token_text(a) == token_text(b) ==> a == b,
{
    lemma_hex_value_padded(a as nat, TOKEN_WIDTH as nat);
    lemma_hex_value_padded(b as nat, TOKEN_WIDTH as nat);
}

/// The token and the salt of a new account are the texts of that account's
/// own random draws: they read back as the drawn numbers, so two accounts
/// whose token draws differ get different confirmation tokens (and likewise
/// for salts), and the hash is that of the account's salt and the password.
pub proof fn law_new_account_secrets_are_its_draws(
    p: PendingAccount,
    q: PendingAccount,
    password_p: Seq<char>,
    password_q: Seq<char>,
)
    requires
        drawn_pending(p, password_p),
        drawn_pending(q, password_q),
    ensures
        hex_value(p.confirm_mail_token@) == p.draws->0.token@,
        hex_value(p.salt@) == p.draws->0.salt@,
        p.draws->0.token@ != q.draws->0.token@ ==> p.confirm_mail_token@ != q.confirm_mail_token@,
        p.draws->0.salt@ != q.draws->0.salt@ ==> p.salt@ != q.salt@,
        p.hash@ == password_hash_text(p.salt@, password_p),
{
    let dp = p.draws->0;
    let dq = q.draws->0;
    law_token_reads_back_as_its_number(dp.token@, dq.token@);
    law_token_reads_back_as_its_number(dp.salt@, dq.salt@);
}

/// The stored hash binds the whole password: with one salt, two different
/// passwords (of any length) get the same hash only where SHA-512 itself
/// gives the same digest for two different byte strings, those of the salt
/// followed by each whole password.
pub proof fn law_password_hash_binds_whole_password(salt: Seq<char>, p1: Seq<char>, p2: Seq<char>)
    ensures
        (password_hash_text(salt, p1) == password_hash_text(salt, p2) && p1 != p2) ==> {
            &&& vstd::utf8::encode_utf8(salt + p1) != vstd::utf8::encode_utf8(salt + p2)
            &&& sha512(vstd::utf8::encode_utf8(salt + p1)) == sha512(
                vstd::utf8::encode_utf8(salt + p2),
            )
        },
{
    if password_hash_text(salt, p1) == password_hash_text(salt, p2) && p1 != p2 {
        let e1 = vstd::utf8::encode_utf8(salt + p1);
        let e2 = vstd::utf8::encode_utf8(salt + p2);
        lemma_hex_bytes_injective(sha512(e1), sha512(e2));
        if e1 == e2 {
            vstd::utf8::encode_utf8_decode_utf8(salt + p1);
            vstd::utf8::encode_utf8_decode_utf8(salt + p2);
            assert(salt + p1 == salt + p2);
            assert(p1 =~= (salt + p1).subrange(salt.len() as int, (salt + p1).len() as int));
            assert(p2 =~= (salt + p2).subrange(salt.len() as int, (salt + p2).len() as int));
        }
    }
}

} // verus!
