//! What happens to an account after sign-up: activation with the token of
//! the confirmation mail, signing in with the password, asking for a password
//! reset, and changing the password with the token of the reset mail. The
//! caller looks the account up and performs the write and the mail that each
//! decision asks for; the users table is modelled as a map from address to
//! account.
use vstd::prelude::*;

use crate::account::{
    law_token_reads_back_as_its_number, password_hash, password_hash_text, step, token_from, token_text,
    SignUpAction, SignUpEvent, SignUpRequest, SignUpState,
};
use crate::hex::hex_value;
use crate::mail::EmailParams;
use crate::random::{draw_below_u128_max, RandomDraw};
use crate::text::text_eq;

verus! {

broadcast use vstd::string::group_string_axioms;

/// An account as the users table stores it.
#[derive(Debug)]
pub struct StoredUser {
    pub email: String,
    pub displayname: String,
    pub salt: String,
    pub hash: String,
    /// The token of the confirmation mail; none once the account is active.
    pub confirm_mail_token: Option<String>,
    /// The token of the last password reset mail, until it is used.
    pub reset_token: Option<String>,
}

/// An account as text.
pub struct UserView {
    pub email: Seq<char>,
    pub displayname: Seq<char>,
    pub salt: Seq<char>,
    pub hash: Seq<char>,
    pub confirm: Option<Seq<char>>,
    pub reset: Option<Seq<char>>,
}

/// The text of an optional text.
pub open spec fn opt_text(o: Option<String>) -> Option<Seq<char>> {
    match o {
        Some(s) => Some(s@),
        None => None,
    }
}

impl View for StoredUser {
    type V = UserView;

    open spec fn view(&self) -> UserView {
        UserView {
            email: self.email@,
            displayname: self.displayname@,
            salt: self.salt@,
            hash: self.hash@,
            confirm: opt_text(self.confirm_mail_token),
            reset: opt_text(self.reset_token),
        }
    }
}

/// The account that a lookup found, as text.
pub open spec fn found_view(found: Option<StoredUser>) -> Option<UserView> {
    match found {
        Some(u) => Some(u@),
        None => None,
    }
}

/// A change to one account, keyed by its address.
#[derive(Debug)]
pub enum AccountWrite {
    /// Clear the confirmation token: the account is active.
    Activate(String),
    /// Store a password reset token.
    SetResetToken { email: String, token: String },
    /// Store a new salt and hash, and clear the reset token.
    SetPassword { email: String, salt: String, hash: String },
}

/// The users table after `w`; a write to an address without an account
/// changes nothing.
pub open spec fn apply_write(t: Map<Seq<char>, UserView>, w: AccountWrite) -> Map<Seq<char>, UserView> {
    match w {
        AccountWrite::Activate(e) => if t.contains_key(e@) {
            t.insert(e@, UserView { confirm: None, ..t[e@] })
        } else {
            t
        },
        AccountWrite::SetResetToken { email, token } => if t.contains_key(email@) {
            t.insert(email@, UserView { reset: Some(token@), ..t[email@] })
        } else {
            t
        },
        AccountWrite::SetPassword { email, salt, hash } => if t.contains_key(email@) {
            t.insert(email@, UserView { salt: salt@, hash: hash@, reset: None, ..t[email@] })
        } else {
            t
        },
    }
}

/// The users table after a sign-up action: an insert adds the account, not
/// yet active; an overwrite replaces the name, salt, hash and confirmation
/// token of the account with the address; any other action writes nothing.
pub open spec fn apply_sign_up_action(t: Map<Seq<char>, UserView>, a: SignUpAction) -> Map<
    Seq<char>,
    UserView,
> {
    match a {
        SignUpAction::InsertUser(r) => t.insert(
            r.email@,
            UserView {
                email: r.email@,
                displayname: r.displayname@,
                salt: r.salt@,
                hash: r.hash@,
                confirm: Some(r.confirm_mail_token@),
                reset: None,
            },
        ),
        SignUpAction::UpdateUser(r) => if t.contains_key(r.email@) {
            t.insert(
                r.email@,
                UserView {
                    displayname: r.displayname@,
                    salt: r.salt@,
                    hash: r.hash@,
                    confirm: Some(r.confirm_mail_token@),
                    ..t[r.email@]
                },
            )
        } else {
            t
        },
        _ => t,
    }
}

/// What a client sends to activate an account.
#[derive(Debug)]
pub struct ConfirmAccountRequest {
    pub token: String,
}

/// What a client sends to sign in.
#[derive(Debug)]
pub struct SignInRequest {
    pub email: String,
    pub password: String,
}

/// What a client sends to ask for a password reset.
#[derive(Debug)]
pub struct PasswordResetRequest {
    pub email: String,
}

/// What a client sends to change a password with a reset token.
#[derive(Debug)]
pub struct ChangePasswordRequest {
    pub token: String,
    pub password: String,
}

/// A password reset: the token to store and the mail that carries it.
#[derive(Debug)]
pub struct PasswordReset {
    pub write: AccountWrite,
    pub mail: EmailParams,
    /// The draw that the token was made from, where it was drawn at random.
    pub draw: Option<RandomDraw>,
}

/// The address whose account the confirmation token `token` activates, given
/// the account that the lookup by that token found: only an account waiting
/// for exactly that token.
pub open spec fn activation_target(token: Seq<char>, found: Option<UserView>) -> Option<Seq<char>> {
    match found {
        Some(u) => if u.confirm == Some(token) {
            Some(u.email)
        } else {
            None
        },
        None => None,
    }
}

/// Whether signing in with `email` and `password` succeeds, given the account
/// that the lookup by address found: it must have that address, be active,
/// and hold the hash of its salt and the password.
pub open spec fn sign_in_ok(email: Seq<char>, password: Seq<char>, found: Option<UserView>) -> bool {
    &&& found matches Some(u)
    &&& u.email == email
    &&& u.confirm is None
    &&& u.hash == password_hash_text(u.salt, password)
}

/// The address whose password the reset token `token` may change, given the
/// account that the lookup by that token found.
pub open spec fn reset_target(token: Seq<char>, found: Option<UserView>) -> Option<Seq<char>> {
    match found {
        Some(u) => if u.reset == Some(token) {
            Some(u.email)
        } else {
            None
        },
        None => None,
    }
}

/// Whether two optional texts are equal.
fn opt_text_eq(a: &Option<String>, b: &String) -> (r: bool)
    ensures
        r == (opt_text(*a) == Some(b@)),
{
    match a {
        Some(s) => text_eq(s.as_str(), b.as_str()),
        None => false,
    }
}

/// Activates the account waiting for the confirmation token of `req`, if the
/// lookup found one.
pub fn confirm_account(req: &ConfirmAccountRequest, found: &Option<StoredUser>) -> (r: Option<
    AccountWrite,
>)
    ensures
        activation_target(req.token@, found_view(*found)) is None ==> r is None,
        activation_target(req.token@, found_view(*found)) matches Some(e) ==> (r matches Some(
            AccountWrite::Activate(a),
        ) && a@ == e),
{
    match found {
        Some(u) => {
            if opt_text_eq(&u.confirm_mail_token, &req.token) {
                Some(AccountWrite::Activate(u.email.clone()))
            } else {
                None
            }
        },
        None => None,
    }
}

/// Checks a sign-in against the account that the lookup by address found;
/// it writes nothing.
pub fn sign_in(req: &SignInRequest, found: &Option<StoredUser>) -> (ok: bool)
    ensures
        ok == sign_in_ok(req.email@, req.password@, found_view(*found)),
{
    match found {
        Some(u) => {
            if u.email != req.email || u.confirm_mail_token.is_some() {
                false
            } else {
                let h = password_hash(u.salt.as_str(), req.password.as_str());
                h == u.hash
            }
        },
        None => false,
    }
}

/// Whether `p` stores the reset token `token` for the account `u` and mails
/// it to the account's address.
pub open spec fn reset_of(p: PasswordReset, u: UserView, token: Seq<char>) -> bool {
    &&& p.write matches AccountWrite::SetResetToken { email, token: t } && email@ == u.email
        && t@ == token
    &&& p.mail.lang@ == "en"@
    &&& p.mail.email_type@ == "resetPassword"@
    &&& p.mail.receiver_display_name@ == u.displayname
    &&& p.mail.receiver_email@ == u.email
    &&& p.mail.token@ == token
}

/// The password reset of the account with the address of `req`, with the
/// token from the number `token_n`; none where the lookup found no such
/// account.
pub fn password_reset_with(req: &PasswordResetRequest, found: &Option<StoredUser>, token_n: u128) -> (r:
    Option<PasswordReset>)
    ensures
        (found matches Some(u) && u.email@ == req.email@) ==> (r matches Some(p) && reset_of(
            p,
            found->0@,
            token_text(token_n),
        )),
        !(found matches Some(u) && u.email@ == req.email@) ==> r is None,
{
    match found {
        Some(u) => {
            if u.email == req.email {
                let token = token_from(token_n);
                let mail = EmailParams {
                    lang: "en".to_owned(),
                    email_type: "resetPassword".to_owned(),
                    receiver_display_name: u.displayname.clone(),
                    receiver_email: u.email.clone(),
                    token: token.clone(),
                };
                Some(
                    PasswordReset {
                        write: AccountWrite::SetResetToken { email: u.email.clone(), token },
                        mail,
                        draw: None,
                    },
                )
            } else {
                None
            }
        },
        None => None,
    }
}

/// The password reset of the account with the address of `req`, with a
/// token drawn at random below `u128::MAX`, which the reset keeps.
pub fn password_reset(req: &PasswordResetRequest, found: &Option<StoredUser>) -> (r: Option<
    PasswordReset,
>)
    ensures
        (found matches Some(u) && u.email@ == req.email@) ==> (r matches Some(p) && exists|
            token_n: u128,
        |
            token_n < u128::MAX && #[trigger] reset_of(p, found->0@, token_text(token_n))),
        (found matches Some(u) && u.email@ == req.email@) ==> (r matches Some(p) && p.draw matches Some(
            d,
        ) && d@ < u128::MAX && reset_of(p, found->0@, token_text(d@))),
        !(found matches Some(u) && u.email@ == req.email@) ==> r is None,
{
    let draw = draw_below_u128_max();
    let r = password_reset_with(req, found, draw.value());
    proof {
        if found matches Some(u) && u.email@ == req.email@ {
            assert(reset_of(r->0, found->0@, token_text(draw@)));
        }
    }
    match r {
        Some(p) => {
            let ghost n = draw@;
            let out = PasswordReset { write: p.write, mail: p.mail, draw: Some(draw) };
            assert(reset_of(out, found->0@, token_text(n)));
            Some(out)
        },
        None => None,
    }
}

/// The new salt and hash for the account waiting for the reset token of
/// `req`, with the salt from the number `salt_n`; none where the lookup found
/// no account waiting for that token.
pub fn change_password_with(req: &ChangePasswordRequest, found: &Option<StoredUser>, salt_n: u128) -> (r:
    Option<AccountWrite>)
    ensures
        reset_target(req.token@, found_view(*found)) is None ==> r is None,
        reset_target(req.token@, found_view(*found)) matches Some(e) ==> (r matches Some(
            AccountWrite::SetPassword { email, salt, hash },
        ) && email@ == e && salt@ == token_text(salt_n) && hash@ == password_hash_text(
            salt@,
            req.password@,
        )),
{
    match found {
        Some(u) => {
            if opt_text_eq(&u.reset_token, &req.token) {
                let salt = token_from(salt_n);
                let hash = password_hash(salt.as_str(), req.password.as_str());
                Some(AccountWrite::SetPassword { email: u.email.clone(), salt, hash })
            } else {
                None
            }
        },
        None => None,
    }
}

/// The new salt and hash for the account waiting for the reset token of
/// `req`, with a salt drawn at random below `u128::MAX`.
pub fn change_password(req: &ChangePasswordRequest, found: &Option<StoredUser>) -> (r: Option<
    AccountWrite,
>)
    ensures
        reset_target(req.token@, found_view(*found)) is None ==> r is None,
        reset_target(req.token@, found_view(*found)) matches Some(e) ==> (r matches Some(
            AccountWrite::SetPassword { email, salt, hash },
        ) && email@ == e && (exists|salt_n: u128|
            salt_n < u128::MAX && #[trigger] token_text(salt_n) == salt@) && hash@
            == password_hash_text(salt@, req.password@)),
{
    let salt = draw_below_u128_max();
    change_password_with(req, found, salt.value())
}

/// Signing up, confirming with the mailed token and signing in with the same
/// password succeeds: where the sign-up wrote its account (by insert, or by
/// overwriting an existing account with the address) and the confirmation
/// lookup by the mailed token finds that account, the activation makes the
/// password valid for the address.
pub proof fn law_sign_up_confirm_sign_in(
    t: Map<Seq<char>, UserView>,
    email: Seq<char>,
    password: Seq<char>,
    write: SignUpAction,
    activation: Option<AccountWrite>,
)
    requires
        write matches SignUpAction::InsertUser(r) || (write matches SignUpAction::UpdateUser(r)
            && t.contains_key(r.email@)),
        t.contains_key(email) ==> t[email].email == email,
        write matches SignUpAction::InsertUser(r) ==> r.email@ == email && r.hash@
            == password_hash_text(r.salt@, password),
        write matches SignUpAction::UpdateUser(r) ==> r.email@ == email && r.hash@
            == password_hash_text(r.salt@, password),
        ({
            let t1 = apply_sign_up_action(t, write);
            let token = match write {
                SignUpAction::InsertUser(r) => r.confirm_mail_token@,
                SignUpAction::UpdateUser(r) => r.confirm_mail_token@,
                _ => Seq::empty(),
            };
            activation_target(token, Some(t1[email])) is None ==> activation is None
        }),
        ({
            let t1 = apply_sign_up_action(t, write);
            let token = match write {
                SignUpAction::InsertUser(r) => r.confirm_mail_token@,
                SignUpAction::UpdateUser(r) => r.confirm_mail_token@,
                _ => Seq::empty(),
            };
            activation_target(token, Some(t1[email])) matches Some(e) ==> (activation matches Some(
                AccountWrite::Activate(a),
            ) && a@ == e)
        }),
    ensures
        activation matches Some(w) && sign_in_ok(
            email,
            password,
            Some(apply_write(apply_sign_up_action(t, write), w)[email]),
        ),
{
}

/// A confirmation token activates an account once: after the activation the
/// account waits for no token, so the same token finds nothing to activate.
pub proof fn law_activation_is_once(t: Map<Seq<char>, UserView>, email: String, token: Seq<char>)
    requires
        t.contains_key(email@),
        t[email@].email == email@,
    ensures
        ({
            let t2 = apply_write(t, AccountWrite::Activate(email));
            &&& t2[email@].confirm is None
            &&& activation_target(token, Some(t2[email@])) is None
            &&& forall|e: Seq<char>| e != email@ ==> #[trigger] t2.contains_key(e) == t.contains_key(e)
                && (t.contains_key(e) ==> t2[e] == t[e])
        }),
{
}

/// A password changed with a reset token is the password that then signs in
/// to the (active) account, and the reset token cannot be used again.
pub proof fn law_changed_password_signs_in(
    t: Map<Seq<char>, UserView>,
    email: Seq<char>,
    password: Seq<char>,
    w: AccountWrite,
)
    requires
        t.contains_key(email),
        t[email].email == email,
        t[email].confirm is None,
        w matches AccountWrite::SetPassword { email: e, salt, hash } && e@ == email && hash@
            == password_hash_text(salt@, password),
    ensures
        sign_in_ok(email, password, Some(apply_write(t, w)[email])),
        apply_write(t, w)[email].reset is None,
{
}

/// The reset mail carries the token that the reset stores, so that token
/// then finds the account for a password change.
pub proof fn law_reset_mail_carries_stored_token(
    t: Map<Seq<char>, UserView>,
    p: PasswordReset,
    token: Seq<char>,
)
    requires
        t.contains_key(p.mail.receiver_email@),
        t[p.mail.receiver_email@].email == p.mail.receiver_email@,
        reset_of(p, t[p.mail.receiver_email@], token),
    ensures
        reset_target(
            p.mail.token@,
            Some(apply_write(t, p.write)[p.mail.receiver_email@]),
        ) == Some(p.mail.receiver_email@),
{
}

/// Whether every account of the table is stored under its own address.
pub open spec fn keyed_by_address(t: Map<Seq<char>, UserView>) -> bool {
    forall|k: Seq<char>| #[trigger] t.contains_key(k) ==> t[k].email == k
}

/// Whether the account with address `email` is active (has no confirmation
/// token).
pub open spec fn is_confirmed(t: Map<Seq<char>, UserView>, email: Seq<char>) -> bool {
    t.contains_key(email) && t[email].confirm is None
}

/// How many rows the duplicate check of sign-up finds in `t`: active
/// accounts with the address.
pub open spec fn confirmed_rows(t: Map<Seq<char>, UserView>, email: Seq<char>) -> usize {
    if is_confirmed(t, email) {
        1
    } else {
        0
    }
}

/// How many rows the account lookup of sign-up finds in `t`: accounts with
/// the address.
pub open spec fn account_rows(t: Map<Seq<char>, UserView>, email: Seq<char>) -> usize {
    if t.contains_key(email) {
        1
    } else {
        0
    }
}

/// The users table after a sign-up whose first step asked for `a1` and
/// whose second (if it came to one) asked for `a2`.
pub open spec fn after_sign_up(t: Map<Seq<char>, UserView>, a1: SignUpAction, a2: SignUpAction) -> Map<
    Seq<char>,
    UserView,
> {
    if a1 is Reply {
        t
    } else {
        apply_sign_up_action(t, a2)
    }
}

/// Over a whole sign-up whose queries read the table `t`: an active account
/// is never changed, whatever the request; the table afterwards holds
/// exactly the addresses it held and the requested one; and every account
/// stays stored under its own address, so the table holds one account per
/// address.
pub proof fn law_sign_up_keeps_confirmed_accounts(
    t: Map<Seq<char>, UserView>,
    req: SignUpRequest,
    s1: SignUpState,
    a1: SignUpAction,
    s2: SignUpState,
    a2: SignUpAction,
)
    requires
        keyed_by_address(t),
        step(
            req,
            SignUpState::CheckingDuplicate,
            SignUpEvent::Rows(confirmed_rows(t, req.email@)),
            s1,
            a1,
        ),
        !(a1 is Reply) ==> step(req, s1, SignUpEvent::Rows(account_rows(t, req.email@)), s2, a2),
    ensures
        ({
            let t2 = after_sign_up(t, a1, a2);
            &&& forall|k: Seq<char>|
                #[trigger] is_confirmed(t, k) ==> t2.contains_key(k) && t2[k] == t[k]
            &&& t2.dom() == t.dom().insert(req.email@)
            &&& keyed_by_address(t2)
        }),
{
    let t2 = after_sign_up(t, a1, a2);
    if a1 is Reply {
        assert(t.contains_key(req.email@));
        assert(t2.dom() =~= t.dom().insert(req.email@));
    } else {
        assert(!is_confirmed(t, req.email@));
        assert(t2.dom() =~= t.dom().insert(req.email@));
        assert forall|k: Seq<char>| #[trigger] t2.contains_key(k) implies t2[k].email == k by {
            if k != req.email@ {
                assert(t.contains_key(k));
            }
        }
    }
}

/// A reset's token is the text of that reset's own random draw: the stored
/// and the mailed token read back as the drawn number, so two resets whose
/// draws differ store and mail different tokens.
pub proof fn law_reset_token_is_its_draw(p: PasswordReset, q: PasswordReset, u: UserView, v: UserView)
    requires
        p.draw matches Some(d) && reset_of(p, u, token_text(d@)),
        q.draw matches Some(d) && reset_of(q, v, token_text(d@)),
    ensures
        hex_value(p.mail.token@) == p.draw->0@,
        p.write matches AccountWrite::SetResetToken { token, .. } && token@ == p.mail.token@,
        p.draw->0@ != q.draw->0@ ==> p.mail.token@ != q.mail.token@,
{
    law_token_reads_back_as_its_number(p.draw->0@, q.draw->0@);
}

} // verus!
