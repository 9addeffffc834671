use vstd::prelude::*;

verus! {

#[verifier::external_type_specification]
#[verifier::external_body]
pub struct ExMailbox(lettre::message::Mailbox);

/// Relies on `Mailbox`'s derived `Clone`: every field is cloned, so the copy
/// is the same value.
pub assume_specification[ <lettre::message::Mailbox as Clone>::clone ](
    m: &lettre::message::Mailbox,
) -> (r: lettre::message::Mailbox)
    ensures
        r == *m,
;

/// Settings of the outgoing mail service.
#[derive(Clone, Debug)]
pub struct MailOptions {
    pub enable_password_reset: bool,
    pub from: Option<lettre::message::Mailbox>,
    pub reply_to: Option<lettre::message::Mailbox>,
    pub server: String,
    pub port: u16,
    pub user: String,
    pub password: String,
    pub tls_required: bool,
}

/// Copies an optional mailbox.
pub fn clone_mailbox(m: &Option<lettre::message::Mailbox>) -> (r: Option<lettre::message::Mailbox>)
    ensures
        r == *m,
{
    match m {
        Some(b) => Some(b.clone()),
        None => None,
    }
}

/// Mathematical model of `MailOptions`: text fields as character sequences.
pub struct MailView {
    pub enable_password_reset: bool,
    pub from: Option<lettre::message::Mailbox>,
    pub reply_to: Option<lettre::message::Mailbox>,
    pub server: Seq<char>,
    pub port: u16,
    pub user: Seq<char>,
    pub password: Seq<char>,
    pub tls_required: bool,
}

/// The compiled-in mail settings: reset disabled, `localhost:587`, user
/// `admin`, no password, TLS required.
pub open spec fn default_mail() -> MailView {
    MailView {
        enable_password_reset: false,
        from: None,
        reply_to: None,
        server: "localhost"@,
        port: 587,
        user: "admin"@,
        password: Seq::<char>::empty(),
        tls_required: true,
    }
}

impl View for MailOptions {
    type V = MailView;

    open spec fn view(&self) -> MailView {
        MailView {
            enable_password_reset: self.enable_password_reset,
            from: self.from,
            reply_to: self.reply_to,
            server: self.server@,
            port: self.port,
            user: self.user@,
            password: self.password@,
            tls_required: self.tls_required,
        }
    }
}

impl MailOptions {
    /// Field-by-field copy.
    pub fn copy(&self) -> (r: MailOptions)
        ensures
            r@ == self@,
    {
        MailOptions {
            enable_password_reset: self.enable_password_reset,
            from: clone_mailbox(&self.from),
            reply_to: clone_mailbox(&self.reply_to),
            server: self.server.clone(),
            port: self.port,
            user: self.user.clone(),
            password: self.password.clone(),
            tls_required: self.tls_required,
        }
    }
}

impl Default for MailOptions {
    fn default() -> (r: MailOptions)
        ensures
            r@ == default_mail(),
    {
        MailOptions {
            enable_password_reset: false,
            from: None,
            reply_to: None,
            server: "localhost".to_owned(),
            port: 587,
            user: "admin".to_owned(),
            password: String::new(),
            tls_required: true,
        }
    }
}

} // verus!
