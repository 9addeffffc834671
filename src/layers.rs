use vstd::prelude::*;
use crate::fields::{over, over_text, set_if_some, set_text_if_some, set_mailbox_if_some};
use crate::mail::{MailOptions, MailView};

verus! {

/// The mail fields that one configuration source sets; `None` leaves the
/// field to the sources below.
#[derive(Clone, Debug)]
pub struct MailLayer {
    pub enable_password_reset: Option<bool>,
    pub from: Option<lettre::message::Mailbox>,
    pub reply_to: Option<lettre::message::Mailbox>,
    pub server: Option<String>,
    pub port: Option<u16>,
    pub user: Option<String>,
    pub password: Option<String>,
    pub tls_required: Option<bool>,
}

/// The fields that one configuration source (a TOML file, the environment)
/// sets; `None` leaves the field to the sources below.
#[derive(Clone, Debug)]
pub struct ConfigLayer {
    pub ldap_port: Option<u16>,
    pub ldaps_port: Option<u16>,
    pub http_port: Option<u16>,
    pub jwt_secret: Option<String>,
    pub ldap_base_dn: Option<String>,
    pub ldap_user_dn: Option<String>,
    pub ldap_user_pass: Option<String>,
    pub database_url: Option<String>,
    pub verbose: Option<bool>,
    pub key_file: Option<String>,
    pub smtp_options: MailLayer,
}

impl MailLayer {
    /// The mail settings after this layer is put over `m`.
    pub open spec fn applied_to(self, m: MailView) -> MailView {
        MailView {
            enable_password_reset: over(self.enable_password_reset, m.enable_password_reset),
            from: match self.from {
                Some(b) => Some(b),
                None => m.from,
            },
            reply_to: match self.reply_to {
                Some(b) => Some(b),
                None => m.reply_to,
            },
            server: over_text(self.server, m.server),
            port: over(self.port, m.port),
            user: over_text(self.user, m.user),
            password: over_text(self.password, m.password),
            tls_required: over(self.tls_required, m.tls_required),
        }
    }

    pub open spec fn is_empty(self) -> bool {
        &&& self.enable_password_reset.is_none()
        &&& self.from.is_none()
        &&& self.reply_to.is_none()
        &&& self.server.is_none()
        &&& self.port.is_none()
        &&& self.user.is_none()
        &&& self.password.is_none()
        &&& self.tls_required.is_none()
    }

    /// A layer that sets nothing.
    pub fn empty() -> (r: MailLayer)
        ensures
            r.is_empty(),
    {
        MailLayer {
            enable_password_reset: None,
            from: None,
            reply_to: None,
            server: None,
            port: None,
            user: None,
            password: None,
            tls_required: None,
        }
    }

    /// Puts this layer over `target`, field by field.
    pub fn apply_to(&self, target: &mut MailOptions)
        ensures
            final(target)@ == self.applied_to(old(target)@),
    {
        set_if_some(&mut target.enable_password_reset, self.enable_password_reset);
        set_mailbox_if_some(&mut target.from, &self.from);
        set_mailbox_if_some(&mut target.reply_to, &self.reply_to);
        set_text_if_some(&mut target.server, &self.server);
        set_if_some(&mut target.port, self.port);
        set_text_if_some(&mut target.user, &self.user);
        set_text_if_some(&mut target.password, &self.password);
        set_if_some(&mut target.tls_required, self.tls_required);
    }
}

/// Mathematical model of a draft configuration.
pub struct DraftView {
    pub ldap_port: u16,
    pub ldaps_port: u16,
    pub http_port: u16,
    pub jwt_secret: Seq<char>,
    pub ldap_base_dn: Seq<char>,
    pub ldap_user_dn: Seq<char>,
    pub ldap_user_pass: Seq<char>,
    pub database_url: Seq<char>,
    pub verbose: bool,
    pub key_file: Seq<char>,
    pub smtp_options: MailView,
}

/// The insecure compiled-in signing secret.
pub open spec fn default_jwt_secret() -> Seq<char> {
    "secretjwtsecret"@
}

/// The insecure compiled-in administrator password.
pub open spec fn default_admin_password() -> Seq<char> {
    "password"@
}

/// The compiled-in fallback for every field.
pub open spec fn default_draft() -> DraftView {
    DraftView {
        ldap_port: 3890,
        ldaps_port: 6360,
        http_port: 17170,
        jwt_secret: default_jwt_secret(),
        ldap_base_dn: "dc=example,dc=com"@,
        ldap_user_dn: "admin"@,
        ldap_user_pass: default_admin_password(),
        database_url: "sqlite://users.db?mode=rwc"@,
        verbose: false,
        key_file: "server_key"@,
        smtp_options: crate::mail::default_mail(),
    }
}

impl ConfigLayer {
    /// The draft after this layer is put over `d`.
    pub open spec fn applied_to(self, d: DraftView) -> DraftView {
        DraftView {
            ldap_port: over(self.ldap_port, d.ldap_port),
            ldaps_port: over(self.ldaps_port, d.ldaps_port),
            http_port: over(self.http_port, d.http_port),
            jwt_secret: over_text(self.jwt_secret, d.jwt_secret),
            ldap_base_dn: over_text(self.ldap_base_dn, d.ldap_base_dn),
            ldap_user_dn: over_text(self.ldap_user_dn, d.ldap_user_dn),
            ldap_user_pass: over_text(self.ldap_user_pass, d.ldap_user_pass),
            database_url: over_text(self.database_url, d.database_url),
            verbose: over(self.verbose, d.verbose),
            key_file: over_text(self.key_file, d.key_file),
            smtp_options: self.smtp_options.applied_to(d.smtp_options),
        }
    }

    pub open spec fn is_empty(self) -> bool {
        &&& self.ldap_port.is_none()
        &&& self.ldaps_port.is_none()
        &&& self.http_port.is_none()
        &&& self.jwt_secret.is_none()
        &&& self.ldap_base_dn.is_none()
        &&& self.ldap_user_dn.is_none()
        &&& self.ldap_user_pass.is_none()
        &&& self.database_url.is_none()
        &&& self.verbose.is_none()
        &&& self.key_file.is_none()
        &&& self.smtp_options.is_empty()
    }

    /// A layer that sets nothing: what an absent TOML file contributes.
    pub fn empty() -> (r: ConfigLayer)
        ensures
            r.is_empty(),
    {
        ConfigLayer {
            ldap_port: None,
            ldaps_port: None,
            http_port: None,
            jwt_secret: None,
            ldap_base_dn: None,
            ldap_user_dn: None,
            ldap_user_pass: None,
            database_url: None,
            verbose: None,
            key_file: None,
            smtp_options: MailLayer::empty(),
        }
    }
}

} // verus!
