use vstd::prelude::*;
use crate::builder::ConfigurationBuilder;
use crate::fields::{over, over_text, set_if_some, set_text_if_some, set_mailbox_if_some};
use crate::layers::DraftView;
use crate::mail::MailView;

verus! {

/// Something given on the command line that may override settings of a
/// draft configuration.
pub trait ConfigOverrider {
    /// The draft after this override is applied to `d`.
    spec fn overridden(&self, d: DraftView) -> DraftView;

    fn override_config(&self, config: &mut ConfigurationBuilder)
        ensures
            final(config)@ == self.overridden(old(config)@),
    ;
}

/// A top-level command, which carries the general options.
pub trait TopLevelCommandOpts {
    spec fn general(&self) -> GeneralConfigOpts;

    fn general_config(&self) -> (r: &GeneralConfigOpts)
        ensures
            *r == self.general(),
    ;
}

/// Options that every command takes.
#[derive(Clone, Debug)]
pub struct GeneralConfigOpts {
    /// Turns verbose output on; `false` leaves the configured value.
    pub verbose: bool,
    /// Path of the TOML configuration file.
    pub config_file: String,
}

/// Mail settings given on the command line.
#[derive(Clone, Debug)]
pub struct SmtpOpts {
    pub smtp_enable_password_reset: Option<bool>,
    pub smtp_from: Option<lettre::message::Mailbox>,
    pub smtp_reply_to: Option<lettre::message::Mailbox>,
    pub smtp_server: Option<String>,
    pub smtp_port: Option<u16>,
    pub smtp_user: Option<String>,
    pub smtp_password: Option<String>,
    pub smtp_tls_required: Option<bool>,
}

/// Options of the command that runs the server.
#[derive(Clone, Debug)]
pub struct RunOpts {
    pub general_config: GeneralConfigOpts,
    pub ldap_port: Option<u16>,
    pub ldaps_port: Option<u16>,
    pub http_port: Option<u16>,
    pub smtp_opts: SmtpOpts,
}

/// Options of the command that sends a test email.
#[derive(Clone, Debug)]
pub struct TestEmailOpts {
    pub general_config: GeneralConfigOpts,
    pub smtp_opts: SmtpOpts,
}

impl SmtpOpts {
    /// The mail settings after these options are applied to `m`.
    pub open spec fn mail_overridden(&self, m: MailView) -> MailView {
        MailView {
            enable_password_reset: over(self.smtp_enable_password_reset, m.enable_password_reset),
            from: match self.smtp_from {
                Some(b) => Some(b),
                None => m.from,
            },
            reply_to: match self.smtp_reply_to {
                Some(b) => Some(b),
                None => m.reply_to,
            },
            server: over_text(self.smtp_server, m.server),
            port: over(self.smtp_port, m.port),
            user: over_text(self.smtp_user, m.user),
            password: over_text(self.smtp_password, m.password),
            tls_required: over(self.smtp_tls_required, m.tls_required),
        }
    }

    /// No mail setting given.
    pub open spec fn is_unset(&self) -> bool {
        &&& self.smtp_enable_password_reset.is_none()
        &&& self.smtp_from.is_none()
        &&& self.smtp_reply_to.is_none()
        &&& self.smtp_server.is_none()
        &&& self.smtp_port.is_none()
        &&& self.smtp_user.is_none()
        &&& self.smtp_password.is_none()
        &&& self.smtp_tls_required.is_none()
    }
}

impl ConfigOverrider for GeneralConfigOpts {
    /// Verbosity can only be switched on.
    open spec fn overridden(&self, d: DraftView) -> DraftView {
        DraftView { verbose: d.verbose || self.verbose, ..d }
    }

    fn override_config(&self, config: &mut ConfigurationBuilder) {
        if self.verbose {
            config.verbose = true;
        }
    }
}

impl ConfigOverrider for SmtpOpts {
    open spec fn overridden(&self, d: DraftView) -> DraftView {
        DraftView { smtp_options: self.mail_overridden(d.smtp_options), ..d }
    }

    fn override_config(&self, config: &mut ConfigurationBuilder) {
        let m = &mut config.smtp_options;
        set_if_some(&mut m.enable_password_reset, self.smtp_enable_password_reset);
        set_mailbox_if_some(&mut m.from, &self.smtp_from);
        set_mailbox_if_some(&mut m.reply_to, &self.smtp_reply_to);
        set_text_if_some(&mut m.server, &self.smtp_server);
        set_if_some(&mut m.port, self.smtp_port);
        set_text_if_some(&mut m.user, &self.smtp_user);
        set_text_if_some(&mut m.password, &self.smtp_password);
        set_if_some(&mut m.tls_required, self.smtp_tls_required);
    }
}

impl ConfigOverrider for RunOpts {
    /// General options first, then the ports, then the mail options.
    open spec fn overridden(&self, d: DraftView) -> DraftView {
        let g = self.general_config.overridden(d);
        let p = DraftView {
            ldap_port: over(self.ldap_port, g.ldap_port),
            ldaps_port: over(self.ldaps_port, g.ldaps_port),
            http_port: over(self.http_port, g.http_port),
            ..g
        };
        self.smtp_opts.overridden(p)
    }

    fn override_config(&self, config: &mut ConfigurationBuilder) {
        self.general_config.override_config(config);
        set_if_some(&mut config.ldap_port, self.ldap_port);
        set_if_some(&mut config.ldaps_port, self.ldaps_port);
        set_if_some(&mut config.http_port, self.http_port);
        self.smtp_opts.override_config(config);
    }
}

impl ConfigOverrider for TestEmailOpts {
    /// General options first, then the mail options.
    open spec fn overridden(&self, d: DraftView) -> DraftView {
        self.smtp_opts.overridden(self.general_config.overridden(d))
    }

    fn override_config(&self, config: &mut ConfigurationBuilder) {
        self.general_config.override_config(config);
        self.smtp_opts.override_config(config);
    }
}

impl TopLevelCommandOpts for RunOpts {
    open spec fn general(&self) -> GeneralConfigOpts {
        self.general_config
    }

    fn general_config(&self) -> (r: &GeneralConfigOpts) {
        &self.general_config
    }
}

impl TopLevelCommandOpts for TestEmailOpts {
    open spec fn general(&self) -> GeneralConfigOpts {
        self.general_config
    }

    fn general_config(&self) -> (r: &GeneralConfigOpts) {
        &self.general_config
    }
}

} // verus!
