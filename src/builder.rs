use vstd::prelude::*;
use crate::fields::{set_if_some, set_text_if_some};
use crate::layers::{ConfigLayer, DraftView, default_draft};
use crate::mail::MailOptions;

verus! {

/// A draft configuration: every setting resolved from defaults, file,
/// environment and overrides, before key material is attached.
#[derive(Clone, Debug)]
pub struct ConfigurationBuilder {
    pub ldap_port: u16,
    pub ldaps_port: u16,
    pub http_port: u16,
    pub jwt_secret: String,
    pub ldap_base_dn: String,
    pub ldap_user_dn: String,
    pub ldap_user_pass: String,
    pub database_url: String,
    pub verbose: bool,
    pub key_file: String,
    pub smtp_options: MailOptions,
}

impl View for ConfigurationBuilder {
    type V = DraftView;

    open spec fn view(&self) -> DraftView {
        DraftView {
            ldap_port: self.ldap_port,
            ldaps_port: self.ldaps_port,
            http_port: self.http_port,
            jwt_secret: self.jwt_secret@,
            ldap_base_dn: self.ldap_base_dn@,
            ldap_user_dn: self.ldap_user_dn@,
            ldap_user_pass: self.ldap_user_pass@,
            database_url: self.database_url@,
            verbose: self.verbose,
            key_file: self.key_file@,
            smtp_options: self.smtp_options@,
        }
    }
}

impl Default for ConfigurationBuilder {
    /// The lowest layer: the compiled-in fallback for every field. Touches no
    /// file: key material is resolved only once the draft is final.
    fn default() -> (r: ConfigurationBuilder)
        ensures
            r@ == default_draft(),
    {
        ConfigurationBuilder {
            ldap_port: 3890,
            ldaps_port: 6360,
            http_port: 17170,
            jwt_secret: "secretjwtsecret".to_owned(),
            ldap_base_dn: "dc=example,dc=com".to_owned(),
            ldap_user_dn: "admin".to_owned(),
            ldap_user_pass: "password".to_owned(),
            database_url: "sqlite://users.db?mode=rwc".to_owned(),
            verbose: false,
            key_file: "server_key".to_owned(),
            smtp_options: MailOptions::default(),
        }
    }
}

impl ConfigurationBuilder {
    /// Puts `layer` over this draft: each field the layer sets replaces the
    /// draft's, every other field is kept.
    pub fn merge(&mut self, layer: &ConfigLayer)
        ensures
            final(self)@ == layer.applied_to(old(self)@),
    {
        set_if_some(&mut self.ldap_port, layer.ldap_port);
        set_if_some(&mut self.ldaps_port, layer.ldaps_port);
        set_if_some(&mut self.http_port, layer.http_port);
        set_text_if_some(&mut self.jwt_secret, &layer.jwt_secret);
        set_text_if_some(&mut self.ldap_base_dn, &layer.ldap_base_dn);
        set_text_if_some(&mut self.ldap_user_dn, &layer.ldap_user_dn);
        set_text_if_some(&mut self.ldap_user_pass, &layer.ldap_user_pass);
        set_text_if_some(&mut self.database_url, &layer.database_url);
        set_if_some(&mut self.verbose, layer.verbose);
        set_text_if_some(&mut self.key_file, &layer.key_file);
        layer.smtp_options.apply_to(&mut self.smtp_options);
    }

    /// Resolves the defaults, the TOML file's layer and the environment's
    /// layer, in ascending precedence.
    pub fn from_layers(file: &ConfigLayer, env: &ConfigLayer) -> (r: ConfigurationBuilder)
        ensures
            r@ == env.applied_to(file.applied_to(default_draft())),
    {
        let mut draft = ConfigurationBuilder::default();
        draft.merge(file);
        draft.merge(env);
        draft
    }
}

} // verus!
