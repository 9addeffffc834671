use vstd::prelude::*;
use crate::builder::ConfigurationBuilder;
use crate::key_material::ServerSetup;
use crate::layers::DraftView;
use crate::mail::MailOptions;

verus! {

/// The finished configuration. It always carries the server setup material,
/// resolved from the final key file.
#[derive(Clone, Debug)]
pub struct Configuration {
    pub ldap_port: u16,
    pub ldaps_port: u16,
    pub http_port: u16,
    pub jwt_secret: String,
    pub ldap_base_dn: String,
    pub ldap_user_dn: String,
    pub ldap_user_pass: String,
    pub database_url: String,
    pub verbose: bool,
    pub key_file: String,
    pub smtp_options: MailOptions,
    pub server_setup: ServerSetup,
}

impl Configuration {
    /// The settings, as a draft's model.
    pub open spec fn settings(&self) -> DraftView {
        DraftView {
            ldap_port: self.ldap_port,
            ldaps_port: self.ldaps_port,
            http_port: self.http_port,
            jwt_secret: self.jwt_secret@,
            ldap_base_dn: self.ldap_base_dn@,
            ldap_user_dn: self.ldap_user_dn@,
            ldap_user_pass: self.ldap_user_pass@,
            database_url: self.database_url@,
            verbose: self.verbose,
            key_file: self.key_file@,
            smtp_options: self.smtp_options@,
        }
    }

    pub fn get_server_setup(&self) -> (r: &ServerSetup)
        ensures
            *r == self.server_setup,
    {
        &self.server_setup
    }
}

impl ConfigurationBuilder {
    /// Checks that `server_setup` was resolved from this draft's final key
    /// file, as `build` requires.
    pub fn validate(&self, server_setup: &ServerSetup) -> (r: Result<(), String>)
        ensures
            r is Ok <==> server_setup.source() == self.key_file@,
    {
        if *server_setup.key_file() == self.key_file {
            Ok(())
        } else {
            Err("the server setup does not come from the configured key file".to_owned())
        }
    }

    /// Assembles the finished configuration from the final draft and the key
    /// material resolved from its key file.
    pub fn build(self, server_setup: ServerSetup) -> (r: Configuration)
        requires
            server_setup.source() == self.key_file@,
        ensures
            r.settings() == self@,
            r.server_setup == server_setup,
            r.server_setup.source() == r.key_file@,
    {
        Configuration {
            ldap_port: self.ldap_port,
            ldaps_port: self.ldaps_port,
            http_port: self.http_port,
            jwt_secret: self.jwt_secret,
            ldap_base_dn: self.ldap_base_dn,
            ldap_user_dn: self.ldap_user_dn,
            ldap_user_pass: self.ldap_user_pass,
            database_url: self.database_url,
            verbose: self.verbose,
            key_file: self.key_file,
            smtp_options: self.smtp_options,
            server_setup,
        }
    }
}

} // verus!
