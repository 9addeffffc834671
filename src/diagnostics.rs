use vstd::prelude::*;
use crate::configuration::Configuration;
use crate::layers::{DraftView, default_admin_password, default_jwt_secret};

verus! {

/// A warning about an insecure default still in effect.
#[derive(Clone, Copy, Debug, PartialEq, Eq)]
pub enum Warning {
    DefaultJwtSecret,
    DefaultAdminPassword,
}

impl Warning {
    pub open spec fn text(self) -> Seq<char> {
        match self {
            Warning::DefaultJwtSecret => "WARNING: Default JWT secret used! This is highly unsafe and can allow attackers to log in as admin."@,
            Warning::DefaultAdminPassword => "WARNING: Unsecure default admin password is used."@,
        }
    }

    /// The line shown to the operator.
    pub fn message(&self) -> (r: String)
        ensures
            r@ == self.text(),
    {
        match self {
            Warning::DefaultJwtSecret => "WARNING: Default JWT secret used! This is highly unsafe and can allow attackers to log in as admin.".to_owned(),
            Warning::DefaultAdminPassword => "WARNING: Unsecure default admin password is used.".to_owned(),
        }
    }
}

/// The warnings for `d`, signing secret first.
pub open spec fn warnings_for(d: DraftView) -> Seq<Warning> {
    let s = if d.jwt_secret == default_jwt_secret() {
        seq![Warning::DefaultJwtSecret]
    } else {
        Seq::empty()
    };
    if d.ldap_user_pass == default_admin_password() {
        s.push(Warning::DefaultAdminPassword)
    } else {
        s
    }
}

/// The warnings for the insecure defaults that remain in `config`.
pub fn diagnostics(config: &Configuration) -> (r: Vec<Warning>)
    ensures
        r@ == warnings_for(config.settings()),
{
    let mut r: Vec<Warning> = Vec::new();
    if config.jwt_secret == "secretjwtsecret".to_owned() {
        r.push(Warning::DefaultJwtSecret);
    }
    if config.ldap_user_pass == "password".to_owned() {
        r.push(Warning::DefaultAdminPassword);
    }
    r
}

} // verus!
