use vstd::prelude::*;
use crate::diagnostics::{Warning, warnings_for};
use crate::fields::{over, over_text};
use crate::key_material::{KeyAccess, KeyEvent, key_outcome};
use crate::layers::{ConfigLayer, DraftView, default_admin_password, default_draft, default_jwt_secret};
use crate::overrides::{ConfigOverrider, RunOpts, TestEmailOpts};
use crate::startup::final_draft;

verus! {

/// Precedence: each field of the final draft is the command line's value if
/// given, else the environment's, else the file's, else the default.
pub proof fn law_precedence(file: ConfigLayer, env: ConfigLayer, o: RunOpts)
    ensures
        ({
            let r = final_draft(file, env, o);
            let d = default_draft();
            &&& r.ldap_port == over(o.ldap_port, over(env.ldap_port, over(file.ldap_port, d.ldap_port)))
            &&& r.ldaps_port == over(o.ldaps_port, over(env.ldaps_port, over(file.ldaps_port, d.ldaps_port)))
            &&& r.http_port == over(o.http_port, over(env.http_port, over(file.http_port, d.http_port)))
            &&& r.jwt_secret == over_text(env.jwt_secret, over_text(file.jwt_secret, d.jwt_secret))
            &&& r.ldap_base_dn == over_text(env.ldap_base_dn, over_text(file.ldap_base_dn, d.ldap_base_dn))
            &&& r.ldap_user_dn == over_text(env.ldap_user_dn, over_text(file.ldap_user_dn, d.ldap_user_dn))
            &&& r.ldap_user_pass == over_text(env.ldap_user_pass, over_text(file.ldap_user_pass, d.ldap_user_pass))
            &&& r.database_url == over_text(env.database_url, over_text(file.database_url, d.database_url))
            &&& r.key_file == over_text(env.key_file, over_text(file.key_file, d.key_file))
            &&& r.verbose == (o.general_config.verbose || over(env.verbose, over(file.verbose, d.verbose)))
            &&& r.smtp_options.server == over_text(o.smtp_opts.smtp_server,
                over_text(env.smtp_options.server, over_text(file.smtp_options.server, d.smtp_options.server)))
            &&& r.smtp_options.port == over(o.smtp_opts.smtp_port,
                over(env.smtp_options.port, over(file.smtp_options.port, d.smtp_options.port)))
            &&& r.smtp_options.user == over_text(o.smtp_opts.smtp_user,
                over_text(env.smtp_options.user, over_text(file.smtp_options.user, d.smtp_options.user)))
            &&& r.smtp_options.password == over_text(o.smtp_opts.smtp_password,
                over_text(env.smtp_options.password, over_text(file.smtp_options.password, d.smtp_options.password)))
            &&& r.smtp_options.tls_required == over(o.smtp_opts.smtp_tls_required,
                over(env.smtp_options.tls_required, over(file.smtp_options.tls_required, d.smtp_options.tls_required)))
            &&& r.smtp_options.enable_password_reset == over(o.smtp_opts.smtp_enable_password_reset,
                over(env.smtp_options.enable_password_reset,
                over(file.smtp_options.enable_password_reset, d.smtp_options.enable_password_reset)))
        }),
{
}

/// A layer that sets nothing leaves every draft unchanged.
pub proof fn law_empty_layer_is_identity(layer: ConfigLayer, d: DraftView)
    requires
        layer.is_empty(),
    ensures
        layer.applied_to(d) == d,
{
}

/// Run options that set nothing leave every draft unchanged.
pub proof fn law_unset_run_opts_are_identity(o: RunOpts, d: DraftView)
    requires
        !o.general_config.verbose,
        o.ldap_port.is_none(),
        o.ldaps_port.is_none(),
        o.http_port.is_none(),
        o.smtp_opts.is_unset(),
    ensures
        o.overridden(d) == d,
{
}

/// Test-email options that set nothing leave every draft unchanged.
pub proof fn law_unset_test_email_opts_are_identity(o: TestEmailOpts, d: DraftView)
    requires
        !o.general_config.verbose,
        o.smtp_opts.is_unset(),
    ensures
        o.overridden(d) == d,
{
}

/// Overrides never switch verbosity off, and without the flag they keep it.
pub proof fn law_verbosity_is_monotonic(run: RunOpts, test: TestEmailOpts, d: DraftView)
    ensures
        d.verbose ==> run.overridden(d).verbose,
        d.verbose ==> test.overridden(d).verbose,
        !run.general_config.verbose ==> run.overridden(d).verbose == d.verbose,
        !test.general_config.verbose ==> test.overridden(d).verbose == d.verbose,
{
}

/// Loading an unchanged key file twice gives the same material, exactly the
/// file's bytes.
pub proof fn law_reload_is_identical(key_file: Seq<char>, first: Vec<u8>, second: Vec<u8>)
    requires
        first@ == second@,
        first@.len() > 0,
    ensures
        key_outcome(key_file, KeyEvent::Obtained(first)) == key_outcome(key_file, KeyEvent::Obtained(second)),
        key_outcome(key_file, KeyEvent::Obtained(first)) == Ok::<(Seq<char>, Seq<u8>), (Seq<char>, KeyAccess)>((key_file, first@)),
{
}

/// Material generated and written to a key file, then read back from it,
/// resolves to the same value as the material first generated.
pub proof fn law_generated_material_reloads(key_file: Seq<char>, generated: Vec<u8>, read_back: Vec<u8>)
    requires
        generated@.len() > 0,
        read_back@ == generated@,
    ensures
        key_outcome(key_file, KeyEvent::Obtained(read_back)) == key_outcome(key_file, KeyEvent::Obtained(generated)),
        key_outcome(key_file, KeyEvent::Obtained(generated)) is Ok,
{
}

/// Command-line overrides never move the key file: the key material is
/// resolved from the path that the file and environment layers finalised.
pub proof fn law_key_file_is_final(run: RunOpts, test: TestEmailOpts, d: DraftView)
    ensures
        run.overridden(d).key_file == d.key_file,
        test.overridden(d).key_file == d.key_file,
{
}

/// A warning is given for a setting exactly when it holds its insecure
/// default.
pub proof fn law_warnings_iff_default(d: DraftView)
    ensures
        warnings_for(d).contains(Warning::DefaultJwtSecret) <==> d.jwt_secret == default_jwt_secret(),
        warnings_for(d).contains(Warning::DefaultAdminPassword) <==> d.ldap_user_pass == default_admin_password(),
{
    let s = warnings_for(d);
    if d.jwt_secret == default_jwt_secret() {
        assert(s[0] == Warning::DefaultJwtSecret);
    }
    if d.ldap_user_pass == default_admin_password() {
        assert(s[s.len() - 1] == Warning::DefaultAdminPassword);
    }
}

} // verus!
