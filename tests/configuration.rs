use lettre::message::Mailbox;
use lldap_config::builder::ConfigurationBuilder;
use lldap_config::configuration::Configuration;
use lldap_config::diagnostics::{diagnostics, Warning};
use lldap_config::key_material::{
    key_request, resolve_key_material, KeyAccess, KeyEvent, KeyRequest,
};
use lldap_config::layers::{ConfigLayer, MailLayer};
use lldap_config::mail::MailOptions;
use lldap_config::overrides::{
    ConfigOverrider, GeneralConfigOpts, RunOpts, SmtpOpts, TestEmailOpts, TopLevelCommandOpts,
};
use lldap_config::startup::{assemble, resolve_draft};

fn general(verbose: bool) -> GeneralConfigOpts {
    GeneralConfigOpts { verbose, config_file: "lldap_config.toml".to_string() }
}

fn no_smtp() -> SmtpOpts {
    SmtpOpts {
        smtp_enable_password_reset: None,
        smtp_from: None,
        smtp_reply_to: None,
        smtp_server: None,
        smtp_port: None,
        smtp_user: None,
        smtp_password: None,
        smtp_tls_required: None,
    }
}

fn no_run_overrides() -> RunOpts {
    RunOpts {
        general_config: general(false),
        ldap_port: None,
        ldaps_port: None,
        http_port: None,
        smtp_opts: no_smtp(),
    }
}

fn finish(draft: ConfigurationBuilder) -> Configuration {
    match assemble(draft, KeyEvent::Obtained(vec![7, 8, 9])) {
        Ok(c) => c,
        Err(e) => panic!("key material refused: {:?}", e),
    }
}

fn http_port_layer(port: u16) -> ConfigLayer {
    let mut layer = ConfigLayer::empty();
    layer.http_port = Some(port);
    layer
}

fn mailbox(s: &str) -> Mailbox {
    s.parse().unwrap()
}

#[test]
fn defaults_without_any_source() {
    let draft = resolve_draft(&ConfigLayer::empty(), &ConfigLayer::empty(), &no_run_overrides());
    let config = finish(draft);
    assert_eq!(config.ldap_port, 3890);
    assert_eq!(config.ldaps_port, 6360);
    assert_eq!(config.http_port, 17170);
    assert_eq!(config.jwt_secret, "secretjwtsecret");
    assert_eq!(config.ldap_base_dn, "dc=example,dc=com");
    assert_eq!(config.ldap_user_dn, "admin");
    assert_eq!(config.ldap_user_pass, "password");
    assert_eq!(config.database_url, "sqlite://users.db?mode=rwc");
    assert!(!config.verbose);
    assert_eq!(config.key_file, "server_key");
    assert!(!config.smtp_options.enable_password_reset);
    assert!(config.smtp_options.from.is_none());
    assert!(config.smtp_options.reply_to.is_none());
    assert_eq!(config.smtp_options.server, "localhost");
    assert_eq!(config.smtp_options.port, 587);
    assert_eq!(config.smtp_options.user, "admin");
    assert_eq!(config.smtp_options.password, "");
    assert!(config.smtp_options.tls_required);
    assert_eq!(
        diagnostics(&config),
        vec![Warning::DefaultJwtSecret, Warning::DefaultAdminPassword]
    );
}

#[test]
fn file_sets_http_port() {
    let draft =
        resolve_draft(&http_port_layer(8080), &ConfigLayer::empty(), &no_run_overrides());
    assert_eq!(draft.http_port, 8080);
    assert_eq!(draft.ldap_port, 3890);
}

#[test]
fn env_beats_file() {
    let draft = resolve_draft(&http_port_layer(8080), &http_port_layer(9090), &no_run_overrides());
    assert_eq!(draft.http_port, 9090);
}

#[test]
fn override_beats_env() {
    let mut opts = no_run_overrides();
    opts.http_port = Some(7070);
    let draft = resolve_draft(&http_port_layer(8080), &http_port_layer(9090), &opts);
    assert_eq!(draft.http_port, 7070);
    assert_eq!(finish(draft).http_port, 7070);
}

#[test]
fn custom_key_file_is_the_only_one_generated() {
    let mut env = ConfigLayer::empty();
    env.key_file = Some("custom_key".to_string());
    let draft = resolve_draft(&ConfigLayer::empty(), &env, &no_run_overrides());
    let request = key_request(&draft.key_file, false);
    assert_eq!(request, KeyRequest::Generate { path: "custom_key".to_string() });
    assert_ne!(request.path(), "server_key");
    let config = finish(draft);
    assert_eq!(config.server_setup.key_file(), "custom_key");
    assert_eq!(config.get_server_setup().serialized(), &vec![7, 8, 9]);
}

#[test]
fn precedence_for_each_source_in_turn() {
    let mut file = ConfigLayer::empty();
    file.jwt_secret = Some("from_file".to_string());
    file.smtp_options.server = Some("file.example".to_string());
    let mut env = ConfigLayer::empty();
    env.smtp_options.server = Some("env.example".to_string());
    env.database_url = Some("sqlite://env.db".to_string());
    let mut opts = no_run_overrides();
    opts.smtp_opts.smtp_server = Some("cli.example".to_string());
    let draft = resolve_draft(&file, &env, &opts);
    assert_eq!(draft.jwt_secret, "from_file");
    assert_eq!(draft.database_url, "sqlite://env.db");
    assert_eq!(draft.smtp_options.server, "cli.example");
    assert_eq!(draft.ldap_base_dn, "dc=example,dc=com");
}

#[test]
fn empty_overrides_leave_draft_unchanged() {
    let mut file = ConfigLayer::empty();
    file.verbose = Some(true);
    file.ldap_port = Some(389);
    file.smtp_options.user = Some("mailer".to_string());
    let before = ConfigurationBuilder::from_layers(&file, &ConfigLayer::empty());
    let mut after = before.clone();
    no_run_overrides().override_config(&mut after);
    let test_opts = TestEmailOpts { general_config: general(false), smtp_opts: no_smtp() };
    test_opts.override_config(&mut after);
    assert_eq!(format!("{:?}", before), format!("{:?}", after));
    let mut merged = before.clone();
    merged.merge(&ConfigLayer::empty());
    assert_eq!(format!("{:?}", before), format!("{:?}", merged));
}

#[test]
fn verbosity_is_never_switched_off() {
    let mut file = ConfigLayer::empty();
    file.verbose = Some(true);
    let draft = resolve_draft(&file, &ConfigLayer::empty(), &no_run_overrides());
    assert!(draft.verbose);
    let mut opts = no_run_overrides();
    opts.general_config.verbose = true;
    let draft = resolve_draft(&ConfigLayer::empty(), &ConfigLayer::empty(), &opts);
    assert!(draft.verbose);
}

#[test]
fn smtp_overrides_apply_each_field() {
    let mut draft = ConfigurationBuilder::default();
    let opts = TestEmailOpts {
        general_config: general(false),
        smtp_opts: SmtpOpts {
            smtp_enable_password_reset: Some(true),
            smtp_from: Some(mailbox("LLDAP <noreply@example.com>")),
            smtp_reply_to: Some(mailbox("help@example.com")),
            smtp_server: Some("smtp.example.com".to_string()),
            smtp_port: Some(465),
            smtp_user: Some("mailer".to_string()),
            smtp_password: Some("hunter2".to_string()),
            smtp_tls_required: Some(false),
        },
    };
    opts.override_config(&mut draft);
    let m = &draft.smtp_options;
    assert!(m.enable_password_reset);
    assert_eq!(m.from, Some(mailbox("LLDAP <noreply@example.com>")));
    assert_eq!(m.reply_to, Some(mailbox("help@example.com")));
    assert_eq!(m.server, "smtp.example.com");
    assert_eq!(m.port, 465);
    assert_eq!(m.user, "mailer");
    assert_eq!(m.password, "hunter2");
    assert!(!m.tls_required);
    assert_eq!(opts.general_config().config_file, "lldap_config.toml");
}

#[test]
fn mail_layer_sets_mailboxes() {
    let mut layer = MailLayer::empty();
    layer.from = Some(mailbox("Admin <admin@example.com>"));
    layer.port = Some(25);
    let mut mail = MailOptions::default();
    layer.apply_to(&mut mail);
    assert_eq!(mail.from, Some(mailbox("Admin <admin@example.com>")));
    assert!(mail.reply_to.is_none());
    assert_eq!(mail.port, 25);
    assert_eq!(mail.server, "localhost");
}

#[test]
fn run_opts_general_config() {
    let mut opts = no_run_overrides();
    opts.general_config.config_file = "/etc/lldap.toml".to_string();
    assert_eq!(opts.general_config().config_file, "/etc/lldap.toml");
}

#[test]
fn existing_key_file_reloads_identically() {
    let request = key_request(&"server_key".to_string(), true);
    assert_eq!(request, KeyRequest::Load { path: "server_key".to_string() });
    let first = resolve_key_material(request.path(), KeyEvent::Obtained(vec![1, 2, 3])).unwrap();
    let second = resolve_key_material(request.path(), KeyEvent::Obtained(vec![1, 2, 3])).unwrap();
    assert_eq!(first.serialized(), second.serialized());
    assert_eq!(first.serialized(), &vec![1, 2, 3]);
    assert_eq!(first.key_file(), "server_key");
}

#[test]
fn generated_key_material_reloads_equal() {
    let path = "fresh_key".to_string();
    let generate = key_request(&path, false);
    assert_eq!(generate, KeyRequest::Generate { path: path.clone() });
    let generated = resolve_key_material(&path, KeyEvent::Obtained(vec![4, 5, 6, 7])).unwrap();
    let load = key_request(&path, true);
    assert_eq!(load, KeyRequest::Load { path: path.clone() });
    let reloaded =
        resolve_key_material(load.path(), KeyEvent::Obtained(generated.serialized().clone()))
            .unwrap();
    assert_eq!(generated.serialized(), reloaded.serialized());
    assert_eq!(reloaded.clone().serialized(), &vec![4, 5, 6, 7]);
}

#[test]
fn empty_key_file_does_not_decode() {
    let e = resolve_key_material(&"server_key".to_string(), KeyEvent::Obtained(vec![])).unwrap_err();
    assert_eq!(e.access, KeyAccess::Decode);
    assert_eq!(e.path, "server_key");
}

#[test]
fn key_failures_name_path_and_step() {
    for access in [KeyAccess::Read, KeyAccess::Decode, KeyAccess::Write] {
        let draft = ConfigurationBuilder::default();
        let e = assemble(draft, KeyEvent::Failed(access, "denied".to_string())).unwrap_err();
        assert_eq!(e.access, access);
        assert_eq!(e.path, "server_key");
        assert_eq!(e.detail, "denied");
    }
}

#[test]
fn validate_checks_key_file() {
    let draft = ConfigurationBuilder::default();
    let right = resolve_key_material(&"server_key".to_string(), KeyEvent::Obtained(vec![1])).unwrap();
    let wrong = resolve_key_material(&"other_key".to_string(), KeyEvent::Obtained(vec![1])).unwrap();
    assert!(draft.validate(&right).is_ok());
    assert!(draft.validate(&wrong).is_err());
    let config = draft.build(right);
    assert_eq!(config.get_server_setup().key_file(), "server_key");
}

#[test]
fn no_warnings_when_defaults_replaced() {
    let mut env = ConfigLayer::empty();
    env.jwt_secret = Some("a long random secret".to_string());
    env.ldap_user_pass = Some("correct horse".to_string());
    let config = finish(resolve_draft(&ConfigLayer::empty(), &env, &no_run_overrides()));
    assert!(diagnostics(&config).is_empty());
    let mut env = ConfigLayer::empty();
    env.jwt_secret = Some("a long random secret".to_string());
    let config = finish(resolve_draft(&ConfigLayer::empty(), &env, &no_run_overrides()));
    assert_eq!(diagnostics(&config), vec![Warning::DefaultAdminPassword]);
}

#[test]
fn warning_messages() {
    assert_eq!(
        Warning::DefaultJwtSecret.message(),
        "WARNING: Default JWT secret used! This is highly unsafe and can allow attackers to log in as admin."
    );
    assert_eq!(
        Warning::DefaultAdminPassword.message(),
        "WARNING: Unsecure default admin password is used."
    );
}
