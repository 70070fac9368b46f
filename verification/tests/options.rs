use singer::options::{
    apply_setting, judge_resolved, option_error_exit_code, option_error_message, resolve_option,
    Config, OptionError, OptionKind, OptionSource,
};

fn empty_config() -> Config {
    Config { bin: None, wdir: None, cdir: None }
}

#[test]
fn apply_setting_sets_each_field() {
    let c = apply_setting(empty_config(), "bin", "/usr/bin/sing-box");
    assert_eq!(c.bin.as_deref(), Some("/usr/bin/sing-box"));
    assert_eq!(c.wdir, None);
    assert_eq!(c.cdir, None);

    let c = apply_setting(c, "wdir", "/var/lib/sing-box");
    assert_eq!(c.bin.as_deref(), Some("/usr/bin/sing-box"));
    assert_eq!(c.wdir.as_deref(), Some("/var/lib/sing-box"));

    let c = apply_setting(c, "cdir", "/etc/sing-box");
    assert_eq!(c.cdir.as_deref(), Some("/etc/sing-box"));
}

#[test]
fn apply_setting_overwrites_a_field() {
    let c = apply_setting(empty_config(), "bin", "/old");
    let c = apply_setting(c, "bin", "/new");
    assert_eq!(c.bin.as_deref(), Some("/new"));
}

#[test]
fn apply_setting_ignores_unknown_key() {
    let c = apply_setting(empty_config(), "other", "/value");
    assert_eq!(c.bin, None);
    assert_eq!(c.wdir, None);
    assert_eq!(c.cdir, None);
}

#[test]
fn display_string_renders_each_field_line() {
    let c = Config {
        bin: Some("/usr/bin/sing-box".to_string()),
        wdir: None,
        cdir: Some("/etc/sing-box".to_string()),
    };
    assert_eq!(c.display_string(), "bin=/usr/bin/sing-box\nwdir=\ncdir=/etc/sing-box");
}

#[test]
fn resolution_prefers_the_call_time_value() {
    let r = resolve_option(Some("/explicit".to_string()), Some("/persisted".to_string()));
    assert_eq!(r, Some(("/explicit".to_string(), OptionSource::CommandLine)));
}

#[test]
fn resolution_falls_back_to_the_persisted_value() {
    let r = resolve_option(None, Some("/persisted".to_string()));
    assert_eq!(r, Some(("/persisted".to_string(), OptionSource::ConfigFile)));
}

#[test]
fn resolution_with_no_value_is_none() {
    assert_eq!(resolve_option(None, None), None);
}

#[test]
fn judging_a_missing_option_is_fatal() {
    let r = judge_resolved(OptionKind::Bin, None, false);
    assert_eq!(r, Err(OptionError::Missing { kind: OptionKind::Bin }));
    let msg = option_error_message(&r.unwrap_err());
    assert_eq!(msg, "Missing option <--bin/-b>, using '-h' to print help");
}

#[test]
fn judging_an_existing_path_returns_it() {
    let resolved = Some(("/bin/sing-box".to_string(), OptionSource::CommandLine));
    let r = judge_resolved(OptionKind::Bin, resolved, true);
    assert_eq!(r, Ok("/bin/sing-box".to_string()));
}

#[test]
fn judging_a_missing_path_names_its_source() {
    let resolved = Some(("/nope".to_string(), OptionSource::ConfigFile));
    let r = judge_resolved(OptionKind::Wdir, resolved, false);
    let e = r.unwrap_err();
    assert_eq!(
        e,
        OptionError::PathNotFound { kind: OptionKind::Wdir, source: OptionSource::ConfigFile }
    );
    assert_eq!(option_error_message(&e), "Error: <config.toml>: working directory does not exist");

    let resolved = Some(("/nope".to_string(), OptionSource::CommandLine));
    let e = judge_resolved(OptionKind::Cdir, resolved, false).unwrap_err();
    assert_eq!(option_error_message(&e), "Error: <--cdir/-c>: config directory does not exist");
}

#[test]
fn every_option_error_exits_with_the_same_status() {
    let missing = OptionError::Missing { kind: OptionKind::Wdir };
    let not_found =
        OptionError::PathNotFound { kind: OptionKind::Bin, source: OptionSource::CommandLine };
    assert_eq!(option_error_exit_code(&missing), -1);
    assert_eq!(option_error_exit_code(&not_found), -1);
}
