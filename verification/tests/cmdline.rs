use singer::cmdline::{
    build_command_line, compile_command, export_command, geosite_artifact_name, join_path,
    run_command, supervised_process_pattern, terminate_command, terminate_program_name,
};

#[test]
fn command_line_quotes_program_and_args() {
    let args = vec!["run".to_string(), "-C".to_string(), "C:\\cfg".to_string()];
    let line = build_command_line("C:\\sing-box.exe", &args);
    assert_eq!(line, "\"C:\\sing-box.exe\" \"run\" \"-C\" \"C:\\cfg\"");
}

#[test]
fn command_line_without_args_is_quoted_program() {
    let line = build_command_line("sing-box", &Vec::new());
    assert_eq!(line, "\"sing-box\"");
}

#[test]
fn artifact_name_is_deterministic() {
    assert_eq!(geosite_artifact_name("ads"), "geosite-ads.json");
    assert_eq!(geosite_artifact_name("cn"), "geosite-cn.json");
}

#[test]
fn join_path_concatenates_with_separator() {
    assert_eq!(join_path("/work", "/", "geosite-ads.json"), "/work/geosite-ads.json");
    assert_eq!(join_path("C:\\work", "\\", "a.json"), "C:\\work\\a.json");
}

#[test]
fn export_command_shape() {
    let argv = export_command("ads", "/data/geosite.db", "/work", "/");
    let expected = vec![
        "geosite",
        "export",
        "ads",
        "-f",
        "/data/geosite.db",
        "-o",
        "/work/geosite-ads.json",
        "-D",
        "/work",
    ];
    assert_eq!(argv, expected);
}

#[test]
fn compile_command_shape() {
    let argv = compile_command("ads", "/work");
    let expected = vec!["rule-set", "compile", "geosite-ads.json", "-D", "/work"];
    assert_eq!(argv, expected);
}

#[test]
fn run_command_uses_config_dir_twice() {
    let argv = run_command("/etc/sing-box");
    let expected = vec!["run", "-C", "/etc/sing-box", "-D", "/etc/sing-box"];
    assert_eq!(argv, expected);
}

#[test]
fn terminate_command_shape() {
    let argv = terminate_command("sing-box*");
    let expected = vec!["/F", "/IM", "sing-box*"];
    assert_eq!(argv, expected);
}

#[test]
fn fixed_names() {
    assert_eq!(supervised_process_pattern(), "sing-box*");
    assert_eq!(terminate_program_name(), "taskkill");
}
