use pulumi_profile_selector::{
    activate, activate_new, contains_str, deactivate, detect_shell, format_profile_display,
    shell_command, shell_command_with_backend, Effect, Mode, Profile, ProfileError,
    ProfileSelector, Selection, ShellKind,
};

fn p(name: &str, backend: &str) -> Profile {
    Profile::new(name.to_string(), backend.to_string())
}

#[test]
fn zsh_activate_in_shell_mode_exports_backend() {
    let e = activate("dev".to_string(), "s3://x", Mode::Shell, "/bin/zsh");
    assert_eq!(e, Effect::Print("export PULUMI_BACKEND_URL=\"s3://x\"".to_string()));
}

#[test]
fn fish_deactivate_in_shell_mode_erases() {
    let e = deactivate(Mode::Shell, "/usr/bin/fish", false);
    assert_eq!(e, Effect::Print("set -e PULUMI_BACKEND_URL".to_string()));
}

#[test]
fn deactivate_file_mode_without_marker_does_nothing() {
    assert_eq!(deactivate(Mode::File, "/bin/bash", false), Effect::Nothing);
}

#[test]
fn deactivate_file_mode_with_marker_removes_it() {
    assert_eq!(deactivate(Mode::File, "/bin/bash", true), Effect::RemoveMarker);
}

#[test]
fn activate_file_mode_writes_the_name() {
    let e = activate("prod".to_string(), "s3://bucket", Mode::File, "/bin/zsh");
    assert_eq!(e, Effect::WriteMarker("prod".to_string()));
}

#[test]
fn shell_detection() {
    assert_eq!(detect_shell("/usr/bin/nu"), ShellKind::Nushell);
    assert_eq!(detect_shell("/opt/nushell/bin/shell"), ShellKind::Nushell);
    assert_eq!(detect_shell("/usr/bin/fish"), ShellKind::Fish);
    assert_eq!(detect_shell("/bin/zsh"), ShellKind::Posix);
    assert_eq!(detect_shell("/bin/bash"), ShellKind::Posix);
    assert_eq!(detect_shell(""), ShellKind::Posix);
    // a substring match: "nu" anywhere wins over "fish"
    assert_eq!(detect_shell("/home/nuser/fish"), ShellKind::Nushell);
}

#[test]
fn substring_search() {
    assert!(contains_str("abc", ""));
    assert!(contains_str("abc", "abc"));
    assert!(contains_str("xxfishyy", "fish"));
    assert!(!contains_str("fis", "fish"));
    assert!(!contains_str("", "a"));
    assert!(contains_str("ééfish", "fish"));
}

#[test]
fn export_commands_per_shell() {
    assert_eq!(shell_command_with_backend(Some("s3://x"), "/bin/sh"), "export PULUMI_BACKEND_URL=\"s3://x\"");
    assert_eq!(shell_command_with_backend(Some("s3://x"), "/usr/bin/fish"), "set -gx PULUMI_BACKEND_URL \"s3://x\"");
    assert_eq!(shell_command_with_backend(Some("s3://x"), "/usr/bin/nu"), "$env.PULUMI_BACKEND_URL = \"s3://x\"");
}

#[test]
fn unset_commands_per_shell() {
    assert_eq!(shell_command_with_backend(None, "/bin/sh"), "unset PULUMI_BACKEND_URL");
    assert_eq!(shell_command_with_backend(None, "/usr/bin/fish"), "set -e PULUMI_BACKEND_URL");
    assert_eq!(shell_command_with_backend(None, "/usr/bin/nu"), "hide-env PULUMI_BACKEND_URL");
}

#[test]
fn shell_command_for_name_uses_stored_backend_or_name() {
    let ps = vec![p("dev", "file://./state"), p("prod", "s3://bucket")];
    assert_eq!(shell_command(Some("prod"), Some(&ps), "/bin/zsh"), "export PULUMI_BACKEND_URL=\"s3://bucket\"");
    assert_eq!(shell_command(Some("qa"), Some(&ps), "/bin/zsh"), "export PULUMI_BACKEND_URL=\"qa\"");
    assert_eq!(shell_command(Some("prod"), None, "/bin/zsh"), "export PULUMI_BACKEND_URL=\"prod\"");
    assert_eq!(shell_command(None, Some(&ps), "/bin/zsh"), "unset PULUMI_BACKEND_URL");
}

#[test]
fn activate_new_modes() {
    assert_eq!(activate_new("qa".to_string(), None, Mode::File, "/bin/zsh"), Effect::WriteMarker("qa".to_string()));
    assert_eq!(
        activate_new("qa".to_string(), None, Mode::Shell, "/usr/bin/fish"),
        Effect::Print("set -gx PULUMI_BACKEND_URL \"qa\"".to_string())
    );
}

#[test]
fn display_label() {
    assert_eq!(format_profile_display(&p("dev", "s3://b")), "dev -> s3://b");
}

#[test]
fn selector_options_and_resolution() {
    let s = ProfileSelector::new(vec![p("dev", "file://./state"), p("prod", "s3://bucket")]);
    assert!(!s.is_empty());
    assert_eq!(s.options(), vec!["dev -> file://./state".to_string(), "prod -> s3://bucket".to_string()]);
    match s.resolve(Selection::Picked("prod -> s3://bucket".to_string())) {
        Ok(Some(n)) => assert_eq!(n, "prod"),
        other => panic!("unexpected {:?}", other),
    }
    assert!(matches!(s.resolve(Selection::Picked("nope".to_string())), Ok(None)));
    assert!(matches!(s.resolve(Selection::Canceled), Ok(None)));
    assert!(matches!(s.resolve(Selection::Interrupted), Ok(None)));
    match s.resolve(Selection::Failed("tty".to_string())) {
        Err(ProfileError::Selection(m)) => assert_eq!(m, "tty"),
        other => panic!("unexpected {:?}", other),
    }
}

#[test]
fn empty_selector() {
    let s = ProfileSelector::new(Vec::new());
    assert!(s.is_empty());
    assert!(s.options().is_empty());
}
