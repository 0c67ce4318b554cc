use wxrs::flags::{
    platform_flags_for, resolve_toolkit_flags, try_config_tool, try_manual_directory, Definition,
};
use wxrs::request::ToolchainContext;

fn context(target: &str, install_dir: Option<&str>) -> ToolchainContext {
    ToolchainContext::from_environment(
        target.to_string(),
        "/out".to_string(),
        None,
        install_dir.map(|dir| dir.to_string()),
    )
}

fn definition(name: &str, value: &str) -> Definition {
    Definition { name: name.to_string(), value: value.to_string() }
}

#[test]
fn configuration_command_gives_one_flag_per_word() {
    let output = Some("-I/usr/lib/wx/include/gtk3 -D__WXGTK__\n -pthread\n".to_string());
    let found = try_config_tool(&output).unwrap();
    assert_eq!(found.flags, vec![
        "-I/usr/lib/wx/include/gtk3".to_string(),
        "-D__WXGTK__".to_string(),
        "-pthread".to_string(),
    ]);
    assert!(found.definitions.is_empty());
    assert!(found.header_dirs.is_empty());
}

#[test]
fn configuration_command_that_prints_nothing_still_wins() {
    let found = resolve_toolkit_flags(
        &context("x86_64-pc-windows-msvc", Some("C:\\wx")),
        &Some(String::new()),
    )
    .unwrap();
    assert!(found.flags.is_empty());
    assert!(found.definitions.is_empty());
    assert!(found.header_dirs.is_empty());
}

#[test]
fn configuration_command_that_did_not_run_gives_nothing() {
    assert_eq!(try_config_tool(&None), None);
}

#[test]
fn installation_directory_serves_the_msvc_toolchain() {
    let found = try_manual_directory(&context("x86_64-pc-windows-msvc", Some("C:\\wx"))).unwrap();
    assert!(found.flags.is_empty());
    assert_eq!(found.definitions, vec![definition("__WXMSW__", "1"), definition("_UNICODE", "1")]);
    assert_eq!(found.header_dirs, vec![
        "C:\\wx/include".to_string(),
        "C:\\wx/include/msvc".to_string(),
    ]);
}

#[test]
fn installation_directory_needs_the_msvc_toolchain() {
    assert_eq!(try_manual_directory(&context("x86_64-unknown-linux-gnu", Some("/opt/wx"))), None);
    assert_eq!(try_manual_directory(&context("x86_64-pc-windows-gnu", Some("C:\\wx"))), None);
}

#[test]
fn installation_directory_has_to_be_set() {
    assert_eq!(try_manual_directory(&context("x86_64-pc-windows-msvc", None)), None);
    assert_eq!(try_manual_directory(&context("x86_64-pc-windows-msvc", Some(""))), None);
}

#[test]
fn no_source_gives_no_flags() {
    assert_eq!(resolve_toolkit_flags(&context("x86_64-unknown-linux-gnu", None), &None), None);
    assert_eq!(
        resolve_toolkit_flags(&context("x86_64-unknown-linux-gnu", Some("/opt/wx")), &None),
        None
    );
    assert_eq!(resolve_toolkit_flags(&context("x86_64-pc-windows-msvc", None), &None), None);
}

#[test]
fn configuration_command_comes_before_the_installation_directory() {
    let found = resolve_toolkit_flags(
        &context("x86_64-pc-windows-msvc", Some("C:\\wx")),
        &Some("/DFOO".to_string()),
    )
    .unwrap();
    assert_eq!(found.flags, vec!["/DFOO".to_string()]);
    assert!(found.definitions.is_empty());
}

#[test]
fn installation_directory_is_the_fallback() {
    let found =
        resolve_toolkit_flags(&context("x86_64-pc-windows-msvc", Some("C:\\wx")), &None).unwrap();
    assert_eq!(found.definitions.len(), 2);
    assert_eq!(found.header_dirs.len(), 2);
}

#[test]
fn platform_flags_of_each_target() {
    assert_eq!(platform_flags_for(&context("aarch64-apple-darwin", None)), vec![
        "-mmacosx-version-min=10.12".to_string(),
        "-std=c++11".to_string(),
    ]);
    assert_eq!(platform_flags_for(&context("x86_64-pc-windows-msvc", None)), vec![
        "/EHsc".to_string()
    ]);
    assert_eq!(
        platform_flags_for(&context("x86_64-unknown-linux-gnu", None)),
        Vec::<String>::new()
    );
}

#[test]
fn context_takes_its_defaults() {
    let plain = context("x86_64-unknown-linux-gnu", None);
    assert_eq!(plain.toolkit_config_command, "wx-config");
    assert_eq!(plain.toolkit_install_dir, None);
    assert_eq!(plain.output_dir, "/out");
    assert_eq!(plain.target_triple, "x86_64-unknown-linux-gnu");
    let empty = context("x86_64-unknown-linux-gnu", Some(""));
    assert_eq!(empty.toolkit_install_dir, None);
    let set = ToolchainContext::from_environment(
        "t".to_string(),
        "o".to_string(),
        Some("wx-config-3.1".to_string()),
        Some("/opt/wx".to_string()),
    );
    assert_eq!(set.toolkit_config_command, "wx-config-3.1");
    assert_eq!(set.toolkit_install_dir, Some("/opt/wx".to_string()));
    assert_eq!(set.manual_directory(), None);
    assert!(!set.targets_msvc());
    assert!(!set.targets_apple_desktop());
}
