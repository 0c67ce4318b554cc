use wxrs::compile::{plan_compilation, CompilePlan};
use wxrs::flags::Definition;
use wxrs::request::{BuildRequest, ToolchainContext};
use wxrs::toolchain::configure;
use wxrs::units::FolderEntry;

fn plan() -> CompilePlan {
    CompilePlan {
        units: vec!["gui/frame.cpp".to_string(), "/out/start.cpp".to_string()],
        flags: vec!["-DFIRST".to_string(), "-fsecond".to_string()],
        definitions: vec![
            Definition { name: "__WXMSW__".to_string(), value: "1".to_string() },
            Definition { name: "_UNICODE".to_string(), value: "yes".to_string() },
        ],
        header_dirs: vec!["C:\\wx/include".to_string(), "gui".to_string()],
        generated: vec![],
        archive: "libwxrs.a".to_string(),
    }
}

#[test]
fn files_are_registered_in_order() {
    let build = configure(&plan());
    let files: Vec<String> =
        build.get_files().map(|path| path.to_str().unwrap().to_string()).collect();
    assert_eq!(files, vec!["gui/frame.cpp".to_string(), "/out/start.cpp".to_string()]);
}

#[test]
fn flags_are_registered_in_order() {
    let shown = format!("{:?}", configure(&plan()));
    let first = shown.find("\"-DFIRST\"").unwrap();
    let second = shown.find("\"-fsecond\"").unwrap();
    assert!(first < second);
}

#[test]
fn macros_are_defined_with_their_values() {
    let shown = format!("{:?}", configure(&plan()));
    assert!(shown.contains("definitions: [(\"__WXMSW__\", Some(\"1\")), (\"_UNICODE\", Some(\"yes\"))]"));
}

#[test]
fn header_directories_are_registered_in_order() {
    let shown = format!("{:?}", configure(&plan()));
    assert!(shown.contains("include_directories: [\"C:\\\\wx/include\", \"gui\"]"));
}

#[test]
fn cpp_is_compiled_without_extra_warnings() {
    let shown = format!("{:?}", configure(&plan()));
    assert!(shown.contains("cpp: true"));
    assert!(shown.contains("extra_warnings: Some(false)"));
    assert!(shown.contains("warnings: None"));
}

#[test]
fn empty_plan_gives_a_blank_driver() {
    let empty = CompilePlan {
        units: vec![],
        flags: vec![],
        definitions: vec![],
        header_dirs: vec![],
        generated: vec![],
        archive: "libwxrs.a".to_string(),
    };
    let build = configure(&empty);
    assert_eq!(build.get_files().count(), 0);
    let shown = format!("{:?}", build);
    assert!(shown.contains("include_directories: []"));
    assert!(shown.contains("definitions: []"));
    assert!(shown.contains(" flags: []"));
}

#[test]
fn planned_build_reaches_the_driver() {
    let context = ToolchainContext::from_environment(
        "x86_64-apple-darwin".to_string(),
        "/out".to_string(),
        None,
        None,
    );
    let planned = plan_compilation(
        &BuildRequest::new("gui", true, "MyApp"),
        &context,
        &vec![FolderEntry::new("gui/app.cpp", "app.cpp")],
        &Some("-DX".to_string()),
    )
    .unwrap();
    let build = configure(&planned);
    let files: Vec<String> =
        build.get_files().map(|path| path.to_str().unwrap().to_string()).collect();
    assert_eq!(files, vec!["gui/app.cpp".to_string(), "/out/start.cpp".to_string()]);
    let shown = format!("{:?}", build);
    assert!(shown.contains("include_directories: [\"gui\"]"));
    assert!(shown.contains("\"-DX\""));
    assert!(shown.contains("\"-std=c++11\""));
}
