use wxrs::error::BuildError;
use wxrs::link::{Directive, DirectiveKind};
use wxrs::request::{BuildRequest, ToolchainContext};
use wxrs::session::{Action, Event, Phase, Session};
use wxrs::stale::Reading;
use wxrs::units::FolderEntry;

fn context(target: &str, install_dir: Option<&str>) -> ToolchainContext {
    ToolchainContext::from_environment(
        target.to_string(),
        "/out".to_string(),
        None,
        install_dir.map(|dir| dir.to_string()),
    )
}

fn directive(kind: DirectiveKind, value: &str) -> Directive {
    Directive::new(kind, value.to_string())
}

fn open(target: &str, install_dir: Option<&str>, bridge: bool) -> Session {
    let (session, action) =
        Session::start(BuildRequest::new("gui", bridge, "MyApp"), context(target, install_dir));
    assert_eq!(action, Action::ReadArchiveAge { path: "/out/libwxrs.a".to_string() });
    session
}

fn query(argument: &str) -> Action {
    Action::Query { command: "wx-config".to_string(), argument: argument.to_string() }
}

#[test]
fn build_opens_with_the_age_of_the_archive() {
    let (session, action) =
        wxrs::build("gui", true, "MyApp", context("x86_64-unknown-linux-gnu", None));
    assert_eq!(action, Action::ReadArchiveAge { path: "/out/libwxrs.a".to_string() });
    assert_eq!(session.phase, Phase::ArchiveAsked);
    assert_eq!(session.request, BuildRequest::new("gui", true, "MyApp"));
    assert_eq!(session.context, context("x86_64-unknown-linux-gnu", None));
    assert!(!session.is_finished());
}

#[test]
fn unresolved_build_ends_without_archive_and_without_directives() {
    let session = open("x86_64-unknown-linux-gnu", None, false);
    let (session, action) = session.advance(Event::Age(Reading::Unreadable));
    assert_eq!(action, Action::ListSources { folder: "gui".to_string() });
    let (session, action) = session.advance(Event::Listing(vec![]));
    assert_eq!(action, query("--cxxflags"));
    let (session, action) = session.advance(Event::Failed);
    assert_eq!(action, Action::Finish { directives: vec![], outcome: Err(BuildError::Unresolved) });
    assert!(session.is_finished());
    assert_eq!(BuildError::Unresolved.message(), "No WX_CONFIG or WX_DIR set");
}

#[test]
fn missing_archive_is_rebuilt() {
    for reading in [Reading::Unreadable, Reading::Future] {
        let session = open("x86_64-unknown-linux-gnu", None, false);
        let (session, action) = session.advance(Event::Age(reading));
        assert_eq!(action, Action::ListSources { folder: "gui".to_string() });
        assert_eq!(session.phase, Phase::SourcesAsked);
    }
}

#[test]
fn scan_stops_at_the_first_newer_entry() {
    let session = open("x86_64-unknown-linux-gnu", None, false);
    let (session, action) = session.advance(Event::Age(Reading::Age(100)));
    assert_eq!(action, Action::ReadEntryAge { folder: "gui".to_string() });
    let (session, action) = session.advance(Event::Age(Reading::Age(250)));
    assert_eq!(action, Action::ReadEntryAge { folder: "gui".to_string() });
    let (session, action) = session.advance(Event::Age(Reading::Unreadable));
    assert_eq!(action, Action::ReadEntryAge { folder: "gui".to_string() });
    let (session, action) = session.advance(Event::Age(Reading::Age(100)));
    assert_eq!(action, Action::ReadEntryAge { folder: "gui".to_string() });
    assert_eq!(session.phase, Phase::Scanning { archive_age: 100 });
    let (session, action) = session.advance(Event::Age(Reading::Age(99)));
    assert_eq!(action, Action::ListSources { folder: "gui".to_string() });
    assert_eq!(session.phase, Phase::SourcesAsked);
}

#[test]
fn entry_dated_in_the_future_ends_the_scan() {
    let session = open("x86_64-unknown-linux-gnu", None, false);
    let (session, _) = session.advance(Event::Age(Reading::Age(100)));
    let (session, action) = session.advance(Event::Age(Reading::Age(300)));
    assert_eq!(action, Action::ReadEntryAge { folder: "gui".to_string() });
    let (session, action) = session.advance(Event::Age(Reading::Future));
    assert_eq!(action, Action::ListSources { folder: "gui".to_string() });
    assert_eq!(session.phase, Phase::SourcesAsked);
}

#[test]
fn folder_that_cannot_be_scanned_is_rebuilt() {
    let session = open("x86_64-unknown-linux-gnu", None, false);
    let (session, _) = session.advance(Event::Age(Reading::Age(100)));
    let (session, action) = session.advance(Event::Failed);
    assert_eq!(action, Action::ListSources { folder: "gui".to_string() });
    let (session, action) = session.advance(Event::Failed);
    assert_eq!(action, Action::Finish {
        directives: vec![],
        outcome: Err(BuildError::SourceFolderUnreadable),
    });
    assert!(session.is_finished());
}

fn link_with_the_configuration_command(session: Session) -> Vec<Directive> {
    let (session, action) = session.advance(Event::Output("-L/opt/wx/lib -lwx_baseu-3.1 -lz".to_string()));
    assert_eq!(action, Action::Probe {
        paths: vec![
            "/usr/local/lib/libwx_baseu-3.1.a".to_string(),
            "/usr/local/lib/libz.a".to_string(),
        ],
    });
    let (session, action) =
        session.advance(Event::Present(vec!["/usr/local/lib/libz.a".to_string()]));
    assert!(session.is_finished());
    match action {
        Action::Finish { directives, outcome } => {
            assert_eq!(outcome, Ok(()));
            directives
        },
        other => panic!("the build should be over, not ask for {:?}", other),
    }
}

fn full_set() -> Vec<Directive> {
    vec![
        directive(DirectiveKind::SearchPath, "/out"),
        directive(DirectiveKind::DynamicLibrary, "wxrs"),
        directive(DirectiveKind::SearchPath, "/opt/wx/lib"),
        directive(DirectiveKind::DynamicLibrary, "wx_baseu-3.1"),
        directive(DirectiveKind::SearchPath, "/usr/local/lib/"),
        directive(DirectiveKind::StaticLibrary, "z"),
        directive(DirectiveKind::DynamicLibrary, "c++"),
    ]
}

#[test]
fn fresh_archive_is_not_compiled_again_and_still_linked_in_full() {
    let session = open("x86_64-unknown-linux-gnu", None, true);
    let (session, _) = session.advance(Event::Age(Reading::Age(100)));
    let (session, _) = session.advance(Event::Age(Reading::Age(200)));
    let (session, action) = session.advance(Event::EndOfFolder);
    assert_eq!(action, query("--libs"));
    assert_eq!(link_with_the_configuration_command(session), full_set());
}

#[test]
fn stale_archive_is_compiled_and_linked_in_full() {
    let session = open("x86_64-unknown-linux-gnu", None, true);
    let (session, _) = session.advance(Event::Age(Reading::Age(100)));
    let (session, action) = session.advance(Event::Age(Reading::Age(50)));
    assert_eq!(action, Action::ListSources { folder: "gui".to_string() });
    let (session, action) = session.advance(Event::Listing(vec![
        FolderEntry::new("gui/app.cpp", "app.cpp"),
        FolderEntry::new("gui/myapp.h", "myapp.h"),
    ]));
    assert_eq!(action, query("--cxxflags"));
    let (session, action) = session.advance(Event::Output("-DX -DY".to_string()));
    match action {
        Action::Compile(plan) => {
            assert_eq!(plan.units, vec!["gui/app.cpp".to_string(), "/out/start.cpp".to_string()]);
            assert_eq!(plan.flags, vec!["-DX".to_string(), "-DY".to_string()]);
            assert_eq!(plan.header_dirs, vec!["gui".to_string()]);
            assert_eq!(plan.generated.len(), 2);
            assert_eq!(plan.archive, "libwxrs.a");
        },
        other => panic!("a compilation should be asked for, not {:?}", other),
    }
    assert_eq!(session.phase, Phase::Compiling);
    let (session, action) = session.advance(Event::Done);
    assert_eq!(action, query("--libs"));
    assert_eq!(link_with_the_configuration_command(session), full_set());
}

#[test]
fn installation_directory_is_listed_for_the_msvc_toolchain() {
    let session = open("x86_64-pc-windows-msvc", Some("C:\\wx"), false);
    let (session, _) = session.advance(Event::Age(Reading::Age(100)));
    let (session, action) = session.advance(Event::EndOfFolder);
    assert_eq!(action, Action::ListLibraries { dir: "C:\\wx/lib/vc_x64_lib".to_string() });
    let (session, action) = session.advance(Event::Names(vec![
        "wxbase31ud.lib".to_string(),
        "wxbase31u.lib".to_string(),
        "wxpngd.lib".to_string(),
        "wxpng.lib".to_string(),
        "wxbase31u.pdb".to_string(),
    ]));
    assert_eq!(action, Action::Finish {
        directives: vec![
            directive(DirectiveKind::SearchPath, "/out"),
            directive(DirectiveKind::DynamicLibrary, "wxrs"),
            directive(DirectiveKind::SearchPath, "C:\\wx\\lib\\vc_x64_lib"),
            directive(DirectiveKind::StaticLibrary, "wxbase31u"),
            directive(DirectiveKind::StaticLibrary, "wxpng"),
        ],
        outcome: Ok(()),
    });
    assert!(session.is_finished());
}

#[test]
fn library_directory_that_cannot_be_listed_fails_the_build() {
    let session = open("x86_64-pc-windows-msvc", Some("C:\\wx"), false);
    let (session, _) = session.advance(Event::Age(Reading::Age(100)));
    let (session, _) = session.advance(Event::EndOfFolder);
    let (_, action) = session.advance(Event::Failed);
    assert_eq!(action, Action::Finish {
        directives: vec![
            directive(DirectiveKind::SearchPath, "/out"),
            directive(DirectiveKind::DynamicLibrary, "wxrs"),
            directive(DirectiveKind::SearchPath, "C:\\wx\\lib\\vc_x64_lib"),
        ],
        outcome: Err(BuildError::LibraryDirUnreadable),
    });
}

#[test]
fn configuration_command_that_cannot_run_for_the_libraries_counts_as_silent() {
    let session = open("x86_64-unknown-linux-gnu", Some("/opt/wx"), false);
    let (session, _) = session.advance(Event::Age(Reading::Age(100)));
    let (session, action) = session.advance(Event::EndOfFolder);
    assert_eq!(action, query("--libs"));
    let (session, action) = session.advance(Event::Failed);
    assert_eq!(action, Action::Probe { paths: vec![] });
    let (session, action) = session.advance(Event::Present(vec![]));
    assert_eq!(action, Action::Finish {
        directives: vec![
            directive(DirectiveKind::SearchPath, "/out"),
            directive(DirectiveKind::DynamicLibrary, "wxrs"),
            directive(DirectiveKind::DynamicLibrary, "c++"),
        ],
        outcome: Ok(()),
    });
    assert!(session.is_finished());
}

#[test]
fn silent_configuration_command_gives_the_same_as_one_that_cannot_run() {
    let silent = open("x86_64-unknown-linux-gnu", None, false);
    let (silent, _) = silent.advance(Event::Age(Reading::Age(100)));
    let (silent, _) = silent.advance(Event::EndOfFolder);
    let failed = silent.clone();
    assert_eq!(silent.advance(Event::Output(String::new())), failed.advance(Event::Failed));
}

#[test]
fn output_that_is_not_text_counts_as_a_command_that_cannot_run() {
    let session = open("x86_64-unknown-linux-gnu", None, false);
    let (session, _) = session.advance(Event::Age(Reading::Unreadable));
    let (session, _) = session.advance(Event::Listing(vec![]));
    let failed = session.clone();
    let (_, action) = session.advance(Event::NotText);
    assert_eq!(action, Action::Finish { directives: vec![], outcome: Err(BuildError::Unresolved) });
    assert_eq!(failed.advance(Event::Failed).1, action);

    let session = open("x86_64-pc-windows-msvc", Some("C:\\wx"), false);
    let (session, _) = session.advance(Event::Age(Reading::Unreadable));
    let (session, _) = session.advance(Event::Listing(vec![]));
    let (session, action) = session.advance(Event::NotText);
    assert!(matches!(action, Action::Compile(_)));
    assert_eq!(session.phase, Phase::Compiling);

    let session = open("x86_64-unknown-linux-gnu", None, false);
    let (session, _) = session.advance(Event::Age(Reading::Age(100)));
    let (session, _) = session.advance(Event::EndOfFolder);
    let (session, action) = session.advance(Event::NotText);
    assert_eq!(action, Action::Probe { paths: vec![] });
    let (session, action) = session.advance(Event::Present(vec![]));
    assert_eq!(action, Action::Finish {
        directives: vec![
            directive(DirectiveKind::SearchPath, "/out"),
            directive(DirectiveKind::DynamicLibrary, "wxrs"),
            directive(DirectiveKind::DynamicLibrary, "c++"),
        ],
        outcome: Ok(()),
    });
    assert!(session.is_finished());
}

#[test]
fn manual_compilation_on_the_msvc_toolchain() {
    let session = open("x86_64-pc-windows-msvc", Some("C:\\wx"), false);
    let (session, _) = session.advance(Event::Age(Reading::Unreadable));
    let (session, _) = session.advance(Event::Listing(vec![FolderEntry::new("gui/a.cpp", "a.cpp")]));
    let (session, action) = session.advance(Event::Failed);
    match action {
        Action::Compile(plan) => {
            assert_eq!(plan.units, vec!["gui/a.cpp".to_string()]);
            assert_eq!(plan.flags, vec!["/EHsc".to_string()]);
            assert_eq!(plan.definitions.len(), 2);
            assert_eq!(plan.header_dirs, vec![
                "C:\\wx/include".to_string(),
                "C:\\wx/include/msvc".to_string(),
            ]);
        },
        other => panic!("a compilation should be asked for, not {:?}", other),
    }
    let (_, action) = session.advance(Event::Done);
    assert_eq!(action, Action::ListLibraries { dir: "C:\\wx/lib/vc_x64_lib".to_string() });
}

#[test]
fn answer_that_was_not_asked_for_ends_the_build() {
    let refused = Action::Finish { directives: vec![], outcome: Err(BuildError::UnexpectedEvent) };
    let (session, action) = open("x86_64-unknown-linux-gnu", None, false).advance(Event::Done);
    assert_eq!(action, refused);
    assert!(session.is_finished());
    let (_, action) = session.advance(Event::Age(Reading::Age(1)));
    assert_eq!(action, refused);
    let (session, _) =
        open("x86_64-unknown-linux-gnu", None, false).advance(Event::Age(Reading::Age(100)));
    let (_, action) = session.advance(Event::Output("x".to_string()));
    assert_eq!(action, refused);
    let (session, _) =
        open("x86_64-unknown-linux-gnu", None, false).advance(Event::Age(Reading::Unreadable));
    let (_, action) = session.advance(Event::EndOfFolder);
    assert_eq!(action, refused);
}
