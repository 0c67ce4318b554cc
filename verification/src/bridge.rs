//! The entry-point bridge: a C++ source file that starts the event
//! loop of the toolkit, and the declarations through which the consuming
//! program calls it.

use crate::paths::{join, joined};
use crate::text::{contains, lemma_occurs_between, lowered, to_ascii_lowercase};
use vstd::prelude::*;

verus! {

/// A file that the build writes before it compiles.
#[derive(Clone, Debug, PartialEq, Eq)]
pub struct GeneratedFile {
    pub path: String,
    pub contents: String,
}

/// A generated file as contracts see it.
pub struct GeneratedFileView {
    pub path: Seq<char>,
    pub contents: Seq<char>,
}

impl View for GeneratedFile {
    type V = GeneratedFileView;

    open spec fn view(&self) -> GeneratedFileView {
        GeneratedFileView { path: self.path@, contents: self.contents@ }
    }
}

impl DeepView for GeneratedFile {
    type V = GeneratedFileView;

    open spec fn deep_view(&self) -> GeneratedFileView {
        self@
    }
}

/// The line that brings in the header of the application: it is named
/// after the application, in lower case.
pub open spec fn header_reference(app_name: Seq<char>) -> Seq<char> {
    "#include \""@ + lowered(app_name) + ".h\""@
}

/// The line that declares the application class, under its exact name, as
/// the one the toolkit runs.
pub open spec fn entry_declaration(app_name: Seq<char>) -> Seq<char> {
    "wxIMPLEMENT_APP_NO_MAIN("@ + app_name + ");"@
}

/// What follows the two lines that name the application: the place where
/// the caller's state is kept, and the exported function that keeps it and
/// enters the event loop without arguments.
pub open spec fn entry_function() -> Seq<char> {
    "\nvoid *g_rsdata = NULL;\nextern \"C\" { void wx_start(void* userdata) { char **argv = nullptr; int argc = 0; g_rsdata = userdata; wxEntry(argc, argv); } }\n"@
}

/// The text of the generated C++ source.
pub open spec fn bridge_source(app_name: Seq<char>) -> Seq<char> {
    "#include <wx/wx.h>\n"@ + header_reference(app_name) + "\n"@ + entry_declaration(app_name)
        + entry_function()
}

/// The text of the generated declarations: a function that starts the
/// application with the caller's state, and the exported symbol behind it.
pub open spec fn bridge_stub(app_name: Seq<char>) -> Seq<char> {
    "fn start(userdata: &mut "@ + app_name
        + ") {\n    unsafe {\n        wx_start(userdata as *mut _ as _);\n    }\n}\nextern \"C\" {\n    fn wx_start(userdata: *mut std::os::raw::c_void);\n}\n"@
}

/// The files of the bridge, as they are written into the output directory.
pub open spec fn bridge_files(output_dir: Seq<char>, app_name: Seq<char>) -> Seq<GeneratedFileView> {
    seq![
        GeneratedFileView {
            path: joined(output_dir, "start.cpp"@),
            contents: bridge_source(app_name),
        },
        GeneratedFileView { path: joined(output_dir, "wxffi.rs"@), contents: bridge_stub(app_name) },
    ]
}

/// Writes the C++ source of the bridge for an application.
pub fn generate_source(app_name: &str) -> (text: String)
    ensures
        text@ == bridge_source(app_name@),
        contains(text@, header_reference(app_name@)),
        contains(text@, entry_declaration(app_name@)),
{
    let mut text = String::from_str("#include <wx/wx.h>\n");
    text.append("#include \"");
    text.append(to_ascii_lowercase(app_name).as_str());
    text.append(".h\"");
    text.append("\n");
    text.append("wxIMPLEMENT_APP_NO_MAIN(");
    text.append(app_name);
    text.append(");");
    text.append(
        "\nvoid *g_rsdata = NULL;\nextern \"C\" { void wx_start(void* userdata) { char **argv = nullptr; int argc = 0; g_rsdata = userdata; wxEntry(argc, argv); } }\n",
    );
    proof {
        let head = "#include <wx/wx.h>\n"@;
        let header = header_reference(app_name@);
        let entry = entry_declaration(app_name@);
        assert(text@ =~= bridge_source(app_name@));
        lemma_occurs_between(head, header, "\n"@ + entry + entry_function());
        assert(head + header + ("\n"@ + entry + entry_function()) =~= bridge_source(app_name@));
        lemma_occurs_between(head + header + "\n"@, entry, entry_function());
    }
    text
}

/// Writes the declarations of the bridge for an application.
pub fn generate_stub(app_name: &str) -> (text: String)
    ensures
        text@ == bridge_stub(app_name@),
{
    let mut text = String::from_str("fn start(userdata: &mut ");
    text.append(app_name);
    text.append(
        ") {\n    unsafe {\n        wx_start(userdata as *mut _ as _);\n    }\n}\nextern \"C\" {\n    fn wx_start(userdata: *mut std::os::raw::c_void);\n}\n",
    );
    text
}

/// The two files of the bridge for an application.
pub fn generate_bridge(output_dir: &str, app_name: &str) -> (files: Vec<GeneratedFile>)
    ensures
        files.deep_view() == bridge_files(output_dir@, app_name@),
{
    let mut files: Vec<GeneratedFile> = Vec::new();
    files.push(
        GeneratedFile { path: join(output_dir, "start.cpp"), contents: generate_source(app_name) },
    );
    files.push(
        GeneratedFile { path: join(output_dir, "wxffi.rs"), contents: generate_stub(app_name) },
    );
    assert(files.deep_view() =~= bridge_files(output_dir@, app_name@));
    files
}

} // verus!
