//! Compiler flags: those of the toolkit, from the first source that gives
//! them, and those of the target platform.

use crate::paths::{join, joined};
use crate::request::{
    manual_directory, targets_apple_desktop, targets_msvc, ToolchainContext, ToolchainContextView,
};
use crate::text::{split_whitespace, tokens};
use vstd::prelude::*;

verus! {

/// A preprocessor macro and its value.
#[derive(Clone, Debug, PartialEq, Eq)]
pub struct Definition {
    pub name: String,
    pub value: String,
}

impl View for Definition {
    type V = (Seq<char>, Seq<char>);

    open spec fn view(&self) -> (Seq<char>, Seq<char>) {
        (self.name@, self.value@)
    }
}

impl DeepView for Definition {
    type V = (Seq<char>, Seq<char>);

    open spec fn deep_view(&self) -> (Seq<char>, Seq<char>) {
        self@
    }
}

/// What the toolkit asks of the compiler.
#[derive(Clone, Debug, PartialEq, Eq)]
pub struct ToolkitFlags {
    pub flags: Vec<String>,
    pub definitions: Vec<Definition>,
    pub header_dirs: Vec<String>,
}

/// The flags of the toolkit as contracts see them.
pub struct ToolkitFlagsView {
    pub flags: Seq<Seq<char>>,
    pub definitions: Seq<(Seq<char>, Seq<char>)>,
    pub header_dirs: Seq<Seq<char>>,
}

impl View for ToolkitFlags {
    type V = ToolkitFlagsView;

    open spec fn view(&self) -> ToolkitFlagsView {
        ToolkitFlagsView {
            flags: self.flags.deep_view(),
            definitions: self.definitions.deep_view(),
            header_dirs: self.header_dirs.deep_view(),
        }
    }
}

impl DeepView for ToolkitFlags {
    type V = ToolkitFlagsView;

    open spec fn deep_view(&self) -> ToolkitFlagsView {
        self@
    }
}

/// First source: the configuration command. Where it ran, each word of its
/// output is a flag.
pub open spec fn from_config_tool(output: Option<Seq<char>>) -> Option<ToolkitFlagsView> {
    match output {
        Some(text) => Some(
            ToolkitFlagsView {
                flags: tokens(text),
                definitions: Seq::empty(),
                header_dirs: Seq::empty(),
            },
        ),
        None => None,
    }
}

/// Second source: an installation directory with the MSVC toolchain. The
/// toolkit is told its platform and its character set, and its headers are
/// found under the directory.
pub open spec fn from_manual_directory(context: ToolchainContextView) -> Option<ToolkitFlagsView> {
    match manual_directory(context) {
        Some(dir) => Some(
            ToolkitFlagsView {
                flags: Seq::empty(),
                definitions: seq![("__WXMSW__"@, "1"@), ("_UNICODE"@, "1"@)],
                header_dirs: seq![
                    joined(dir, "include"@),
                    joined(joined(dir, "include"@), "msvc"@),
                ],
            },
        ),
        None => None,
    }
}

/// The flags of the toolkit: from the first source, in this order, that
/// gives them.
pub open spec fn toolkit_flags(
    context: ToolchainContextView,
    output: Option<Seq<char>>,
) -> Option<ToolkitFlagsView> {
    match from_config_tool(output) {
        Some(flags) => Some(flags),
        None => from_manual_directory(context),
    }
}

/// The flags that the target platform asks for.
pub open spec fn platform_flags(context: ToolchainContextView) -> Seq<Seq<char>> {
    if targets_apple_desktop(context) {
        seq!["-mmacosx-version-min=10.12"@, "-std=c++11"@]
    } else if targets_msvc(context) {
        seq!["/EHsc"@]
    } else {
        Seq::empty()
    }
}

/// Reads the flags from the output of the configuration command, where it
/// ran.
pub fn try_config_tool(output: &Option<String>) -> (found: Option<ToolkitFlags>)
    ensures
        found.deep_view() == from_config_tool(output.deep_view()),
{
    match output {
        Some(text) => {
            let flags = split_whitespace(text.as_str());
            let definitions: Vec<Definition> = Vec::new();
            let header_dirs: Vec<String> = Vec::new();
            assert(definitions.deep_view() =~= Seq::empty());
            assert(header_dirs.deep_view() =~= Seq::empty());
            Some(ToolkitFlags { flags, definitions, header_dirs })
        },
        None => None,
    }
}

/// Takes the flags from the installation directory, where the toolkit is
/// taken by hand.
pub fn try_manual_directory(context: &ToolchainContext) -> (found: Option<ToolkitFlags>)
    ensures
        found.deep_view() == from_manual_directory(context@),
{
    match context.manual_directory() {
        Some(dir) => {
            let flags: Vec<String> = Vec::new();
            let mut definitions: Vec<Definition> = Vec::new();
            definitions.push(
                Definition { name: String::from_str("__WXMSW__"), value: String::from_str("1") },
            );
            definitions.push(
                Definition { name: String::from_str("_UNICODE"), value: String::from_str("1") },
            );
            let headers = join(dir.as_str(), "include");
            let compiler_headers = join(headers.as_str(), "msvc");
            let mut header_dirs: Vec<String> = Vec::new();
            header_dirs.push(headers);
            header_dirs.push(compiler_headers);
            assert(flags.deep_view() =~= Seq::empty());
            assert(definitions.deep_view() =~= seq![("__WXMSW__"@, "1"@), ("_UNICODE"@, "1"@)]);
            assert(header_dirs.deep_view() =~= seq![
                joined(dir@, "include"@),
                joined(joined(dir@, "include"@), "msvc"@),
            ]);
            Some(ToolkitFlags { flags, definitions, header_dirs })
        },
        None => None,
    }
}

/// Resolves the flags of the toolkit: the sources are tried in their order
/// and the first that gives flags wins.
pub fn resolve_toolkit_flags(context: &ToolchainContext, output: &Option<String>) -> (found: Option<
    ToolkitFlags,
>)
    ensures
        found.deep_view() == toolkit_flags(context@, output.deep_view()),
{
    match try_config_tool(output) {
        Some(flags) => Some(flags),
        None => try_manual_directory(context),
    }
}

/// The flags that the target platform asks for.
pub fn platform_flags_for(context: &ToolchainContext) -> (flags: Vec<String>)
    ensures
        flags.deep_view() == platform_flags(context@),
{
    let mut flags: Vec<String> = Vec::new();
    if context.targets_apple_desktop() {
        flags.push(String::from_str("-mmacosx-version-min=10.12"));
        flags.push(String::from_str("-std=c++11"));
        assert(flags.deep_view() =~= seq!["-mmacosx-version-min=10.12"@, "-std=c++11"@]);
    } else if context.targets_msvc() {
        flags.push(String::from_str("/EHsc"));
        assert(flags.deep_view() =~= seq!["/EHsc"@]);
    } else {
        assert(flags.deep_view() =~= Seq::empty());
    }
    flags
}

} // verus!
