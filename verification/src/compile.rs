//! The plan of one compilation: what is compiled, with which flags, and
//! what is written first.

use crate::bridge::{bridge_files, generate_bridge, GeneratedFile, GeneratedFileView};
use crate::error::BuildError;
use crate::flags::{
    platform_flags, platform_flags_for, resolve_toolkit_flags, toolkit_flags, Definition,
};
use crate::paths::{join, joined};
use crate::request::{
    bridge_name, BuildRequest, BuildRequestView, ToolchainContext, ToolchainContextView,
};
use crate::text::extend_with;
use crate::units::{compilation_units, units_of, FolderEntry, FolderEntryView};
use vstd::prelude::*;

verus! {

/// Everything one run of the compiler needs to know.
#[derive(Clone, Debug, PartialEq, Eq)]
pub struct CompilePlan {
    /// The files to compile, in order: the native sources of the folder,
    /// then the C++ source of the bridge.
    pub units: Vec<String>,
    /// The flags handed to the compiler, in order.
    pub flags: Vec<String>,
    pub definitions: Vec<Definition>,
    pub header_dirs: Vec<String>,
    /// The files to write before the compiler runs.
    pub generated: Vec<GeneratedFile>,
    /// The name of the archive to produce.
    pub archive: String,
}

/// A plan as contracts see it.
pub struct CompilePlanView {
    pub units: Seq<Seq<char>>,
    pub flags: Seq<Seq<char>>,
    pub definitions: Seq<(Seq<char>, Seq<char>)>,
    pub header_dirs: Seq<Seq<char>>,
    pub generated: Seq<GeneratedFileView>,
    pub archive: Seq<char>,
}

impl View for CompilePlan {
    type V = CompilePlanView;

    open spec fn view(&self) -> CompilePlanView {
        CompilePlanView {
            units: self.units.deep_view(),
            flags: self.flags.deep_view(),
            definitions: self.definitions.deep_view(),
            header_dirs: self.header_dirs.deep_view(),
            generated: self.generated.deep_view(),
            archive: self.archive@,
        }
    }
}

impl DeepView for CompilePlan {
    type V = CompilePlanView;

    open spec fn deep_view(&self) -> CompilePlanView {
        self@
    }
}

/// The name of the archive that a build produces.
pub open spec fn archive_name() -> Seq<char> {
    "libwxrs.a"@
}

/// Where the archive of a build lies.
pub open spec fn archive_path(context: ToolchainContextView) -> Seq<char> {
    joined(context.output_dir, archive_name())
}

/// The plan of a compilation, from the listing of the source folder and
/// from what the configuration command printed when asked for the compiler
/// flags (`None` where it could not be run). There is none where no source
/// gives the flags of the toolkit.
pub open spec fn plan_for(
    request: BuildRequestView,
    context: ToolchainContextView,
    sources: Seq<FolderEntryView>,
    compiler_output: Option<Seq<char>>,
) -> Result<CompilePlanView, BuildError> {
    match toolkit_flags(context, compiler_output) {
        None => Err(BuildError::Unresolved),
        Some(toolkit) => Ok(
            match bridge_name(request) {
                Some(app_name) => CompilePlanView {
                    units: units_of(sources).push(joined(context.output_dir, "start.cpp"@)),
                    flags: toolkit.flags + platform_flags(context),
                    definitions: toolkit.definitions,
                    header_dirs: toolkit.header_dirs.push(request.source_folder),
                    generated: bridge_files(context.output_dir, app_name),
                    archive: archive_name(),
                },
                None => CompilePlanView {
                    units: units_of(sources),
                    flags: toolkit.flags + platform_flags(context),
                    definitions: toolkit.definitions,
                    header_dirs: toolkit.header_dirs,
                    generated: Seq::empty(),
                    archive: archive_name(),
                },
            },
        ),
    }
}

/// Where the archive of a build lies.
pub fn archive_path_of(context: &ToolchainContext) -> (path: String)
    ensures
        path@ == archive_path(context@),
{
    join(context.output_dir.as_str(), "libwxrs.a")
}

/// Plans the compilation.
pub fn plan_compilation(
    request: &BuildRequest,
    context: &ToolchainContext,
    sources: &Vec<FolderEntry>,
    compiler_output: &Option<String>,
) -> (planned: Result<CompilePlan, BuildError>)
    ensures
        match planned {
            Ok(plan) => plan_for(
                request@,
                context@,
                sources.deep_view(),
                compiler_output.deep_view(),
            ) == Ok::<CompilePlanView, BuildError>(plan@),
            Err(error) => plan_for(
                request@,
                context@,
                sources.deep_view(),
                compiler_output.deep_view(),
            ) == Err::<CompilePlanView, BuildError>(error),
        },
        planned is Err <==> toolkit_flags(context@, compiler_output.deep_view()) is None,
{
    match resolve_toolkit_flags(context, compiler_output) {
        None => Err(BuildError::Unresolved),
        Some(toolkit) => {
            let mut units = compilation_units(sources);
            let mut flags = toolkit.flags;
            extend_with(&mut flags, &platform_flags_for(context));
            let mut header_dirs = toolkit.header_dirs;
            let mut generated: Vec<GeneratedFile> = Vec::new();
            match request.bridge() {
                Some(app_name) => {
                    let ghost sources_only = units.deep_view();
                    let ghost toolkit_dirs = header_dirs.deep_view();
                    units.push(join(context.output_dir.as_str(), "start.cpp"));
                    header_dirs.push(request.source_folder.clone());
                    generated = generate_bridge(context.output_dir.as_str(), app_name.as_str());
                    assert(units.deep_view() =~= sources_only.push(
                        joined(context@.output_dir, "start.cpp"@),
                    ));
                    assert(header_dirs.deep_view() =~= toolkit_dirs.push(request@.source_folder));
                },
                None => {
                    assert(generated.deep_view() =~= Seq::empty());
                },
            }
            Ok(
                CompilePlan {
                    units,
                    flags,
                    definitions: toolkit.definitions,
                    header_dirs,
                    generated,
                    archive: String::from_str("libwxrs.a"),
                },
            )
        },
    }
}

} // verus!
