//! One build as a conversation: the session decides what has to be found
//! out or done next, the driver does it and answers. The session touches
//! neither the file system nor any process.

use crate::compile::{
    archive_path, archive_path_of, plan_compilation, plan_for, CompilePlan, CompilePlanView,
};
use crate::error::BuildError;
use crate::link::{
    candidates_of, dynamic_library, items_of, libraries_for, library_directives, link_directives,
    parse_link_flags, resolved, search_path, static_candidates, Directive, DirectiveKind,
    DirectiveView, LinkItem, LinkItemView,
};
use crate::paths::{join, joined};
use crate::request::{
    manual_directory, BuildRequest, BuildRequestView, ToolchainContext, ToolchainContextView,
};
use crate::stale::{is_newer, newer_than, Reading};
use crate::text::{catenate, tokens};
use crate::units::{FolderEntry, FolderEntryView};
use vstd::prelude::*;

verus! {

/// What the session waits for.
#[derive(Clone, Debug, PartialEq, Eq)]
pub enum Phase {
    /// The age of the archive.
    ArchiveAsked,
    /// The age of the next entry of the source folder.
    Scanning { archive_age: u128 },
    /// The listing of the source folder.
    SourcesAsked,
    /// The compiler flags of the toolkit.
    CompilerFlagsAsked { sources: Vec<FolderEntry> },
    /// The end of the compilation.
    Compiling,
    /// The listing of the library directory of the installation.
    LibrariesAsked { install_dir: String },
    /// The libraries of the toolkit.
    LinkerFlagsAsked,
    /// The static archives that are installed.
    ProbesAsked { items: Vec<LinkItem> },
    /// Nothing: the build is over.
    Finished,
}

/// A phase as contracts see it.
pub enum PhaseView {
    ArchiveAsked,
    Scanning { archive_age: u128 },
    SourcesAsked,
    CompilerFlagsAsked { sources: Seq<FolderEntryView> },
    Compiling,
    LibrariesAsked { install_dir: Seq<char> },
    LinkerFlagsAsked,
    ProbesAsked { items: Seq<LinkItemView> },
    Finished,
}

impl View for Phase {
    type V = PhaseView;

    open spec fn view(&self) -> PhaseView {
        match self {
            Phase::ArchiveAsked => PhaseView::ArchiveAsked,
            Phase::Scanning { archive_age } => PhaseView::Scanning { archive_age: *archive_age },
            Phase::SourcesAsked => PhaseView::SourcesAsked,
            Phase::CompilerFlagsAsked { sources } => PhaseView::CompilerFlagsAsked {
                sources: sources.deep_view(),
            },
            Phase::Compiling => PhaseView::Compiling,
            Phase::LibrariesAsked { install_dir } => PhaseView::LibrariesAsked {
                install_dir: install_dir@,
            },
            Phase::LinkerFlagsAsked => PhaseView::LinkerFlagsAsked,
            Phase::ProbesAsked { items } => PhaseView::ProbesAsked { items: items.deep_view() },
            Phase::Finished => PhaseView::Finished,
        }
    }
}

/// What the driver is asked to find out or to do.
#[derive(Debug, PartialEq, Eq)]
pub enum Action {
    /// Read the modification time of the archive; answer with `Age`.
    ReadArchiveAge { path: String },
    /// Read the modification time of the next entry of the folder; answer
    /// with `Age`, with `EndOfFolder` after the last entry, or with `Failed`
    /// where the folder cannot be listed.
    ReadEntryAge { folder: String },
    /// List the folder; answer with `Listing` or `Failed`.
    ListSources { folder: String },
    /// Run the command with the argument; answer with `Output`, with
    /// `NotText` where what it printed is not text, or with `Failed` where
    /// it cannot be run.
    Query { command: String, argument: String },
    /// Write the generated files, then compile as planned; answer with
    /// `Done`.
    Compile(CompilePlan),
    /// List the directory; answer with `Names` or `Failed`.
    ListLibraries { dir: String },
    /// Look for the files; answer with `Present`.
    Probe { paths: Vec<String> },
    /// Declare the directives, then end the build with the outcome.
    Finish { directives: Vec<Directive>, outcome: Result<(), BuildError> },
}

/// An action as contracts see it.
pub enum ActionView {
    ReadArchiveAge { path: Seq<char> },
    ReadEntryAge { folder: Seq<char> },
    ListSources { folder: Seq<char> },
    Query { command: Seq<char>, argument: Seq<char> },
    Compile(CompilePlanView),
    ListLibraries { dir: Seq<char> },
    Probe { paths: Seq<Seq<char>> },
    Finish { directives: Seq<DirectiveView>, outcome: Result<(), BuildError> },
}

impl View for Action {
    type V = ActionView;

    open spec fn view(&self) -> ActionView {
        match self {
            Action::ReadArchiveAge { path } => ActionView::ReadArchiveAge { path: path@ },
            Action::ReadEntryAge { folder } => ActionView::ReadEntryAge { folder: folder@ },
            Action::ListSources { folder } => ActionView::ListSources { folder: folder@ },
            Action::Query { command, argument } => ActionView::Query {
                command: command@,
                argument: argument@,
            },
            Action::Compile(plan) => ActionView::Compile(plan@),
            Action::ListLibraries { dir } => ActionView::ListLibraries { dir: dir@ },
            Action::Probe { paths } => ActionView::Probe { paths: paths.deep_view() },
            Action::Finish { directives, outcome } => ActionView::Finish {
                directives: directives.deep_view(),
                outcome: *outcome,
            },
        }
    }
}

/// What the driver answers.
#[derive(Clone, Debug, PartialEq, Eq)]
pub enum Event {
    /// The reading of a modification time.
    Age(Reading),
    /// The folder has no further entry.
    EndOfFolder,
    /// The entries of the source folder.
    Listing(Vec<FolderEntry>),
    /// The names of the entries of the library directory.
    Names(Vec<String>),
    /// What the command printed.
    Output(String),
    /// The command ran, and what it printed is not text.
    NotText,
    /// Those of the files looked for that exist.
    Present(Vec<String>),
    /// The action is done.
    Done,
    /// The action could not be done.
    Failed,
}

/// An answer as contracts see it.
pub enum EventView {
    Age(Reading),
    EndOfFolder,
    Listing(Seq<FolderEntryView>),
    Names(Seq<Seq<char>>),
    Output(Seq<char>),
    NotText,
    Present(Seq<Seq<char>>),
    Done,
    Failed,
}

impl View for Event {
    type V = EventView;

    open spec fn view(&self) -> EventView {
        match self {
            Event::Age(reading) => EventView::Age(*reading),
            Event::EndOfFolder => EventView::EndOfFolder,
            Event::Listing(entries) => EventView::Listing(entries.deep_view()),
            Event::Names(names) => EventView::Names(names.deep_view()),
            Event::Output(text) => EventView::Output(text@),
            Event::NotText => EventView::NotText,
            Event::Present(paths) => EventView::Present(paths.deep_view()),
            Event::Done => EventView::Done,
            Event::Failed => EventView::Failed,
        }
    }
}

/// One build in progress.
#[derive(Clone, Debug, PartialEq, Eq)]
pub struct Session {
    pub request: BuildRequest,
    pub context: ToolchainContext,
    pub phase: Phase,
}

/// A session as contracts see it.
pub struct SessionView {
    pub request: BuildRequestView,
    pub context: ToolchainContextView,
    pub phase: PhaseView,
}

impl View for Session {
    type V = SessionView;

    open spec fn view(&self) -> SessionView {
        SessionView { request: self.request@, context: self.context@, phase: self.phase@ }
    }
}

/// Every build declares its own archive: where it lies, and its name.
pub open spec fn own_directives(context: ToolchainContextView) -> Seq<DirectiveView> {
    seq![search_path(context.output_dir), dynamic_library("wxrs"@)]
}

/// Where the libraries of an installation lie, as the directive names it.
pub open spec fn library_search_path(install_dir: Seq<char>) -> Seq<char> {
    install_dir + "\\lib\\vc_x64_lib"@
}

/// Where the libraries of an installation lie, as the driver lists it.
pub open spec fn library_dir(install_dir: Seq<char>) -> Seq<char> {
    joined(joined(install_dir, "lib"@), "vc_x64_lib"@)
}

/// The directives of a build that takes the toolkit from an installation
/// directory, before its libraries are known.
pub open spec fn manual_directives(
    context: ToolchainContextView,
    install_dir: Seq<char>,
) -> Seq<DirectiveView> {
    own_directives(context).push(search_path(library_search_path(install_dir)))
}

/// The first step of a build: the age of the archive is asked for.
pub open spec fn opening(request: BuildRequestView, context: ToolchainContextView) -> (
    SessionView,
    ActionView,
) {
    (
        SessionView { request, context, phase: PhaseView::ArchiveAsked },
        ActionView::ReadArchiveAge { path: archive_path(context) },
    )
}

/// The archive has an age: the entries of the source folder are held
/// against it, one by one.
pub open spec fn scan(
    request: BuildRequestView,
    context: ToolchainContextView,
    archive_age: u128,
) -> (SessionView, ActionView) {
    (
        SessionView { request, context, phase: PhaseView::Scanning { archive_age } },
        ActionView::ReadEntryAge { folder: request.source_folder },
    )
}

/// The archive is stale: the compilation begins with the listing of the
/// source folder.
pub open spec fn begin_compilation(request: BuildRequestView, context: ToolchainContextView) -> (
    SessionView,
    ActionView,
) {
    (
        SessionView { request, context, phase: PhaseView::SourcesAsked },
        ActionView::ListSources { folder: request.source_folder },
    )
}

/// The sources are listed: the configuration command is asked for the
/// compiler flags.
pub open spec fn ask_compiler_flags(
    request: BuildRequestView,
    context: ToolchainContextView,
    sources: Seq<FolderEntryView>,
) -> (SessionView, ActionView) {
    (
        SessionView { request, context, phase: PhaseView::CompilerFlagsAsked { sources } },
        ActionView::Query { command: context.toolkit_config_command, argument: "--cxxflags"@ },
    )
}

/// The compilation is planned from the listing of the source folder and
/// from what the configuration command printed, if it ran. Where no plan
/// can be made, the build ends with nothing declared.
pub open spec fn plan(
    request: BuildRequestView,
    context: ToolchainContextView,
    sources: Seq<FolderEntryView>,
    compiler_output: Option<Seq<char>>,
) -> (SessionView, ActionView) {
    match plan_for(request, context, sources, compiler_output) {
        Ok(planned) => (
            SessionView { request, context, phase: PhaseView::Compiling },
            ActionView::Compile(planned),
        ),
        Err(error) => finish(request, context, Seq::empty(), Err(error)),
    }
}

/// The archive is there: the directives are resolved, from the
/// installation directory where the toolkit is taken by hand, and else from
/// the configuration command.
pub open spec fn begin_linking(request: BuildRequestView, context: ToolchainContextView) -> (
    SessionView,
    ActionView,
) {
    match manual_directory(context) {
        Some(install_dir) => (
            SessionView { request, context, phase: PhaseView::LibrariesAsked { install_dir } },
            ActionView::ListLibraries { dir: library_dir(install_dir) },
        ),
        None => (
            SessionView { request, context, phase: PhaseView::LinkerFlagsAsked },
            ActionView::Query { command: context.toolkit_config_command, argument: "--libs"@ },
        ),
    }
}

/// The configuration command has named the libraries: their static
/// archives are looked for.
pub open spec fn probe(
    request: BuildRequestView,
    context: ToolchainContextView,
    output: Seq<char>,
) -> (SessionView, ActionView) {
    (
        SessionView {
            request,
            context,
            phase: PhaseView::ProbesAsked { items: items_of(tokens(output)) },
        },
        ActionView::Probe { paths: candidates_of(items_of(tokens(output))) },
    )
}

/// The build ends.
pub open spec fn finish(
    request: BuildRequestView,
    context: ToolchainContextView,
    directives: Seq<DirectiveView>,
    outcome: Result<(), BuildError>,
) -> (SessionView, ActionView) {
    (
        SessionView { request, context, phase: PhaseView::Finished },
        ActionView::Finish { directives, outcome },
    )
}

/// The build ends because the answer does not fit what was asked.
pub open spec fn refuse(request: BuildRequestView, context: ToolchainContextView) -> (
    SessionView,
    ActionView,
) {
    finish(request, context, Seq::empty(), Err(BuildError::UnexpectedEvent))
}

/// One step of a build: the session after the answer, and what it asks
/// next. Each phase takes the answers to what it asked; any other answer
/// ends the build. A configuration command that cannot be run, or that
/// prints what is not text, is no failure of the build: for the compiler
/// flags the installation directory is tried next, and for the libraries
/// the command is read as having printed nothing.
pub open spec fn step(session: SessionView, event: EventView) -> (SessionView, ActionView) {
    let request = session.request;
    let context = session.context;
    match (session.phase, event) {
        (PhaseView::ArchiveAsked, EventView::Age(Reading::Age(archive_age))) => scan(
            request,
            context,
            archive_age,
        ),
        (PhaseView::ArchiveAsked, EventView::Age(_)) => begin_compilation(request, context),
        (PhaseView::Scanning { archive_age }, EventView::Age(reading)) => if newer_than(
            reading,
            archive_age,
        ) {
            begin_compilation(request, context)
        } else {
            scan(request, context, archive_age)
        },
        (PhaseView::Scanning { .. }, EventView::EndOfFolder) => begin_linking(request, context),
        (PhaseView::Scanning { .. }, EventView::Failed) => begin_compilation(request, context),
        (PhaseView::SourcesAsked, EventView::Listing(sources)) => ask_compiler_flags(
            request,
            context,
            sources,
        ),
        (PhaseView::SourcesAsked, EventView::Failed) => finish(
            request,
            context,
            Seq::empty(),
            Err(BuildError::SourceFolderUnreadable),
        ),
        (PhaseView::CompilerFlagsAsked { sources }, EventView::Output(text)) => plan(
            request,
            context,
            sources,
            Some(text),
        ),
        (PhaseView::CompilerFlagsAsked { sources }, EventView::Failed) => plan(
            request,
            context,
            sources,
            None,
        ),
        (PhaseView::CompilerFlagsAsked { sources }, EventView::NotText) => plan(
            request,
            context,
            sources,
            None,
        ),
        (PhaseView::Compiling, EventView::Done) => begin_linking(request, context),
        (PhaseView::LibrariesAsked { install_dir }, EventView::Names(names)) => finish(
            request,
            context,
            manual_directives(context, install_dir) + libraries_for(names),
            Ok(()),
        ),
        (PhaseView::LibrariesAsked { install_dir }, EventView::Failed) => finish(
            request,
            context,
            manual_directives(context, install_dir),
            Err(BuildError::LibraryDirUnreadable),
        ),
        (PhaseView::LinkerFlagsAsked, EventView::Output(text)) => probe(request, context, text),
        (PhaseView::LinkerFlagsAsked, EventView::Failed) => probe(request, context, Seq::empty()),
        (PhaseView::LinkerFlagsAsked, EventView::NotText) => probe(request, context, Seq::empty()),
        (PhaseView::ProbesAsked { items }, EventView::Present(paths)) => finish(
            request,
            context,
            own_directives(context) + resolved(items, paths),
            Ok(()),
        ),
        _ => refuse(request, context),
    }
}

/// The directives that every build declares.
fn own_directives_of(context: &ToolchainContext) -> (directives: Vec<Directive>)
    ensures
        directives.deep_view() == own_directives(context@),
{
    let mut directives: Vec<Directive> = Vec::new();
    directives.push(Directive::new(DirectiveKind::SearchPath, context.output_dir.clone()));
    directives.push(Directive::new(DirectiveKind::DynamicLibrary, String::from_str("wxrs")));
    assert(directives.deep_view() =~= own_directives(context@));
    directives
}

/// The directives of a build that takes the toolkit from an installation
/// directory, before its libraries are known.
fn manual_directives_of(context: &ToolchainContext, install_dir: &str) -> (directives: Vec<
    Directive,
>)
    ensures
        directives.deep_view() == manual_directives(context@, install_dir@),
{
    let mut directives = own_directives_of(context);
    let ghost own = directives.deep_view();
    directives.push(
        Directive::new(DirectiveKind::SearchPath, catenate(install_dir, "\\lib\\vc_x64_lib")),
    );
    assert(directives.deep_view() =~= own.push(search_path(library_search_path(install_dir@))));
    directives
}

/// `directives` followed by `more`.
fn followed_by(directives: Vec<Directive>, more: Vec<Directive>) -> (all: Vec<Directive>)
    ensures
        all.deep_view() == directives.deep_view() + more.deep_view(),
{
    let mut all = directives;
    let mut more = more;
    let ghost first = all.deep_view();
    let ghost second = more.deep_view();
    all.append(&mut more);
    assert(all.deep_view() =~= first + second);
    all
}

impl Session {
    /// Opens a build: the session, and the first thing it asks.
    pub fn start(request: BuildRequest, context: ToolchainContext) -> (opened: (Session, Action))
        ensures
            (opened.0@, opened.1@) == opening(request@, context@),
    {
        let path = archive_path_of(&context);
        (Session { request, context, phase: Phase::ArchiveAsked }, Action::ReadArchiveAge { path })
    }

    /// Whether the build is over.
    pub fn is_finished(&self) -> (finished: bool)
        ensures
            finished == (self@.phase is Finished),
    {
        match self.phase {
            Phase::Finished => true,
            _ => false,
        }
    }

    fn scan(request: BuildRequest, context: ToolchainContext, archive_age: u128) -> (next: (
        Session,
        Action,
    ))
        ensures
            (next.0@, next.1@) == scan(request@, context@, archive_age),
    {
        let folder = request.source_folder.clone();
        (
            Session { request, context, phase: Phase::Scanning { archive_age } },
            Action::ReadEntryAge { folder },
        )
    }

    fn begin_compilation(request: BuildRequest, context: ToolchainContext) -> (next: (
        Session,
        Action,
    ))
        ensures
            (next.0@, next.1@) == begin_compilation(request@, context@),
    {
        let folder = request.source_folder.clone();
        (Session { request, context, phase: Phase::SourcesAsked }, Action::ListSources { folder })
    }

    fn ask_compiler_flags(
        request: BuildRequest,
        context: ToolchainContext,
        sources: Vec<FolderEntry>,
    ) -> (next: (Session, Action))
        ensures
            (next.0@, next.1@) == ask_compiler_flags(request@, context@, sources.deep_view()),
    {
        let command = context.toolkit_config_command.clone();
        (
            Session { request, context, phase: Phase::CompilerFlagsAsked { sources } },
            Action::Query { command, argument: String::from_str("--cxxflags") },
        )
    }

    fn plan(
        request: BuildRequest,
        context: ToolchainContext,
        sources: Vec<FolderEntry>,
        compiler_output: Option<String>,
    ) -> (next: (Session, Action))
        ensures
            (next.0@, next.1@) == plan(
                request@,
                context@,
                sources.deep_view(),
                compiler_output.deep_view(),
            ),
    {
        match plan_compilation(&request, &context, &sources, &compiler_output) {
            Ok(planned) => (
                Session { request, context, phase: Phase::Compiling },
                Action::Compile(planned),
            ),
            Err(error) => {
                let directives: Vec<Directive> = Vec::new();
                assert(directives.deep_view() =~= Seq::empty());
                Session::finish(request, context, directives, Err(error))
            },
        }
    }

    fn begin_linking(request: BuildRequest, context: ToolchainContext) -> (next: (Session, Action))
        ensures
            (next.0@, next.1@) == begin_linking(request@, context@),
    {
        match context.manual_directory() {
            Some(install_dir) => {
                let libraries = join(install_dir.as_str(), "lib");
                let dir = join(libraries.as_str(), "vc_x64_lib");
                (
                    Session { request, context, phase: Phase::LibrariesAsked { install_dir } },
                    Action::ListLibraries { dir },
                )
            },
            None => {
                let command = context.toolkit_config_command.clone();
                (
                    Session { request, context, phase: Phase::LinkerFlagsAsked },
                    Action::Query { command, argument: String::from_str("--libs") },
                )
            },
        }
    }

    fn probe(request: BuildRequest, context: ToolchainContext, output: String) -> (next: (
        Session,
        Action,
    ))
        ensures
            (next.0@, next.1@) == probe(request@, context@, output@),
    {
        let items = parse_link_flags(output.as_str());
        let paths = static_candidates(&items);
        (Session { request, context, phase: Phase::ProbesAsked { items } }, Action::Probe { paths })
    }

    fn finish(
        request: BuildRequest,
        context: ToolchainContext,
        directives: Vec<Directive>,
        outcome: Result<(), BuildError>,
    ) -> (next: (Session, Action))
        ensures
            (next.0@, next.1@) == finish(request@, context@, directives.deep_view(), outcome),
    {
        (
            Session { request, context, phase: Phase::Finished },
            Action::Finish { directives, outcome },
        )
    }

    fn refuse(request: BuildRequest, context: ToolchainContext) -> (next: (Session, Action))
        ensures
            (next.0@, next.1@) == refuse(request@, context@),
    {
        let directives: Vec<Directive> = Vec::new();
        assert(directives.deep_view() =~= Seq::empty());
        Session::finish(request, context, directives, Err(BuildError::UnexpectedEvent))
    }

    /// Takes the driver's answer and decides what comes next.
    pub fn advance(self, event: Event) -> (next: (Session, Action))
        ensures
            (next.0@, next.1@) == step(self@, event@),
    {
        let Session { request, context, phase } = self;
        match (phase, event) {
            (Phase::ArchiveAsked, Event::Age(Reading::Age(archive_age))) => Self::scan(
                request,
                context,
                archive_age,
            ),
            (Phase::ArchiveAsked, Event::Age(_)) => Self::begin_compilation(request, context),
            (Phase::Scanning { archive_age }, Event::Age(reading)) => {
                if is_newer(reading, archive_age) {
                    Self::begin_compilation(request, context)
                } else {
                    Self::scan(request, context, archive_age)
                }
            },
            (Phase::Scanning { .. }, Event::EndOfFolder) => Self::begin_linking(request, context),
            (Phase::Scanning { .. }, Event::Failed) => Self::begin_compilation(request, context),
            (Phase::SourcesAsked, Event::Listing(sources)) => Self::ask_compiler_flags(
                request,
                context,
                sources,
            ),
            (Phase::SourcesAsked, Event::Failed) => {
                let directives: Vec<Directive> = Vec::new();
                assert(directives.deep_view() =~= Seq::empty());
                Self::finish(request, context, directives, Err(BuildError::SourceFolderUnreadable))
            },
            (Phase::CompilerFlagsAsked { sources }, Event::Output(text)) => Self::plan(
                request,
                context,
                sources,
                Some(text),
            ),
            (Phase::CompilerFlagsAsked { sources }, Event::Failed) => Self::plan(
                request,
                context,
                sources,
                None,
            ),
            (Phase::CompilerFlagsAsked { sources }, Event::NotText) => Self::plan(
                request,
                context,
                sources,
                None,
            ),
            (Phase::Compiling, Event::Done) => Self::begin_linking(request, context),
            (Phase::LibrariesAsked { install_dir }, Event::Names(names)) => {
                let directives = followed_by(
                    manual_directives_of(&context, install_dir.as_str()),
                    library_directives(&names),
                );
                Self::finish(request, context, directives, Ok(()))
            },
            (Phase::LibrariesAsked { install_dir }, Event::Failed) => {
                let directives = manual_directives_of(&context, install_dir.as_str());
                Self::finish(request, context, directives, Err(BuildError::LibraryDirUnreadable))
            },
            (Phase::LinkerFlagsAsked, Event::Output(text)) => Self::probe(request, context, text),
            (Phase::LinkerFlagsAsked, Event::Failed) => Self::probe(
                request,
                context,
                String::new(),
            ),
            (Phase::LinkerFlagsAsked, Event::NotText) => Self::probe(
                request,
                context,
                String::new(),
            ),
            (Phase::ProbesAsked { items }, Event::Present(paths)) => {
                let directives = followed_by(
                    own_directives_of(&context),
                    link_directives(&items, &paths),
                );
                Self::finish(request, context, directives, Ok(()))
            },
            _ => Self::refuse(request, context),
        }
    }
}

} // verus!
