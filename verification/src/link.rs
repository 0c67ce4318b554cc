//! Linker directives: what the consuming build is told to search and to
//! link, from a toolkit installation directory or from the output of the
//! toolkit's configuration command.

use crate::paths::{
    base_name, directory, extension, file_extension, file_name, file_stem, parent, stem,
};
use crate::text::{
    catenate, ends_with, has_prefix, has_suffix, same_text, split_whitespace, starts_with, tokens,
    trim_leading, without_leading,
};
use vstd::prelude::*;

verus! {

/// What a directive asks of the linker.
#[derive(Clone, Copy, Debug, PartialEq, Eq, Structural)]
pub enum DirectiveKind {
    SearchPath,
    DynamicLibrary,
    StaticLibrary,
    Framework,
}

/// One declaration to the consuming build.
#[derive(Clone, Debug, PartialEq, Eq)]
pub struct Directive {
    pub kind: DirectiveKind,
    pub value: String,
}

/// A directive as contracts see it.
pub struct DirectiveView {
    pub kind: DirectiveKind,
    pub value: Seq<char>,
}

impl View for Directive {
    type V = DirectiveView;

    open spec fn view(&self) -> DirectiveView {
        DirectiveView { kind: self.kind, value: self.value@ }
    }
}

impl DeepView for Directive {
    type V = DirectiveView;

    open spec fn deep_view(&self) -> DirectiveView {
        self@
    }
}

/// The directive to search a directory.
pub open spec fn search_path(value: Seq<char>) -> DirectiveView {
    DirectiveView { kind: DirectiveKind::SearchPath, value }
}

/// The directive to link a library in whatever form the linker finds.
pub open spec fn dynamic_library(value: Seq<char>) -> DirectiveView {
    DirectiveView { kind: DirectiveKind::DynamicLibrary, value }
}

/// The directive to link a library statically.
pub open spec fn static_library(value: Seq<char>) -> DirectiveView {
    DirectiveView { kind: DirectiveKind::StaticLibrary, value }
}

/// The directive to link a framework.
pub open spec fn framework(value: Seq<char>) -> DirectiveView {
    DirectiveView { kind: DirectiveKind::Framework, value }
}

/// What stands before the value in the line that declares a directive.
pub open spec fn keyword(kind: DirectiveKind) -> Seq<char> {
    match kind {
        DirectiveKind::SearchPath => "cargo:rustc-link-search=native="@,
        DirectiveKind::DynamicLibrary => "cargo:rustc-link-lib="@,
        DirectiveKind::StaticLibrary => "cargo:rustc-link-lib=static="@,
        DirectiveKind::Framework => "cargo:rustc-link-lib=framework="@,
    }
}

/// The line that declares a directive to the consuming build.
pub open spec fn rendered(directive: DirectiveView) -> Seq<char> {
    keyword(directive.kind) + directive.value
}

impl Directive {
    /// A directive of the given kind and value.
    pub fn new(kind: DirectiveKind, value: String) -> (directive: Directive)
        ensures
            directive@ == (DirectiveView { kind, value: value@ }),
    {
        Directive { kind, value }
    }

    /// The line to print for this directive.
    pub fn render(&self) -> (line: String)
        ensures
            line@ == rendered(self@),
    {
        let value = self.value.as_str();
        match self.kind {
            DirectiveKind::SearchPath => catenate("cargo:rustc-link-search=native=", value),
            DirectiveKind::DynamicLibrary => catenate("cargo:rustc-link-lib=", value),
            DirectiveKind::StaticLibrary => catenate("cargo:rustc-link-lib=static=", value),
            DirectiveKind::Framework => catenate("cargo:rustc-link-lib=framework=", value),
        }
    }
}

/// One rule of the naming policy for library variants: a stem that begins
/// with `prefix` is linked or passed over as `emit` says.
#[derive(Clone, Debug, PartialEq, Eq)]
pub struct VariantRule {
    pub prefix: String,
    pub emit: bool,
}

impl View for VariantRule {
    type V = (Seq<char>, bool);

    open spec fn view(&self) -> (Seq<char>, bool) {
        (self.prefix@, self.emit)
    }
}

impl DeepView for VariantRule {
    type V = (Seq<char>, bool);

    open spec fn deep_view(&self) -> (Seq<char>, bool) {
        self@
    }
}

/// The naming policy, in the order in which its rules are tried: the debug
/// builds of the two core libraries are passed over, their release builds
/// are linked.
pub open spec fn variant_rules() -> Seq<(Seq<char>, bool)> {
    seq![
        ("wxmsw31ud"@, false),
        ("wxbase31ud"@, false),
        ("wxmsw31u"@, true),
        ("wxbase31u"@, true),
    ]
}

/// The decision of the first rule whose prefix `stem` begins with.
pub open spec fn first_verdict(rules: Seq<(Seq<char>, bool)>, stem: Seq<char>) -> Option<bool>
    decreases rules.len(),
{
    if rules.len() == 0 {
        None
    } else if has_prefix(stem, rules[0].0) {
        Some(rules[0].1)
    } else {
        first_verdict(rules.drop_first(), stem)
    }
}

/// Whether a library with this stem is linked: as the first matching rule
/// says, and where no rule matches, unless the stem ends in `d`.
pub open spec fn is_release_variant(stem: Seq<char>) -> bool {
    match first_verdict(variant_rules(), stem) {
        Some(emit) => emit,
        None => !has_suffix(stem, "d"@),
    }
}

/// The static-library directive for an entry of the library directory, if
/// the entry is a library archive of a release variant.
pub open spec fn library_for(name: Seq<char>) -> Option<DirectiveView> {
    if extension(name) == "lib"@ && is_release_variant(stem(name)) {
        Some(static_library(stem(name)))
    } else {
        None
    }
}

/// The static-library directives for the entries of the library directory,
/// in the order of the entries.
pub open spec fn libraries_for(names: Seq<Seq<char>>) -> Seq<DirectiveView> {
    names.filter_map(|name: Seq<char>| library_for(name))
}

/// The rules of the naming policy, in the order in which they are tried.
pub fn variant_table() -> (rules: Vec<VariantRule>)
    ensures
        rules.deep_view() == variant_rules(),
{
    let mut rules: Vec<VariantRule> = Vec::new();
    rules.push(VariantRule { prefix: String::from_str("wxmsw31ud"), emit: false });
    rules.push(VariantRule { prefix: String::from_str("wxbase31ud"), emit: false });
    rules.push(VariantRule { prefix: String::from_str("wxmsw31u"), emit: true });
    rules.push(VariantRule { prefix: String::from_str("wxbase31u"), emit: true });
    assert(rules.deep_view() =~= variant_rules());
    rules
}

/// Tries the rules in order and gives the decision of the first that
/// matches.
pub fn decide(rules: &Vec<VariantRule>, stem: &str) -> (verdict: Option<bool>)
    ensures
        verdict == first_verdict(rules.deep_view(), stem@),
{
    let mut i: usize = 0;
    assert(rules.deep_view().skip(0) =~= rules.deep_view());
    while i < rules.len()
        invariant
            i <= rules.len(),
            first_verdict(rules.deep_view(), stem@) == first_verdict(
                rules.deep_view().skip(i as int),
                stem@,
            ),
        decreases rules.len() - i,
    {
        let ghost rest = rules.deep_view().skip(i as int);
        assert(rest[0] == rules@[i as int]@);
        if starts_with(stem, rules[i].prefix.as_str()) {
            return Some(rules[i].emit);
        }
        assert(rest.drop_first() =~= rules.deep_view().skip(i + 1));
        i += 1;
    }
    None
}

/// Tells whether a library with this stem is linked.
pub fn links_variant(stem: &str) -> (linked: bool)
    ensures
        linked == is_release_variant(stem@),
{
    match decide(&variant_table(), stem) {
        Some(emit) => emit,
        None => !ends_with(stem, "d"),
    }
}

/// Selects the libraries to link among the entries of a library directory.
pub fn library_directives(names: &Vec<String>) -> (directives: Vec<Directive>)
    ensures
        directives.deep_view() == libraries_for(names.deep_view()),
{
    let mut directives: Vec<Directive> = Vec::new();
    let ghost all = names.deep_view();
    let ghost pick = |name: Seq<char>| library_for(name);
    let mut i: usize = 0;
    assert(directives.deep_view() =~= all.take(0).filter_map(pick));
    while i < names.len()
        invariant
            i <= names.len(),
            all == names.deep_view(),
            pick == |name: Seq<char>| library_for(name),
            directives.deep_view() == all.take(i as int).filter_map(pick),
        decreases names.len() - i,
    {
        let name = names[i].as_str();
        proof {
            all.lemma_filter_map_take_succ(pick, i as int);
        }
        let ghost before = directives.deep_view();
        if same_text(file_extension(name).as_str(), "lib") {
            let stem_text = file_stem(name);
            if links_variant(stem_text.as_str()) {
                directives.push(Directive::new(DirectiveKind::StaticLibrary, stem_text));
                assert(directives.deep_view() =~= before + seq![static_library(stem(name@))]);
            }
        }
        i += 1;
    }
    assert(all.take(names.len() as int) =~= all);
    directives
}

/// One linker input named by the configuration command.
#[derive(Clone, Debug, PartialEq, Eq)]
pub enum LinkItem {
    /// A directory to search.
    SearchPath(String),
    /// A library given by name, to link statically where its archive is
    /// installed and dynamically otherwise.
    Library(String),
    /// A framework.
    Framework(String),
    /// An archive given by its path.
    Archive { directory: String, name: String },
}

/// A linker input as contracts see it.
pub enum LinkItemView {
    SearchPath(Seq<char>),
    Library(Seq<char>),
    Framework(Seq<char>),
    Archive { directory: Seq<char>, name: Seq<char> },
}

impl View for LinkItem {
    type V = LinkItemView;

    open spec fn view(&self) -> LinkItemView {
        match self {
            LinkItem::SearchPath(path) => LinkItemView::SearchPath(path@),
            LinkItem::Library(name) => LinkItemView::Library(name@),
            LinkItem::Framework(name) => LinkItemView::Framework(name@),
            LinkItem::Archive { directory, name } => LinkItemView::Archive {
                directory: directory@,
                name: name@,
            },
        }
    }
}

impl DeepView for LinkItem {
    type V = LinkItemView;

    open spec fn deep_view(&self) -> LinkItemView {
        self@
    }
}

/// Whether a word is an option of the configuration command's output that
/// is handled on its own: a search path, a library or the framework marker.
pub open spec fn is_option(word: Seq<char>) -> bool {
    has_prefix(word, "-L"@) || has_prefix(word, "-l"@) || word == "-framework"@
}

/// Whether the word after `words` is awaited as the name of a framework:
/// a framework marker came, and since then only search paths, libraries and
/// further markers.
pub open spec fn awaits_framework(words: Seq<Seq<char>>) -> bool
    decreases words.len(),
{
    if words.len() == 0 {
        false
    } else if words.last() == "-framework"@ {
        true
    } else if is_option(words.last()) {
        awaits_framework(words.drop_last())
    } else {
        false
    }
}

/// What one word of the configuration command's output names, where
/// `awaited` tells whether the name of a framework is awaited.
pub open spec fn item_of(awaited: bool, word: Seq<char>) -> Option<LinkItemView> {
    if has_prefix(word, "-L"@) {
        Some(LinkItemView::SearchPath(without_leading(word, "-L"@)))
    } else if has_prefix(word, "-l"@) {
        Some(LinkItemView::Library(without_leading(word, "-l"@)))
    } else if word == "-framework"@ {
        None
    } else if awaited {
        Some(LinkItemView::Framework(word))
    } else if has_suffix(word, ".a"@) {
        Some(
            LinkItemView::Archive {
                directory: directory(word),
                name: without_leading(stem(base_name(word)), "lib"@),
            },
        )
    } else {
        None
    }
}

/// The linker inputs that a sequence of words names, in the order of the
/// words.
pub open spec fn items_of(words: Seq<Seq<char>>) -> Seq<LinkItemView>
    decreases words.len(),
{
    if words.len() == 0 {
        Seq::empty()
    } else {
        items_of(words.drop_last()) + match item_of(
            awaits_framework(words.drop_last()),
            words.last(),
        ) {
            Some(item) => seq![item],
            None => Seq::empty(),
        }
    }
}

/// Where the static archive of a library is installed by convention.
pub open spec fn static_archive_path(name: Seq<char>) -> Seq<char> {
    "/usr/local/lib/lib"@ + name + ".a"@
}

/// The archive to look for on account of an item.
pub open spec fn candidate_of(item: LinkItemView) -> Option<Seq<char>> {
    match item {
        LinkItemView::Library(name) => Some(static_archive_path(name)),
        _ => None,
    }
}

/// The archives to look for, in the order of the items.
pub open spec fn candidates_of(items: Seq<LinkItemView>) -> Seq<Seq<char>> {
    items.filter_map(|item: LinkItemView| candidate_of(item))
}

/// The directives for one item, where `present` holds the paths of the
/// static archives that were found.
pub open spec fn directives_of(item: LinkItemView, present: Seq<Seq<char>>) -> Seq<DirectiveView> {
    match item {
        LinkItemView::SearchPath(path) => seq![search_path(path)],
        LinkItemView::Library(name) => if present.contains(static_archive_path(name)) {
            seq![search_path("/usr/local/lib/"@), static_library(name)]
        } else {
            seq![dynamic_library(name)]
        },
        LinkItemView::Framework(name) => seq![framework(name)],
        LinkItemView::Archive { directory, name } => seq![
            search_path(directory),
            dynamic_library(name),
        ],
    }
}

/// The directives for the items, in the order of the items.
pub open spec fn directives_for(items: Seq<LinkItemView>, present: Seq<Seq<char>>) -> Seq<
    DirectiveView,
>
    decreases items.len(),
{
    if items.len() == 0 {
        Seq::empty()
    } else {
        directives_for(items.drop_last(), present) + directives_of(items.last(), present)
    }
}

/// All directives of the configuration command's libraries: those for the
/// items, then the C++ runtime library.
pub open spec fn resolved(items: Seq<LinkItemView>, present: Seq<Seq<char>>) -> Seq<DirectiveView> {
    directives_for(items, present).push(dynamic_library("c++"@))
}

/// Reads one word of the configuration command's output.
pub fn classify(awaited: bool, word: &str) -> (item: Option<LinkItem>)
    ensures
        item.deep_view() == item_of(awaited, word@),
{
    if starts_with(word, "-L") {
        Some(LinkItem::SearchPath(trim_leading(word, "-L")))
    } else if starts_with(word, "-l") {
        Some(LinkItem::Library(trim_leading(word, "-l")))
    } else if same_text(word, "-framework") {
        None
    } else if awaited {
        Some(LinkItem::Framework(String::from_str(word)))
    } else if ends_with(word, ".a") {
        let name = file_stem(file_name(word).as_str());
        Some(
            LinkItem::Archive {
                directory: parent(word),
                name: trim_leading(name.as_str(), "lib"),
            },
        )
    } else {
        None
    }
}

/// Reads the libraries that the configuration command reports.
pub fn parse_link_flags(output: &str) -> (items: Vec<LinkItem>)
    ensures
        items.deep_view() == items_of(tokens(output@)),
{
    let words = split_whitespace(output);
    let ghost all = words.deep_view();
    let mut items: Vec<LinkItem> = Vec::new();
    let mut awaited = false;
    let mut i: usize = 0;
    assert(all.take(0) =~= Seq::<Seq<char>>::empty());
    assert(items.deep_view() =~= Seq::<LinkItemView>::empty());
    while i < words.len()
        invariant
            i <= words.len(),
            all == words.deep_view(),
            all == tokens(output@),
            awaited == awaits_framework(all.take(i as int)),
            items.deep_view() == items_of(all.take(i as int)),
        decreases words.len() - i,
    {
        let word = words[i].as_str();
        proof {
            assert(all.take(i + 1).drop_last() =~= all.take(i as int));
            assert(all.take(i + 1).last() == word@);
        }
        let ghost before = items.deep_view();
        match classify(awaited, word) {
            Some(item) => {
                items.push(item);
                assert(items.deep_view() =~= before + seq![item@]);
            },
            None => {},
        }
        if same_text(word, "-framework") {
            awaited = true;
        } else if !(starts_with(word, "-L") || starts_with(word, "-l")) {
            awaited = false;
        }
        i += 1;
    }
    assert(all.take(words.len() as int) =~= all);
    items
}

/// The conventional path of the static archive of a library.
pub fn static_archive(name: &str) -> (path: String)
    ensures
        path@ == static_archive_path(name@),
{
    let mut path = String::from_str("/usr/local/lib/lib");
    path.append(name);
    path.append(".a");
    path
}

/// The archives whose presence decides how the libraries are linked.
pub fn static_candidates(items: &Vec<LinkItem>) -> (paths: Vec<String>)
    ensures
        paths.deep_view() == candidates_of(items.deep_view()),
{
    let mut paths: Vec<String> = Vec::new();
    let ghost all = items.deep_view();
    let ghost pick = |item: LinkItemView| candidate_of(item);
    let mut i: usize = 0;
    assert(paths.deep_view() =~= all.take(0).filter_map(pick));
    while i < items.len()
        invariant
            i <= items.len(),
            all == items.deep_view(),
            pick == |item: LinkItemView| candidate_of(item),
            paths.deep_view() == all.take(i as int).filter_map(pick),
        decreases items.len() - i,
    {
        proof {
            all.lemma_filter_map_take_succ(pick, i as int);
        }
        let ghost before = paths.deep_view();
        match &items[i] {
            LinkItem::Library(name) => {
                paths.push(static_archive(name.as_str()));
                assert(paths.deep_view() =~= before + seq![static_archive_path(name@)]);
            },
            _ => {},
        }
        i += 1;
    }
    assert(all.take(items.len() as int) =~= all);
    paths
}

/// Tells whether `path` is among `present`.
pub fn is_present(present: &Vec<String>, path: &str) -> (found: bool)
    ensures
        found == present.deep_view().contains(path@),
{
    let mut i: usize = 0;
    while i < present.len()
        invariant
            i <= present.len(),
            forall|j: int| 0 <= j < i ==> present.deep_view()[j] != path@,
        decreases present.len() - i,
    {
        if same_text(present[i].as_str(), path) {
            assert(present.deep_view()[i as int] == path@);
            return true;
        }
        i += 1;
    }
    false
}

/// Appends the directives for one item to `directives`.
fn push_directives(directives: &mut Vec<Directive>, item: &LinkItem, present: &Vec<String>)
    ensures
        final(directives).deep_view() == old(directives).deep_view() + directives_of(
            item@,
            present.deep_view(),
        ),
{
    let ghost before = directives.deep_view();
    match item {
        LinkItem::SearchPath(path) => {
            directives.push(Directive::new(DirectiveKind::SearchPath, path.clone()));
            assert(directives.deep_view() =~= before + seq![search_path(path@)]);
        },
        LinkItem::Library(name) => {
            if is_present(present, static_archive(name.as_str()).as_str()) {
                directives.push(
                    Directive::new(DirectiveKind::SearchPath, String::from_str("/usr/local/lib/")),
                );
                directives.push(Directive::new(DirectiveKind::StaticLibrary, name.clone()));
                assert(directives.deep_view() =~= before + seq![
                    search_path("/usr/local/lib/"@),
                    static_library(name@),
                ]);
            } else {
                directives.push(Directive::new(DirectiveKind::DynamicLibrary, name.clone()));
                assert(directives.deep_view() =~= before + seq![dynamic_library(name@)]);
            }
        },
        LinkItem::Framework(name) => {
            directives.push(Directive::new(DirectiveKind::Framework, name.clone()));
            assert(directives.deep_view() =~= before + seq![framework(name@)]);
        },
        LinkItem::Archive { directory, name } => {
            directives.push(Directive::new(DirectiveKind::SearchPath, directory.clone()));
            directives.push(Directive::new(DirectiveKind::DynamicLibrary, name.clone()));
            assert(directives.deep_view() =~= before + seq![
                search_path(directory@),
                dynamic_library(name@),
            ]);
        },
    }
}

/// Turns the items into directives, where `present` holds the paths of the
/// static archives that were found, and ends with the C++ runtime library.
pub fn link_directives(items: &Vec<LinkItem>, present: &Vec<String>) -> (directives: Vec<
    Directive,
>)
    ensures
        directives.deep_view() == resolved(items.deep_view(), present.deep_view()),
        directives.len() > 0,
        directives.deep_view().last() == dynamic_library("c++"@),
{
    let mut directives: Vec<Directive> = Vec::new();
    let ghost all = items.deep_view();
    let ghost found = present.deep_view();
    let mut i: usize = 0;
    assert(all.take(0) =~= Seq::<LinkItemView>::empty());
    assert(directives.deep_view() =~= Seq::<DirectiveView>::empty());
    while i < items.len()
        invariant
            i <= items.len(),
            all == items.deep_view(),
            found == present.deep_view(),
            directives.deep_view() == directives_for(all.take(i as int), found),
        decreases items.len() - i,
    {
        proof {
            assert(all.take(i + 1).drop_last() =~= all.take(i as int));
            assert(all.take(i + 1).last() == items@[i as int]@);
        }
        push_directives(&mut directives, &items[i], present);
        i += 1;
    }
    assert(all.take(items.len() as int) =~= all);
    let ghost before = directives.deep_view();
    directives.push(Directive::new(DirectiveKind::DynamicLibrary, String::from_str("c++")));
    assert(directives.deep_view() =~= before.push(dynamic_library("c++"@)));
    directives
}

} // verus!
