//! The compiler driver: a `cc::Build` that is set up as a plan says.

use crate::compile::CompilePlan;
use vstd::prelude::*;

verus! {

/// `cc::Build`, the configuration of one run of the compiler. Nothing of
/// its inside is known here; what it holds is told by the names below, and
/// what the names are worth rests on reading the methods that fill it.
#[verifier::external_type_specification]
#[verifier::external_body]
pub struct ExBuild(cc::Build);

/// The files of a `cc::Build`, in the order in which `cc::Build::file`
/// added them.
pub uninterp spec fn build_files(build: cc::Build) -> Seq<Seq<char>>;

/// The compiler flags of a `cc::Build`, in the order in which
/// `cc::Build::flag` added them.
pub uninterp spec fn build_flags(build: cc::Build) -> Seq<Seq<char>>;

/// The macros of a `cc::Build`, each with its value if it has one, in the
/// order in which `cc::Build::define` added them.
pub uninterp spec fn build_definitions(build: cc::Build) -> Seq<(Seq<char>, Option<Seq<char>>)>;

/// The header directories of a `cc::Build`, in the order in which
/// `cc::Build::includes` added them.
pub uninterp spec fn build_header_dirs(build: cc::Build) -> Seq<Seq<char>>;

/// Whether a `cc::Build` compiles C++, as `cc::Build::cpp` set it.
pub uninterp spec fn build_is_cpp(build: cc::Build) -> bool;

/// Whether a `cc::Build` asks for the extra warnings, where
/// `cc::Build::extra_warnings` set it.
pub uninterp spec fn build_extra_warnings(build: cc::Build) -> Option<bool>;

/// A blank configuration, by `cc::Build::new`: it holds no file, flag,
/// macro or header directory, compiles C, and leaves the extra warnings
/// unset.
#[verifier::external_body]
fn new_build() -> (build: cc::Build)
    ensures
        build_files(build) == Seq::<Seq<char>>::empty(),
        build_flags(build) == Seq::<Seq<char>>::empty(),
        build_definitions(build) == Seq::<(Seq<char>, Option<Seq<char>>)>::empty(),
        build_header_dirs(build) == Seq::<Seq<char>>::empty(),
        !build_is_cpp(build),
        build_extra_warnings(build) is None,
{
    cc::Build::new()
}

/// Adds a file to compile, by `cc::Build::file`: the file comes last, and
/// nothing else changes.
#[verifier::external_body]
fn add_file(build: &mut cc::Build, path: &str)
    ensures
        build_files(*final(build)) == build_files(*old(build)).push(path@),
        build_flags(*final(build)) == build_flags(*old(build)),
        build_definitions(*final(build)) == build_definitions(*old(build)),
        build_header_dirs(*final(build)) == build_header_dirs(*old(build)),
        build_is_cpp(*final(build)) == build_is_cpp(*old(build)),
        build_extra_warnings(*final(build)) == build_extra_warnings(*old(build)),
{
    build.file(path);
}

/// Adds a flag for the compiler, by `cc::Build::flag`: the flag comes
/// last, and nothing else changes.
#[verifier::external_body]
fn add_flag(build: &mut cc::Build, flag: &str)
    ensures
        build_files(*final(build)) == build_files(*old(build)),
        build_flags(*final(build)) == build_flags(*old(build)).push(flag@),
        build_definitions(*final(build)) == build_definitions(*old(build)),
        build_header_dirs(*final(build)) == build_header_dirs(*old(build)),
        build_is_cpp(*final(build)) == build_is_cpp(*old(build)),
        build_extra_warnings(*final(build)) == build_extra_warnings(*old(build)),
{
    build.flag(flag);
}

/// Defines a macro with a value, by `cc::Build::define`: the macro comes
/// last, and nothing else changes.
#[verifier::external_body]
fn add_definition(build: &mut cc::Build, name: &str, value: &str)
    ensures
        build_files(*final(build)) == build_files(*old(build)),
        build_flags(*final(build)) == build_flags(*old(build)),
        build_definitions(*final(build)) == build_definitions(*old(build)).push(
            (name@, Some(value@)),
        ),
        build_header_dirs(*final(build)) == build_header_dirs(*old(build)),
        build_is_cpp(*final(build)) == build_is_cpp(*old(build)),
        build_extra_warnings(*final(build)) == build_extra_warnings(*old(build)),
{
    build.define(name, value);
}

/// Adds a directory in which headers are looked for, by
/// `cc::Build::includes` with the one directory: it comes last, and nothing
/// else changes.
#[verifier::external_body]
fn add_header_dir(build: &mut cc::Build, dir: &str)
    ensures
        build_files(*final(build)) == build_files(*old(build)),
        build_flags(*final(build)) == build_flags(*old(build)),
        build_definitions(*final(build)) == build_definitions(*old(build)),
        build_header_dirs(*final(build)) == build_header_dirs(*old(build)).push(dir@),
        build_is_cpp(*final(build)) == build_is_cpp(*old(build)),
        build_extra_warnings(*final(build)) == build_extra_warnings(*old(build)),
{
    build.includes([dir]);
}

/// Sets whether C++ is compiled, by `cc::Build::cpp`; nothing else changes.
#[verifier::external_body]
fn set_cpp(build: &mut cc::Build, cpp: bool)
    ensures
        build_files(*final(build)) == build_files(*old(build)),
        build_flags(*final(build)) == build_flags(*old(build)),
        build_definitions(*final(build)) == build_definitions(*old(build)),
        build_header_dirs(*final(build)) == build_header_dirs(*old(build)),
        build_is_cpp(*final(build)) == cpp,
        build_extra_warnings(*final(build)) == build_extra_warnings(*old(build)),
{
    build.cpp(cpp);
}

/// Sets whether the extra warnings are asked for, by
/// `cc::Build::extra_warnings`; nothing else changes.
#[verifier::external_body]
fn set_extra_warnings(build: &mut cc::Build, warnings: bool)
    ensures
        build_files(*final(build)) == build_files(*old(build)),
        build_flags(*final(build)) == build_flags(*old(build)),
        build_definitions(*final(build)) == build_definitions(*old(build)),
        build_header_dirs(*final(build)) == build_header_dirs(*old(build)),
        build_is_cpp(*final(build)) == build_is_cpp(*old(build)),
        build_extra_warnings(*final(build)) == Some(warnings),
{
    build.extra_warnings(warnings);
}

/// A macro as the compiler driver keeps it: with its value.
pub open spec fn defined(definition: (Seq<char>, Seq<char>)) -> (Seq<char>, Option<Seq<char>>) {
    (definition.0, Some(definition.1))
}

/// Sets up the compiler driver as the plan says: its files, flags, macros
/// and header directories are those of the plan, in the plan's order; it
/// compiles C++, and the extra warnings are off.
pub fn configure(plan: &CompilePlan) -> (build: cc::Build)
    ensures
        build_files(build) == plan@.units,
        build_flags(build) == plan@.flags,
        build_definitions(build) == plan@.definitions.map_values(
            |definition: (Seq<char>, Seq<char>)| defined(definition),
        ),
        build_header_dirs(build) == plan@.header_dirs,
        build_is_cpp(build),
        build_extra_warnings(build) == Some(false),
{
    let mut build = new_build();
    let mut i: usize = 0;
    while i < plan.units.len()
        invariant
            i <= plan.units.len(),
            build_files(build) == plan@.units.take(i as int),
            build_flags(build) == Seq::<Seq<char>>::empty(),
            build_definitions(build) == Seq::<(Seq<char>, Option<Seq<char>>)>::empty(),
            build_header_dirs(build) == Seq::<Seq<char>>::empty(),
            !build_is_cpp(build),
            build_extra_warnings(build) is None,
        decreases plan.units.len() - i,
    {
        add_file(&mut build, plan.units[i].as_str());
        assert(plan@.units.take(i + 1) =~= plan@.units.take(i as int).push(plan.units@[i as int]@));
        i += 1;
    }
    assert(plan@.units.take(plan.units.len() as int) =~= plan@.units);
    i = 0;
    while i < plan.flags.len()
        invariant
            i <= plan.flags.len(),
            build_files(build) == plan@.units,
            build_flags(build) == plan@.flags.take(i as int),
            build_definitions(build) == Seq::<(Seq<char>, Option<Seq<char>>)>::empty(),
            build_header_dirs(build) == Seq::<Seq<char>>::empty(),
            !build_is_cpp(build),
            build_extra_warnings(build) is None,
        decreases plan.flags.len() - i,
    {
        add_flag(&mut build, plan.flags[i].as_str());
        assert(plan@.flags.take(i + 1) =~= plan@.flags.take(i as int).push(plan.flags@[i as int]@));
        i += 1;
    }
    assert(plan@.flags.take(plan.flags.len() as int) =~= plan@.flags);
    let ghost keep = |definition: (Seq<char>, Seq<char>)| defined(definition);
    i = 0;
    while i < plan.definitions.len()
        invariant
            i <= plan.definitions.len(),
            keep == |definition: (Seq<char>, Seq<char>)| defined(definition),
            build_files(build) == plan@.units,
            build_flags(build) == plan@.flags,
            build_definitions(build) == plan@.definitions.take(i as int).map_values(keep),
            build_header_dirs(build) == Seq::<Seq<char>>::empty(),
            !build_is_cpp(build),
            build_extra_warnings(build) is None,
        decreases plan.definitions.len() - i,
    {
        let definition = &plan.definitions[i];
        add_definition(&mut build, definition.name.as_str(), definition.value.as_str());
        assert(plan@.definitions.take(i + 1).map_values(keep) =~= plan@.definitions.take(
            i as int,
        ).map_values(keep).push(defined(definition@)));
        i += 1;
    }
    assert(plan@.definitions.take(plan.definitions.len() as int) =~= plan@.definitions);
    i = 0;
    while i < plan.header_dirs.len()
        invariant
            i <= plan.header_dirs.len(),
            keep == |definition: (Seq<char>, Seq<char>)| defined(definition),
            build_files(build) == plan@.units,
            build_flags(build) == plan@.flags,
            build_definitions(build) == plan@.definitions.map_values(keep),
            build_header_dirs(build) == plan@.header_dirs.take(i as int),
            !build_is_cpp(build),
            build_extra_warnings(build) is None,
        decreases plan.header_dirs.len() - i,
    {
        add_header_dir(&mut build, plan.header_dirs[i].as_str());
        assert(plan@.header_dirs.take(i + 1) =~= plan@.header_dirs.take(i as int).push(
            plan.header_dirs@[i as int]@,
        ));
        i += 1;
    }
    assert(plan@.header_dirs.take(plan.header_dirs.len() as int) =~= plan@.header_dirs);
    set_cpp(&mut build, true);
    set_extra_warnings(&mut build, false);
    build
}

} // verus!
