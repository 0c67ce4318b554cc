//! The course of a build: what a session asks over a whole sequence of
//! answers, and what holds of every such course.

use crate::error::BuildError;
use crate::link::{dynamic_library, items_of, resolved, LinkItemView};
use crate::request::{manual_directory, BuildRequestView, ToolchainContextView};
use crate::session::{
    begin_compilation, begin_linking, finish, opening, own_directives, step, ActionView, EventView,
    PhaseView, SessionView,
};
use crate::stale::{first_newer, lemma_first_newer, newer_than, stale, Reading};
use crate::text::tokens;
use crate::units::FolderEntryView;
use vstd::prelude::*;

verus! {

/// The session after a sequence of answers, and everything it asked on the
/// way, one action for each answer.
pub open spec fn run(session: SessionView, events: Seq<EventView>) -> (SessionView, Seq<ActionView>)
    decreases events.len(),
{
    if events.len() == 0 {
        (session, Seq::empty())
    } else {
        let before = run(session, events.drop_last());
        let last = step(before.0, events.last());
        (last.0, before.1.push(last.1))
    }
}

/// The answers that give the ages of the entries of a folder, one by one.
pub open spec fn ages(entries: Seq<Reading>) -> Seq<EventView> {
    entries.map_values(|reading: Reading| EventView::Age(reading))
}

/// The action that asks for the age of the next entry.
pub open spec fn next_entry(session: SessionView) -> ActionView {
    ActionView::ReadEntryAge { folder: session.request.source_folder }
}

/// The archive is past the staleness check or the compilation: what is
/// left is to resolve the directives.
pub open spec fn is_linking(phase: PhaseView) -> bool {
    phase is LibrariesAsked || phase is LinkerFlagsAsked || phase is ProbesAsked
        || phase is Finished
}

/// The action compiles, or prepares a compilation.
pub open spec fn is_compiling(action: ActionView) -> bool {
    action is Compile || action is ListSources
}

/// A course of one answer is one step.
pub proof fn lemma_run_once(session: SessionView, event: EventView)
    ensures
        run(session, seq![event]) == (step(session, event).0, seq![step(session, event).1]),
{
    let one = seq![event];
    assert(one.drop_last() =~= Seq::<EventView>::empty());
    assert(run(session, one.drop_last()) == (session, Seq::<ActionView>::empty()));
    assert(Seq::<ActionView>::empty().push(step(session, event).1) =~= seq![
        step(session, event).1,
    ]);
}

/// A course runs on from where an earlier course ended.
pub proof fn lemma_run_continues(session: SessionView, first: Seq<EventView>, then: Seq<EventView>)
    ensures
        run(session, first + then).0 == run(run(session, first).0, then).0,
        run(session, first + then).1 == run(session, first).1 + run(run(session, first).0, then).1,
    decreases then.len(),
{
    if then.len() == 0 {
        assert(first + then =~= first);
        assert(run(session, first).1 + Seq::<ActionView>::empty() =~= run(session, first).1);
    } else {
        assert((first + then).drop_last() =~= first + then.drop_last());
        assert((first + then).last() == then.last());
        lemma_run_continues(session, first, then.drop_last());
        let middle = run(session, first).0;
        let before = run(middle, then.drop_last());
        let last = step(before.0, then.last());
        assert(run(session, first).1 + before.1.push(last.1) =~= (run(session, first).1
            + before.1).push(last.1));
    }
}

/// An archive without an age is rebuilt: whether it is missing, cannot be
/// read, or carries a time in the future, the first answer makes the session
/// ask for the sources.
pub proof fn lemma_archive_without_age_is_rebuilt(
    request: BuildRequestView,
    context: ToolchainContextView,
    archive: Reading,
)
    requires
        !(archive is Age),
    ensures
        step(opening(request, context).0, EventView::Age(archive)) == begin_compilation(
            request,
            context,
        ),
        step(opening(request, context).0, EventView::Age(archive)).1 == (ActionView::ListSources {
            folder: request.source_folder,
        }),
        forall|entries: Seq<Reading>| #[trigger] stale(archive, entries),
{
}

/// While no entry is newer than the archive, the session keeps asking for
/// the next entry and stays as it is; at the end of such a folder it
/// resolves the directives without compiling.
pub proof fn lemma_older_entries_leave_archive_fresh(
    session: SessionView,
    archive_age: u128,
    entries: Seq<Reading>,
)
    requires
        session.phase == (PhaseView::Scanning { archive_age }),
        !stale(Reading::Age(archive_age), entries),
    ensures
        run(session, ages(entries)).0 == session,
        run(session, ages(entries)).1 == Seq::new(entries.len(), |i: int| next_entry(session)),
        run(session, ages(entries).push(EventView::EndOfFolder)).0 == begin_linking(
            session.request,
            session.context,
        ).0,
        !is_compiling(begin_linking(session.request, session.context).1),
    decreases entries.len(),
{
    let asked = Seq::new(entries.len(), |i: int| next_entry(session));
    if entries.len() == 0 {
        assert(ages(entries) =~= Seq::<EventView>::empty());
        assert(run(session, ages(entries)).1 =~= asked);
    } else {
        let front = entries.drop_last();
        assert forall|i: int| 0 <= i < front.len() implies !newer_than(
            #[trigger] front[i],
            archive_age,
        ) by {
            assert(front[i] == entries[i]);
        }
        lemma_older_entries_leave_archive_fresh(session, archive_age, front);
        assert(ages(entries).drop_last() =~= ages(front));
        assert(ages(entries).last() == EventView::Age(entries.last()));
        assert(!newer_than(entries[entries.len() - 1], archive_age));
        assert(run(session, ages(entries)).1 =~= asked);
    }
    let whole = ages(entries).push(EventView::EndOfFolder);
    assert(whole.drop_last() =~= ages(entries));
    assert(whole.last() == EventView::EndOfFolder);
}

/// The first entry that is newer than the archive ends the scan: against
/// a stale archive the session has asked for each entry up to that one, asks
/// for the sources next, and for no further entry. This holds wherever in
/// the folder that entry stands.
pub proof fn lemma_first_newer_entry_ends_scan(
    session: SessionView,
    archive_age: u128,
    entries: Seq<Reading>,
)
    requires
        session.phase == (PhaseView::Scanning { archive_age }),
        stale(Reading::Age(archive_age), entries),
    ensures
        ({
            let first = first_newer(entries, archive_age);
            let course = run(session, ages(entries.take(first + 1)));
            &&& 0 <= first < entries.len()
            &&& course.0 == begin_compilation(session.request, session.context).0
            &&& course.1 == Seq::new(first as nat, |i: int| next_entry(session)).push(
                begin_compilation(session.request, session.context).1,
            )
        }),
        begin_compilation(session.request, session.context).1 == (ActionView::ListSources {
            folder: session.request.source_folder,
        }),
{
    lemma_first_newer(entries, archive_age);
    let first = first_newer(entries, archive_age);
    let before = entries.take(first);
    let upto = entries.take(first + 1);
    assert forall|i: int| 0 <= i < before.len() implies !newer_than(
        #[trigger] before[i],
        archive_age,
    ) by {
        assert(before[i] == entries[i]);
    }
    lemma_older_entries_leave_archive_fresh(session, archive_age, before);
    assert(ages(upto).drop_last() =~= ages(before));
    assert(ages(upto).last() == EventView::Age(entries[first]));
}

/// Once the directives are being resolved, nothing is compiled any more.
pub proof fn lemma_linking_never_compiles(session: SessionView, events: Seq<EventView>)
    requires
        is_linking(session.phase),
    ensures
        is_linking(run(session, events).0.phase),
        forall|i: int|
            0 <= i < run(session, events).1.len() ==> !is_compiling(
                #[trigger] run(session, events).1[i],
            ),
        run(session, events).1.len() == events.len(),
    decreases events.len(),
{
    if events.len() > 0 {
        lemma_linking_never_compiles(session, events.drop_last());
    }
}

/// A fresh archive is not compiled again, and the directives do not depend
/// on whether it was: a session that finds its archive fresh goes on exactly
/// as one that has just compiled, whatever the answers, and neither compiles
/// from there.
pub proof fn lemma_fresh_archive_rejoins_build(
    fresh: SessionView,
    built: SessionView,
    answers: Seq<EventView>,
)
    requires
        fresh.phase is Scanning,
        built.phase is Compiling,
        fresh.request == built.request,
        fresh.context == built.context,
    ensures
        run(fresh, seq![EventView::EndOfFolder] + answers) == run(
            built,
            seq![EventView::Done] + answers,
        ),
        forall|i: int|
            0 <= i < answers.len() + 1 ==> !is_compiling(
                #[trigger] run(fresh, seq![EventView::EndOfFolder] + answers).1[i],
            ),
{
    let found_fresh = seq![EventView::EndOfFolder];
    let compiled = seq![EventView::Done];
    lemma_run_once(fresh, EventView::EndOfFolder);
    lemma_run_once(built, EventView::Done);
    lemma_run_continues(fresh, found_fresh, answers);
    lemma_run_continues(built, compiled, answers);
    let joined = begin_linking(fresh.request, fresh.context).0;
    lemma_linking_never_compiles(joined, answers);
}

/// A build that finds its archive fresh compiles nothing from its first
/// step to its last, whatever the answers after the scan.
pub proof fn lemma_fresh_build_only_links(
    request: BuildRequestView,
    context: ToolchainContextView,
    archive_age: u128,
    entries: Seq<Reading>,
    answers: Seq<EventView>,
)
    requires
        !stale(Reading::Age(archive_age), entries),
    ensures
        ({
            let course = run(
                opening(request, context).0,
                seq![EventView::Age(Reading::Age(archive_age))] + ages(entries).push(
                    EventView::EndOfFolder,
                ) + answers,
            );
            &&& course.1.len() == 1 + entries.len() + 1 + answers.len()
            &&& forall|i: int| 0 <= i < course.1.len() ==> !is_compiling(#[trigger] course.1[i])
        }),
{
    let opened = opening(request, context).0;
    let first = seq![EventView::Age(Reading::Age(archive_age))];
    let scan = ages(entries).push(EventView::EndOfFolder);
    let scanning = SessionView { request, context, phase: PhaseView::Scanning { archive_age } };
    lemma_run_once(opened, first[0]);
    assert(run(opened, first).0 == scanning);
    lemma_older_entries_leave_archive_fresh(scanning, archive_age, entries);
    assert(scan.drop_last() =~= ages(entries));
    let linking = begin_linking(request, context);
    assert(run(scanning, scan).0 == linking.0);
    assert(run(scanning, scan).1 =~= Seq::new(entries.len(), |i: int| next_entry(scanning)).push(
        linking.1,
    ));
    lemma_run_continues(opened, first, scan);
    lemma_linking_never_compiles(linking.0, answers);
    lemma_run_continues(opened, first + scan, answers);
}

/// Where the configuration command gives no text, because it cannot be run
/// or prints what is none, and no installation directory serves the target,
/// the build ends unresolved, whatever the source folder holds: nothing is
/// compiled and nothing is declared.
pub proof fn lemma_unresolved_build_declares_nothing(
    session: SessionView,
    sources: Seq<FolderEntryView>,
)
    requires
        session.phase == (PhaseView::CompilerFlagsAsked { sources }),
        manual_directory(session.context) is None,
    ensures
        step(session, EventView::Failed) == finish(
            session.request,
            session.context,
            Seq::empty(),
            Err(BuildError::Unresolved),
        ),
        step(session, EventView::NotText) == step(session, EventView::Failed),
{
}

/// A configuration command that cannot be run for the libraries, or that
/// prints what is not text, is read as one that printed nothing: the session
/// goes on as after empty output, and whatever is found then, the build
/// succeeds and declares its own archive and, last, the C++ runtime library.
pub proof fn lemma_failed_libraries_query_is_recovered(
    session: SessionView,
    present: Seq<Seq<char>>,
)
    requires
        session.phase is LinkerFlagsAsked,
    ensures
        step(session, EventView::Failed) == step(session, EventView::Output(Seq::empty())),
        step(session, EventView::NotText) == step(session, EventView::Output(Seq::empty())),
        step(step(session, EventView::Failed).0, EventView::Present(present)) == finish(
            session.request,
            session.context,
            own_directives(session.context).push(dynamic_library("c++"@)),
            Ok(()),
        ),
{
    let none = Seq::<char>::empty();
    assert(tokens(none) =~= Seq::<Seq<char>>::empty());
    assert(items_of(tokens(none)) =~= Seq::<LinkItemView>::empty());
    assert(resolved(items_of(tokens(none)), present) =~= seq![dynamic_library("c++"@)]);
    assert(own_directives(session.context) + seq![dynamic_library("c++"@)]
        =~= own_directives(session.context).push(dynamic_library("c++"@)));
}

} // verus!
