//! Staleness detection: is the archive older than any entry of the source
//! folder?

use crate::error::BuildError;
use vstd::prelude::*;

verus! {

/// What a look at the modification time of a file gave.
#[derive(Clone, Copy, Debug, PartialEq, Eq, Structural)]
pub enum Reading {
    /// The metadata or the modification time could not be read.
    Unreadable,
    /// The modification time lies in the future, so the file has no age:
    /// as an archive it is stale, as an entry it is newer than any archive.
    Future,
    /// Nanoseconds that have passed since the file was modified.
    Age(u128),
}

/// Whether the archive has to be produced again.
#[derive(Clone, Copy, Debug, PartialEq, Eq, Structural)]
pub enum StaleState {
    Fresh,
    Stale,
}

/// An entry counts against an archive of age `archive_age` when it was
/// modified after the archive: its own age is smaller, or its modification
/// time lies in the future, which is after every archive that has an age.
/// An entry that cannot be read counts for nothing.
pub open spec fn newer_than(entry: Reading, archive_age: u128) -> bool {
    match entry {
        Reading::Age(age) => age < archive_age,
        Reading::Future => true,
        Reading::Unreadable => false,
    }
}

/// The archive is stale when it has no age, or when some entry is newer.
pub open spec fn stale(archive: Reading, entries: Seq<Reading>) -> bool {
    match archive {
        Reading::Age(archive_age) => exists|i: int|
            0 <= i < entries.len() && newer_than(#[trigger] entries[i], archive_age),
        _ => true,
    }
}

/// The place of the first entry that is newer than an archive of age
/// `archive_age`, or the number of entries where none is.
pub open spec fn first_newer(entries: Seq<Reading>, archive_age: u128) -> int
    decreases entries.len(),
{
    if entries.len() == 0 || newer_than(entries[0], archive_age) {
        0
    } else {
        1 + first_newer(entries.drop_first(), archive_age)
    }
}

/// What the check of an archive gives, where `listing` holds the readings
/// of the entries of the source folder, or nothing where the folder could
/// not be listed. An archive without an age is stale whatever the folder
/// holds; an archive with an age cannot be checked against a folder that
/// cannot be listed.
pub open spec fn checked(archive: Reading, listing: Option<Seq<Reading>>) -> Result<
    bool,
    BuildError,
> {
    match listing {
        Some(entries) => Ok(stale(archive, entries)),
        None => if archive is Age {
            Err(BuildError::SourceFolderUnreadable)
        } else {
            Ok(true)
        },
    }
}

/// The state of the archive after a check: a check that failed leaves the
/// archive stale.
pub open spec fn assessed(check: Result<bool, BuildError>) -> StaleState {
    match check {
        Ok(false) => StaleState::Fresh,
        _ => StaleState::Stale,
    }
}

/// Tells whether `entry` was modified after an archive of age `archive_age`.
pub fn is_newer(entry: Reading, archive_age: u128) -> (newer: bool)
    ensures
        newer == newer_than(entry, archive_age),
{
    match entry {
        Reading::Age(age) => age < archive_age,
        Reading::Future => true,
        Reading::Unreadable => false,
    }
}

/// `first_newer` gives a place in the listing or its end; the entry there
/// is newer than the archive and none before it is; and it gives the end
/// exactly where the archive is not stale.
pub proof fn lemma_first_newer(entries: Seq<Reading>, archive_age: u128)
    ensures
        0 <= first_newer(entries, archive_age) <= entries.len(),
        first_newer(entries, archive_age) < entries.len() ==> newer_than(
            entries[first_newer(entries, archive_age)],
            archive_age,
        ),
        forall|i: int|
            0 <= i < first_newer(entries, archive_age) ==> !newer_than(
                #[trigger] entries[i],
                archive_age,
            ),
        first_newer(entries, archive_age) < entries.len() <==> stale(
            Reading::Age(archive_age),
            entries,
        ),
    decreases entries.len(),
{
    if entries.len() > 0 && !newer_than(entries[0], archive_age) {
        let rest = entries.drop_first();
        lemma_first_newer(rest, archive_age);
        let first = first_newer(entries, archive_age);
        assert forall|i: int| 0 <= i < first implies !newer_than(
            #[trigger] entries[i],
            archive_age,
        ) by {
            if i > 0 {
                assert(entries[i] == rest[i - 1]);
            }
        }
        if first < entries.len() {
            assert(entries[first] == rest[first - 1]);
        }
    }
}

/// Looks for the first entry that was modified after an archive of age
/// `archive_age`, and stops there.
pub fn find_newer(entries: &Vec<Reading>, archive_age: u128) -> (found: Option<usize>)
    ensures
        match found {
            Some(at) => at < entries.len() && at == first_newer(entries@, archive_age),
            None => first_newer(entries@, archive_age) == entries.len(),
        },
        found is Some <==> stale(Reading::Age(archive_age), entries@),
{
    let mut i: usize = 0;
    assert(entries@.skip(0) =~= entries@);
    while i < entries.len()
        invariant
            i <= entries.len(),
            first_newer(entries@, archive_age) == i + first_newer(
                entries@.skip(i as int),
                archive_age,
            ),
        decreases entries.len() - i,
    {
        if is_newer(entries[i], archive_age) {
            proof {
                lemma_first_newer(entries@, archive_age);
            }
            return Some(i);
        }
        assert(entries@.skip(i as int).drop_first() =~= entries@.skip(i + 1));
        i += 1;
    }
    proof {
        lemma_first_newer(entries@, archive_age);
    }
    None
}

/// The readings that a listing holds, if the folder could be listed.
pub open spec fn readings(listing: Option<Vec<Reading>>) -> Option<Seq<Reading>> {
    match listing {
        Some(entries) => Some(entries@),
        None => None,
    }
}

/// Decides staleness from the reading of the archive and from the listing
/// of the source folder: the readings of its entries, in whatever order the
/// folder gave them, or nothing where it could not be listed. An archive
/// without an age is stale; one with an age is stale exactly if some entry
/// is newer. The check fails only where the archive has an age and the
/// folder could not be listed.
pub fn is_stale(archive: Reading, listing: &Option<Vec<Reading>>) -> (check: Result<
    bool,
    BuildError,
>)
    ensures
        check == checked(archive, readings(*listing)),
        !(archive is Age) ==> check == Ok::<bool, BuildError>(true),
        check is Err <==> archive is Age && listing is None,
        check is Err ==> check == Err::<bool, BuildError>(BuildError::SourceFolderUnreadable),
        archive is Age && listing is Some && (forall|i: int|
            0 <= i < listing->0.len() ==> !newer_than(#[trigger] listing->0[i], archive->Age_0))
            ==> check == Ok::<bool, BuildError>(false),
        archive is Age && listing is Some && (exists|i: int|
            0 <= i < listing->0.len() && newer_than(#[trigger] listing->0[i], archive->Age_0))
            ==> check == Ok::<bool, BuildError>(true),
{
    match archive {
        Reading::Age(archive_age) => match listing {
            Some(entries) => Ok(find_newer(entries, archive_age).is_some()),
            None => Err(BuildError::SourceFolderUnreadable),
        },
        _ => Ok(true),
    }
}

/// Tells the state of the archive from its check. A check that failed
/// leaves the archive stale.
pub fn assess(check: Result<bool, BuildError>) -> (state: StaleState)
    ensures
        state == assessed(check),
        check is Err ==> state == StaleState::Stale,
{
    match check {
        Ok(false) => StaleState::Fresh,
        _ => StaleState::Stale,
    }
}

/// Staleness does not depend on the order in which the folder is listed:
/// two listings of the same readings give the same verdict.
pub proof fn lemma_order_is_irrelevant(archive: Reading, first: Seq<Reading>, second: Seq<Reading>)
    requires
        first.to_multiset() == second.to_multiset(),
    ensures
        stale(archive, first) == stale(archive, second),
{
    lemma_stale_in(archive, first, second);
    lemma_stale_in(archive, second, first);
}

proof fn lemma_stale_in(archive: Reading, first: Seq<Reading>, second: Seq<Reading>)
    requires
        first.to_multiset() == second.to_multiset(),
    ensures
        stale(archive, first) ==> stale(archive, second),
{
    if archive is Age && stale(archive, first) {
        let i = choose|i: int|
            0 <= i < first.len() && newer_than(#[trigger] first[i], archive->Age_0);
        first.to_multiset_ensures();
        second.to_multiset_ensures();
        assert(first.contains(first[i]));
        assert(first.to_multiset().count(first[i]) > 0);
        assert(second.to_multiset().count(first[i]) > 0);
        assert(second.contains(first[i]));
        let j = choose|j: int| 0 <= j < second.len() && second[j] == first[i];
        assert(newer_than(second[j], archive->Age_0));
    }
}

} // verus!
