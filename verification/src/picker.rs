//! The picker: the candidate pool and the draw from it.

use vstd::prelude::*;
use rand_core::OsRng;
use rand_distr::{Distribution, Uniform};
use crate::error::RunError;
use crate::memory::MemoryRecord;
use crate::scanner::{
    images, qualifies, qualifying, same_text, scan_directory, texts, DirectoryEntry, DirectoryListing,
};

verus! {

/// What the picker found.
#[derive(Debug, PartialEq, Eq)]
pub enum Pick {
    /// The pool is empty. This is an expected end of a run, not a failure.
    NoCandidates,
    /// The path that was drawn from the pool.
    Chosen(String),
}

/// The candidate pool: the scanned images without the previous selection,
/// compared as the text that the memory records.
pub open spec fn pool(scan: Seq<Seq<char>>, previous: Seq<char>) -> Seq<Seq<char>> {
    scan.filter(differs_from(previous))
}

/// The test that a path is not the previous selection.
pub open spec fn differs_from(previous: Seq<char>) -> spec_fn(Seq<char>) -> bool {
    |path: Seq<char>| path != previous
}

/// Takes the previous selection out of a scan result.
pub fn candidate_pool(scan: &Vec<String>, previous: &str) -> (remaining: Vec<String>)
    ensures
        texts(remaining@) == pool(texts(scan@), previous@),
{
    let mut remaining: Vec<String> = Vec::new();
    let mut index: usize = 0;
    while index < scan.len()
        invariant
            index <= scan.len(),
            texts(remaining@) == pool(texts(scan@).take(index as int), previous@),
        decreases scan.len() - index,
    {
        let ghost seen = texts(scan@).take(index as int);
        let ghost before = remaining@;
        if !same_text(scan[index].as_str(), previous) {
            remaining.push(scan[index].clone());
        }
        proof {
            assert(texts(scan@).take(index + 1) == seen.push(scan@[index as int]@));
            seen.lemma_filter_push(scan@[index as int]@, differs_from(previous@));
            if scan@[index as int]@ != previous@ {
                assert(texts(remaining@) =~= texts(before).push(scan@[index as int]@));
            }
        }
        index += 1;
    }
    proof {
        assert(texts(scan@).take(index as int) == texts(scan@));
    }
    remaining
}

/// Computes the candidate pool of a run: the qualifying images of the listing,
/// in listing order, without the previous selection. A directory that could
/// not be opened is a failure that names the directory.
pub fn get_possible_wallpapers(
    previous_wallpaper: &str,
    directory: &str,
    listing: &DirectoryListing,
) -> (possible: Result<Vec<String>, RunError>)
    ensures
        match (listing, possible) {
            (DirectoryListing::Unreadable, Err(RunError::DirectoryUnreadable { directory: named })) => {
                named@ == directory@
            },
            (DirectoryListing::Entries(entries), Ok(found)) => texts(found@) == pool(
                images(entries@),
                previous_wallpaper@,
            ),
            _ => false,
        },
{
    match scan_directory(directory, listing) {
        Ok(scan) => Ok(candidate_pool(&scan, previous_wallpaper)),
        Err(error) => Err(error),
    }
}

/// Calls `rand_distr::Uniform::new(0, bound)` and samples it once with
/// `rand_core::OsRng`.
///
/// Trusted: the sample lies in the half-open range the distribution was made
/// for. `Uniform::new` panics on an empty range, which `requires` leaves out.
#[verifier::external_body]
fn uniform_index(bound: usize) -> (index: usize)
    requires
        bound > 0,
    ensures
        index < bound,
{
    Uniform::new(0, bound).sample(&mut OsRng)
}

/// The pick that a given draw makes.
pub open spec fn pick_spec(candidates: Seq<Seq<char>>, draw: int) -> Option<Seq<char>> {
    if candidates.len() == 0 {
        None
    } else {
        Some(candidates[draw])
    }
}

impl Pick {
    /// The chosen path, if there is one.
    pub open spec fn chosen(self) -> Option<Seq<char>> {
        match self {
            Pick::NoCandidates => None,
            Pick::Chosen(path) => Some(path@),
        }
    }
}

/// Makes the pick for a draw that was already made: nothing from an empty
/// pool, otherwise the candidate at the drawn position.
pub fn pick_at(candidates: &Vec<String>, draw: usize) -> (pick: Pick)
    requires
        candidates.len() > 0 ==> draw < candidates.len(),
    ensures
        pick.chosen() == pick_spec(texts(candidates@), draw as int),
{
    if candidates.len() == 0 {
        Pick::NoCandidates
    } else {
        Pick::Chosen(candidates[draw].clone())
    }
}

/// Draws one wallpaper from a pool that is not empty. Every candidate can be
/// drawn, and nothing else can.
pub fn choose_random_wallpaper(possible_wallpapers: &Vec<String>) -> (chosen: &String)
    requires
        possible_wallpapers.len() > 0,
    ensures
        exists|draw: int|
            0 <= draw < possible_wallpapers.len() && *chosen == #[trigger] possible_wallpapers[draw],
{
    let draw = uniform_index(possible_wallpapers.len());
    &possible_wallpapers[draw]
}

/// Picks from a pool: reports that there are no candidates exactly when the
/// pool is empty, and otherwise draws one of its members at random.
pub fn pick_wallpaper(candidates: &Vec<String>) -> (pick: Pick)
    ensures
        candidates.len() == 0 <==> pick is NoCandidates,
        pick matches Pick::Chosen(path) ==> texts(candidates@).contains(path@),
{
    if candidates.len() == 0 {
        Pick::NoCandidates
    } else {
        let chosen = choose_random_wallpaper(candidates);
        proof {
            let draw = choose|draw: int|
                0 <= draw < candidates.len() && *chosen == #[trigger] candidates[draw];
            assert(texts(candidates@)[draw] == chosen@);
        }
        Pick::Chosen(chosen.clone())
    }
}

/// A filter keeps a sequence whole when every member passes.
proof fn lemma_filter_keeps_all(scan: Seq<Seq<char>>, previous: Seq<char>)
    requires
        !scan.contains(previous),
    ensures
        pool(scan, previous) == scan,
    decreases scan.len(),
{
    reveal(Seq::filter);
    if scan.len() > 0 {
        let front = scan.drop_last();
        assert forall|path: Seq<char>| front.contains(path) implies scan.contains(path) by {
            let at = choose|at: int| 0 <= at < front.len() && front[at] == path;
            assert(scan[at] == path);
        }
        lemma_filter_keeps_all(front, previous);
        assert(scan.contains(scan.last()));
        assert(front.push(scan.last()) =~= scan);
    } else {
        assert(pool(scan, previous) =~= scan);
    }
}

/// Exclusion: the pool never holds the previous selection, and it holds every
/// scanned image that differs from it.
pub proof fn lemma_pool_excludes_previous(scan: Seq<Seq<char>>, previous: Seq<char>)
    ensures
        !pool(scan, previous).contains(previous),
        forall|path: Seq<char>|
            pool(scan, previous).contains(path) <==> scan.contains(path) && path != previous,
{
    let differs = differs_from(previous);
    let remaining = pool(scan, previous);
    assert forall|text: Seq<char>| remaining.contains(text) implies scan.contains(text) && text
        != previous by {
        let at = remaining.index_of(text);
        scan.lemma_filter_pred(differs, at);
        scan.lemma_filter_contains_rev(differs, text);
    }
    assert forall|text: Seq<char>| scan.contains(text) && text != previous implies remaining.contains(
        text,
    ) by {
        let at = scan.index_of(text);
        scan.lemma_filter_contains(differs, at);
    }
}

/// Exclusion, exactly: where the scan lists no path twice and lists the
/// previous selection at `position`, the pool is the scan with that one
/// element taken out, the others in their order.
pub proof fn lemma_pool_removes_previous(
    scan: Seq<Seq<char>>,
    previous: Seq<char>,
    position: int,
)
    requires
        scan.no_duplicates(),
        0 <= position < scan.len(),
        scan[position] == previous,
    ensures
        pool(scan, previous) == scan.remove(position),
    decreases scan.len(),
{
    reveal(Seq::filter);
    let front = scan.drop_last();
    if position == scan.len() - 1 {
        assert(!front.contains(previous)) by {
            if front.contains(previous) {
                let at = choose|at: int| 0 <= at < front.len() && front[at] == previous;
                assert(scan[at] == scan[position]);
            }
        }
        lemma_filter_keeps_all(front, previous);
        assert(scan.remove(position) =~= front);
    } else {
        assert(scan.last() != previous);
        assert(front.no_duplicates());
        lemma_pool_removes_previous(front, previous, position);
        assert(front.remove(position).push(scan.last()) =~= scan.remove(position));
    }
}

/// No silent repeat: where the only scanned image is the previous selection,
/// the pool is empty and no draw picks anything.
pub proof fn lemma_only_previous_gives_no_candidates(
    scan: Seq<Seq<char>>,
    previous: Seq<char>,
    draw: int,
)
    requires
        scan.len() == 1,
        scan[0] == previous,
    ensures
        pool(scan, previous).len() == 0,
        pick_spec(pool(scan, previous), draw) is None,
{
    lemma_pool_removes_previous(scan, previous, 0);
}

/// Without a memory nothing is excluded: a missing record reads as the empty
/// string, and the pool for it is every qualifying image of the listing.
pub proof fn lemma_missing_memory_excludes_nothing(entries: Seq<DirectoryEntry>)
    ensures
        MemoryRecord::Missing.previous() == Some(Seq::<char>::empty()),
        pool(images(entries), Seq::<char>::empty()) == images(entries),
{
    let nothing = Seq::<char>::empty();
    let kept = entries.filter(qualifying());
    if images(entries).contains(nothing) {
        let at = choose|at: int| 0 <= at < images(entries).len() && images(entries)[at] == nothing;
        entries.lemma_filter_pred(qualifying(), at);
        assert(qualifies(kept[at]));
        assert(kept[at].path@ == nothing);
    }
    lemma_filter_keeps_all(images(entries), nothing);
}

} // verus!
