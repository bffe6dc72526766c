//! The capture cache: how its files are named and which of them leave when
//! it holds more than it may.

use vstd::prelude::*;
use vstd::relations::{
    antisymmetric,
    reflexive,
    sorted_by,
    strongly_connected,
    total_ordering,
    transitive,
};
use vstd::seq_lib::*;
use vstd::string::*;
use crate::text::{decimal, push_decimal};

verus! {

/// Number of capture files that the cache keeps.
pub const MAX_CAPTURE_FILES: usize = 10;

/// One file of the capture directory as a listing reports it: its name and,
/// where it could be read, the time of its last change in nanoseconds since
/// the Unix epoch.
#[derive(Debug)]
pub struct DirEntry {
    pub name: String,
    pub modified: Option<i128>,
}

/// What a listed file is.
pub struct EntryModel {
    pub name: Seq<char>,
    pub modified: Option<i128>,
}

impl View for DirEntry {
    type V = EntryModel;

    open spec fn view(&self) -> EntryModel {
        EntryModel { name: self.name@, modified: self.modified }
    }
}

/// What a listing is: the listed files in the order of the listing.
pub open spec fn listing(entries: Seq<DirEntry>) -> Seq<EntryModel> {
    entries.map_values(|entry: DirEntry| entry@)
}

/// The name under which the capture taken at `millis` milliseconds since the
/// Unix epoch is stored.
pub open spec fn capture_name(millis: nat) -> Seq<char> {
    "capture-"@ + decimal(millis) + ".png"@
}

/// The name of the temporary file into which the platform's screenshot tool
/// writes the screenshot taken at `millis` milliseconds since the Unix epoch.
pub open spec fn screenshot_name(millis: nat) -> Seq<char> {
    "ai-copilot-screen-"@ + decimal(millis) + ".png"@
}

/// Whether the extension of the file name `name` is `png`: the name ends in
/// `.png` and that dot is not its first character.
pub open spec fn has_png_extension(name: Seq<char>) -> bool {
    name.len() > 4 && name.subrange(name.len() - 4, name.len() as int) == seq!['.', 'p', 'n', 'g']
}

/// Whether a listed file takes part in the retention policy: a PNG file
/// whose time of last change is known.
pub open spec fn is_capture(entry: EntryModel) -> bool {
    has_png_extension(entry.name) && entry.modified is Some
}

/// The positions `0 .. count` of a listing.
pub open spec fn positions(count: nat) -> Seq<usize> {
    Seq::new(count, |k: int| k as usize)
}

/// The test that picks the positions of the captures of `entries`.
pub open spec fn capture_at(entries: Seq<EntryModel>) -> spec_fn(usize) -> bool {
    |k: usize| is_capture(entries[k as int])
}

/// The positions of the captures of `entries`, in the order of the listing.
pub open spec fn candidates(entries: Seq<EntryModel>) -> Seq<usize> {
    positions(entries.len()).filter(capture_at(entries))
}

/// The time by which the file at position `k` is ordered.
pub open spec fn age(entries: Seq<EntryModel>, k: usize) -> int {
    match entries[k as int].modified {
        Some(stamp) => stamp as int,
        None => 0,
    }
}

/// The order in which captures leave the cache: the one changed longer ago
/// first, and of two changed at the same time the one listed first.
pub open spec fn older_first(entries: Seq<EntryModel>) -> spec_fn(usize, usize) -> bool {
    |a: usize, b: usize|
        age(entries, a) < age(entries, b) || (age(entries, a) == age(entries, b) && a <= b)
}

/// How many captures `entries` holds beyond `max_files`.
pub open spec fn excess(entries: Seq<EntryModel>, max_files: nat) -> nat {
    if candidates(entries).len() <= max_files {
        0
    } else {
        (candidates(entries).len() - max_files) as nat
    }
}

/// The positions of the files to delete so that `max_files` captures remain:
/// the oldest captures, oldest first.
pub open spec fn removal_order(entries: Seq<EntryModel>, max_files: nat) -> Seq<usize> {
    candidates(entries).sort_by(older_first(entries)).take(excess(entries, max_files) as int)
}

/// The order in which captures leave the cache is a total order.
pub proof fn lemma_older_first_is_total(entries: Seq<EntryModel>)
    ensures
        total_ordering(older_first(entries)),
{
}

/// Sorting keeps the number of captures, so the removal order holds exactly
/// the excess.
pub proof fn lemma_removal_order_len(entries: Seq<EntryModel>, max_files: nat)
    ensures
        removal_order(entries, max_files).len() == excess(entries, max_files),
        candidates(entries).sort_by(older_first(entries)).len() == candidates(entries).len(),
{
    lemma_older_first_is_total(entries);
    let found = candidates(entries);
    let sorted = found.sort_by(older_first(entries));
    found.lemma_sort_by_ensures(older_first(entries));
    to_multiset_len(found);
    to_multiset_len(sorted);
}

/// The test that picks the positions that `removed` does not hold.
pub open spec fn kept_at(removed: Seq<usize>) -> spec_fn(usize) -> bool {
    |k: usize| !removed.contains(k)
}

/// The files that are left of a listing once the files of the removal order
/// are deleted, in the order of the listing.
pub open spec fn survivors(entries: Seq<EntryModel>, max_files: nat) -> Seq<EntryModel> {
    positions(entries.len()).filter(kept_at(removal_order(entries, max_files))).map_values(
        |k: usize| entries[k as int],
    )
}

/// The listing of a cache into which the files `written` went one after the
/// other, each write followed by the deletion of the removal order. A new
/// file is listed last.
pub open spec fn after_persists(written: Seq<EntryModel>, max_files: nat) -> Seq<EntryModel>
    decreases written.len(),
{
    if written.len() == 0 {
        Seq::empty()
    } else {
        survivors(
            after_persists(written.drop_last(), max_files).push(written.last()),
            max_files,
        )
    }
}

/// Whether every file of `entries` is a capture and none was changed before
/// a file listed ahead of it.
pub open spec fn listed_in_order_of_writing(entries: Seq<EntryModel>) -> bool {
    &&& forall|i: int| 0 <= i < entries.len() ==> is_capture(#[trigger] entries[i])
    &&& forall|i: int, j: int|
        0 <= i <= j < entries.len() ==> (#[trigger] entries[i]).modified->0 <= (
        #[trigger] entries[j]).modified->0
}

/// Of a sequence whose first `start` items fail a test that all later items
/// pass, the test keeps exactly the later items.
proof fn lemma_filter_keeps_tail<A>(items: Seq<A>, pred: spec_fn(A) -> bool, start: int)
    requires
        0 <= start <= items.len(),
        forall|i: int| 0 <= i < start ==> !pred(#[trigger] items[i]),
        forall|i: int| start <= i < items.len() ==> pred(#[trigger] items[i]),
    ensures
        items.filter(pred) == items.skip(start),
    decreases items.len(),
{
    if items.len() == 0 {
        items.lemma_filter_len(pred);
    } else {
        let front = items.drop_last();
        assert(items =~= front.push(items.last()));
        front.lemma_filter_push(items.last(), pred);
        if start == items.len() {
            lemma_filter_keeps_tail(front, pred, start - 1);
        } else {
            lemma_filter_keeps_tail(front, pred, start);
        }
    }
}

/// Where every listed file is a capture and the listing runs from the file
/// changed longest ago to the one changed last, the files to delete are the
/// first ones of the listing, and the files behind them remain.
pub proof fn lemma_ordered_listing_loses_its_front(entries: Seq<EntryModel>, max_files: nat)
    requires
        entries.len() <= usize::MAX,
        listed_in_order_of_writing(entries),
    ensures
        excess(entries, max_files) == if entries.len() <= max_files {
            0
        } else {
            entries.len() - max_files
        },
        removal_order(entries, max_files) == positions(excess(entries, max_files)),
        survivors(entries, max_files) == entries.skip(excess(entries, max_files) as int),
{
    let all = positions(entries.len());
    let leq = older_first(entries);
    lemma_filter_keeps_tail(all, capture_at(entries), 0);
    assert(candidates(entries) == all);
    lemma_older_first_is_total(entries);
    all.lemma_sort_by_ensures(leq);
    lemma_sorted_unique(all, all.sort_by(leq), leq);
    let gone = excess(entries, max_files);
    let removed = removal_order(entries, max_files);
    let kept = kept_at(removed);
    lemma_filter_keeps_tail(all, kept, gone as int);
}

/// Retention. After any number of writes into an empty cache, each later
/// file changed no earlier than the one before it, the cache holds the
/// number of files written or `max_files`, whichever is less, and the files
/// it holds are the ones written last.
pub proof fn lemma_retention(written: Seq<EntryModel>, max_files: nat)
    requires
        written.len() <= usize::MAX,
        listed_in_order_of_writing(written),
    ensures
        after_persists(written, max_files).len() == if written.len() <= max_files {
            written.len()
        } else {
            max_files
        },
        after_persists(written, max_files) == written.skip(
            written.len() - after_persists(written, max_files).len(),
        ),
    decreases written.len(),
{
    if written.len() > 0 {
        let earlier = written.drop_last();
        lemma_retention(earlier, max_files);
        let held = after_persists(earlier, max_files);
        let listed = held.push(written.last());
        lemma_ordered_listing_loses_its_front(listed, max_files);
    }
}

/// Whether no two captures of `entries` were changed at the same time.
pub open spec fn captures_differ_in_time(entries: Seq<EntryModel>) -> bool {
    forall|i: int, j: int|
        0 <= i < j < entries.len() && is_capture(#[trigger] entries[i]) && is_capture(
            #[trigger] entries[j],
        ) ==> entries[i].modified != entries[j].modified
}

/// Retention in a directory that lists its files in any order. Where no two
/// captures were changed at the same time, the files to delete are captures
/// of the listing, as many as there are beyond `max_files`, and each of
/// them was changed before every capture that stays: the captures that stay
/// are the `max_files` changed last.
pub proof fn lemma_newest_captures_stay(entries: Seq<EntryModel>, max_files: nat)
    requires
        entries.len() <= usize::MAX,
        captures_differ_in_time(entries),
    ensures
        removal_order(entries, max_files).len() == excess(entries, max_files),
        candidates(entries).len() - excess(entries, max_files) == if candidates(entries).len()
            <= max_files {
            candidates(entries).len()
        } else {
            max_files
        },
        removal_order(entries, max_files).no_duplicates(),
        forall|r: usize| #[trigger]
            removal_order(entries, max_files).contains(r) ==> r < entries.len() && is_capture(
                entries[r as int],
            ),
        forall|r: usize, k: usize|
            #![trigger removal_order(entries, max_files).contains(r), removal_order(entries, max_files).contains(k)]
            removal_order(entries, max_files).contains(r) && k < entries.len() && is_capture(
                entries[k as int],
            ) && !removal_order(entries, max_files).contains(k) ==> age(entries, r) < age(
                entries,
                k,
            ),
{
    let all = positions(entries.len());
    let found = candidates(entries);
    let leq = older_first(entries);
    let sorted = found.sort_by(leq);
    let gone = excess(entries, max_files) as int;
    let removed = removal_order(entries, max_files);
    lemma_removal_order_len(entries, max_files);
    lemma_older_first_is_total(entries);
    found.lemma_sort_by_ensures(leq);
    assert forall|x: usize| #[trigger] sorted.contains(x) implies x < entries.len() && is_capture(
        entries[x as int],
    ) by {
        assert(found.contains(x));
        let at = choose|at: int| 0 <= at < found.len() && found[at] == x;
        all.lemma_filter_pred(capture_at(entries), at);
        all.lemma_filter_contains_rev(capture_at(entries), x);
        let position = choose|position: int| 0 <= position < all.len() && all[position] == x;
        assert(x == position as usize);
    }
    assert forall|a: int, b: int| 0 <= a < b < sorted.len() implies age(entries, sorted[a]) < age(
        entries,
        sorted[b],
    ) && sorted[a] != sorted[b] by {
        assert(leq(sorted[a], sorted[b]));
        assert(sorted.contains(sorted[a]));
        assert(sorted.contains(sorted[b]));
        lemma_sorted_positions_differ(entries, a, b);
        if sorted[a] != sorted[b] {
            let low = sorted[a] as int;
            let high = sorted[b] as int;
            if low < high {
                assert(entries[low].modified != entries[high].modified);
            } else {
                assert(entries[high].modified != entries[low].modified);
            }
        }
    }
    assert forall|r: usize| #[trigger] removed.contains(r) implies r < entries.len() && is_capture(
        entries[r as int],
    ) by {
        let at = choose|at: int| 0 <= at < removed.len() && removed[at] == r;
        assert(sorted[at] == r);
        assert(sorted.contains(r));
    }
    assert forall|r: usize, k: usize|
        removed.contains(r) && k < entries.len() && is_capture(entries[k as int])
            && !removed.contains(k) implies age(entries, r) < age(entries, k) by {
        let at = choose|at: int| 0 <= at < removed.len() && removed[at] == r;
        assert(sorted[at] == r);
        assert(all[k as int] == k);
        all.lemma_filter_contains(capture_at(entries), k as int);
        assert(found.contains(k));
        to_multiset_contains(found, k);
        to_multiset_contains(sorted, k);
        let stays = choose|stays: int| 0 <= stays < sorted.len() && sorted[stays] == k;
        if stays < gone {
            assert(removed[stays] == k);
        }
    }
}

/// No position occurs twice among the sorted captures.
proof fn lemma_sorted_positions_differ(entries: Seq<EntryModel>, a: int, b: int)
    requires
        entries.len() <= usize::MAX,
        0 <= a < b < candidates(entries).sort_by(older_first(entries)).len(),
    ensures
        candidates(entries).sort_by(older_first(entries))[a] != candidates(entries).sort_by(
            older_first(entries),
        )[b],
{
    let found = candidates(entries);
    let sorted = found.sort_by(older_first(entries));
    lemma_older_first_is_total(entries);
    found.lemma_sort_by_ensures(older_first(entries));
    lemma_kept_positions_differ(entries.len(), capture_at(entries));
    found.lemma_multiset_has_no_duplicates();
    sorted.lemma_multiset_has_no_duplicates_conv();
}

/// What a test keeps of the first `count` positions lies below `count`, and
/// no position is kept twice.
proof fn lemma_kept_positions_differ(count: nat, pred: spec_fn(usize) -> bool)
    requires
        count <= usize::MAX,
    ensures
        forall|i: int|
            0 <= i < positions(count).filter(pred).len() ==> (#[trigger] positions(count).filter(
                pred,
            )[i]) < count,
        positions(count).filter(pred).no_duplicates(),
    decreases count,
{
    if count == 0 {
        positions(0).lemma_filter_len(pred);
    } else {
        let fewer = (count - 1) as nat;
        lemma_kept_positions_differ(fewer, pred);
        assert(positions(count) =~= positions(fewer).push(fewer as usize));
        positions(fewer).lemma_filter_push(fewer as usize, pred);
    }
}

/// A capture is stored under a name with the extension `png`, so the
/// retention policy counts it.
pub proof fn lemma_capture_name_has_png_extension(millis: nat)
    ensures
        has_png_extension(capture_name(millis)),
{
    reveal_strlit("capture-");
    reveal_strlit(".png");
    let name = capture_name(millis);
    assert(name.subrange(name.len() - 4, name.len() as int) =~= seq!['.', 'p', 'n', 'g']);
}

/// Whether the extension of the file name `name` is `png`.
pub fn name_has_png_extension(name: &str) -> (out: bool)
    ensures
        out == has_png_extension(name@),
{
    let len = name.unicode_len();
    if len <= 4 {
        return false;
    }
    let matches = name.get_char(len - 4) == '.' && name.get_char(len - 3) == 'p' && name.get_char(
        len - 2,
    ) == 'n' && name.get_char(len - 1) == 'g';
    proof {
        let tail = name@.subrange(len - 4, len as int);
        let wanted = seq!['.', 'p', 'n', 'g'];
        if matches {
            assert(tail =~= wanted);
        }
    }
    matches
}

/// Whether `entry` takes part in the retention policy.
pub fn entry_is_capture(entry: &DirEntry) -> (out: bool)
    ensures
        out == is_capture(entry@),
{
    entry.modified.is_some() && name_has_png_extension(entry.name.as_str())
}

/// The time by which `entry` is ordered.
fn entry_age(entry: &DirEntry) -> (out: i128)
    ensures
        out == match entry.modified {
            Some(stamp) => stamp as int,
            None => 0,
        },
{
    match entry.modified {
        Some(stamp) => stamp,
        None => 0,
    }
}

/// Chooses the files to delete after a write, from a listing of the capture
/// directory: where more than `max_files` captures are listed, the oldest of
/// them, oldest first, until `max_files` remain. The result holds positions
/// in `entries`.
pub fn prune_captures(entries: &Vec<DirEntry>, max_files: usize) -> (out: Vec<usize>)
    ensures
        out@ == removal_order(listing(entries@), max_files as nat),
        forall|k: int| 0 <= k < out@.len() ==> (#[trigger] out@[k]) < entries@.len(),
{
    let ghost model = listing(entries@);
    let ghost leq = older_first(model);
    let ghost pred = capture_at(model);
    let count = entries.len();
    let mut sorted: Vec<usize> = Vec::new();
    let mut i: usize = 0;
    proof {
        positions(0).lemma_filter_len(pred);
        assert(positions(0).filter(pred) =~= Seq::<usize>::empty());
    }
    while i < count
        invariant
            count == entries@.len(),
            i <= count,
            model == listing(entries@),
            leq == older_first(model),
            pred == capture_at(model),
            sorted_by(sorted@, leq),
            sorted@.to_multiset() == positions(i as nat).filter(pred).to_multiset(),
            forall|k: int| 0 <= k < sorted@.len() ==> (#[trigger] sorted@[k]) < i,
        decreases count - i,
    {
        let entry = &entries[i];
        proof {
            assert(positions((i + 1) as nat) =~= positions(i as nat).push(i));
            positions(i as nat).lemma_filter_push(i, pred);
        }
        if entry_is_capture(entry) {
            let stamp = entry_age(entry);
            let mut p: usize = sorted.len();
            while p > 0 && entry_age(&entries[sorted[p - 1]]) > stamp
                invariant
                    count == entries@.len(),
                    i < count,
                    model == listing(entries@),
                    p <= sorted@.len(),
                    stamp == age(model, i),
                    forall|k: int| 0 <= k < sorted@.len() ==> (#[trigger] sorted@[k]) < i,
                    forall|k: int| p <= k < sorted@.len() ==> age(model, #[trigger] sorted@[k]) > stamp,
                decreases p,
            {
                p = p - 1;
            }
            let ghost before = sorted@;
            proof {
                assert forall|k: int| 0 <= k < p implies leq(#[trigger] before[k], i) by {
                    if k < p - 1 {
                        assert(leq(before[k], before[p - 1]));
                    }
                }
            }
            sorted.insert(p, i);
            proof {
                before.insert_ensures(p as int, i);
                to_multiset_insert(before, p as int, i);
                to_multiset_build(positions(i as nat).filter(pred), i);
            }
        }
        i = i + 1;
    }
    proof {
        let found = candidates(model);
        lemma_older_first_is_total(model);
        found.lemma_sort_by_ensures(leq);
        lemma_sorted_unique(sorted@, found.sort_by(leq), leq);
        to_multiset_len(found);
        to_multiset_len(sorted@);
    }
    if sorted.len() <= max_files {
        sorted.truncate(0);
    } else {
        let keep = sorted.len() - max_files;
        sorted.truncate(keep);
    }
    sorted
}

/// The name under which the capture taken at `millis` milliseconds since the
/// Unix epoch is stored.
pub fn capture_file_name(millis: u128) -> (out: String)
    ensures
        out@ == capture_name(millis as nat),
{
    let mut out = String::from_str("capture-");
    push_decimal(&mut out, millis);
    out.append(".png");
    out
}

/// The name of the temporary file for the screenshot taken at `millis`
/// milliseconds since the Unix epoch.
pub fn screenshot_file_name(millis: u128) -> (out: String)
    ensures
        out@ == screenshot_name(millis as nat),
{
    let mut out = String::from_str("ai-copilot-screen-");
    push_decimal(&mut out, millis);
    out.append(".png");
    out
}

} // verus!
