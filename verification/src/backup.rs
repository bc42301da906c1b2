//! Bookkeeping of the backups of the data store: how they are named, which
//! files of the backup directory count as backups, in which order they are
//! listed, and which of them a cleanup removes.

use crate::calendar::{render_rfc3339, utc_rfc3339, Timestamp};
use crate::environment::Platform;
use crate::paths::{resolve_inside, resolved, stays_inside};
use crate::text::{join, join3, ends_with, starts_with};
use crate::updater::{BackupResult, BackupResultView, UpdateError, UpdateErrorKind};
use vstd::prelude::*;
use vstd::string::*;

verus! {

/// The directory of the backups, below the data directory.
pub const BACKUP_DIRECTORY: &'static str = "backups";

/// What the file name of every automatic backup begins with.
pub const AUTOMATIC_PREFIX: &'static str = "prompalette_backup_";

/// What the file name of every manual backup begins with.
pub const MANUAL_PREFIX: &'static str = "manual_";

/// What the file name of every backup ends with.
pub const BACKUP_SUFFIX: &'static str = ".db";

/// How many automatic backups a cleanup keeps unless told otherwise.
pub const DEFAULT_KEEP_COUNT: u32 = 10;

/// One backup of the data store.
#[derive(Debug, Clone)]
pub struct BackupInfo {
    pub filename: String,
    pub full_path: String,
    /// When the file was created, as RFC 3339 text.
    pub created_at: String,
    /// When the file was created, in seconds since the Unix epoch. Backups
    /// are ordered by this number.
    pub created_unix: i64,
    pub size_bytes: u64,
    pub is_automatic: bool,
}

/// A backup as plain values.
pub struct BackupInfoView {
    pub filename: Seq<char>,
    pub full_path: Seq<char>,
    pub created_at: Seq<char>,
    pub created_unix: int,
    pub size_bytes: nat,
    pub is_automatic: bool,
}

impl View for BackupInfo {
    type V = BackupInfoView;

    open spec fn view(&self) -> BackupInfoView {
        BackupInfoView {
            filename: self.filename@,
            full_path: self.full_path@,
            created_at: self.created_at@,
            created_unix: self.created_unix as int,
            size_bytes: self.size_bytes as nat,
            is_automatic: self.is_automatic,
        }
    }
}

impl DeepView for BackupInfo {
    type V = BackupInfoView;

    open spec fn deep_view(&self) -> BackupInfoView {
        self@
    }
}

/// What the file system tells about a file.
#[derive(Debug, Clone, Copy)]
pub struct FileDetails {
    pub size_bytes: u64,
    /// The time of creation in seconds since the Unix epoch, where the
    /// file system records one that is not before the epoch.
    pub created_unix: Option<i64>,
}

/// One entry of the backup directory.
#[derive(Debug, Clone)]
pub struct DirectoryEntry {
    pub filename: String,
    pub full_path: String,
    pub is_file: bool,
    /// `None` where the file's details could not be read.
    pub details: Option<FileDetails>,
}

/// `name` has the extension `db`: it ends with `.db`, and something
/// stands before that.
pub open spec fn is_database_name(name: Seq<char>) -> bool {
    name.len() > 3 && BACKUP_SUFFIX@.is_suffix_of(name)
}

/// `name` is the file name of an automatic backup.
pub open spec fn is_automatic_name(name: Seq<char>) -> bool {
    AUTOMATIC_PREFIX@.is_prefix_of(name)
}

/// The file name of the automatic backup taken at the time that
/// `compact` renders.
pub open spec fn automatic_name(compact: Seq<char>) -> Seq<char> {
    AUTOMATIC_PREFIX@ + compact + BACKUP_SUFFIX@
}

/// The file name of the manual backup taken at the time that `compact`
/// renders, with the user's label where there is one.
pub open spec fn manual_name(label: Option<Seq<char>>, compact: Seq<char>) -> Seq<char> {
    match label {
        Some(l) => MANUAL_PREFIX@ + l + "_"@ + compact + BACKUP_SUFFIX@,
        None => "manual_backup_"@ + compact + BACKUP_SUFFIX@,
    }
}

/// The entry is listed as a backup: a file with the extension `db` whose
/// details could be read.
pub open spec fn is_listed(entry: DirectoryEntry) -> bool {
    entry.is_file && is_database_name(entry.filename@) && entry.details is Some
}

/// The creation time that is shown for a file, as text and as a number:
/// the one that the file system records, where the calendar can render
/// it, and the time of the listing otherwise.
pub open spec fn shown_creation(details: FileDetails, now: Timestamp) -> (Seq<char>, int) {
    match details.created_unix {
        Some(secs) => match utc_rfc3339(secs as int, 0) {
            Some(text) => (text, secs as int),
            None => (now.rfc3339_text(), now.unix_seconds()),
        },
        None => (now.rfc3339_text(), now.unix_seconds()),
    }
}

/// The backup that a listed entry stands for.
pub open spec fn described(entry: DirectoryEntry, now: Timestamp) -> BackupInfoView {
    let shown = shown_creation(entry.details->0, now);
    BackupInfoView {
        filename: entry.filename@,
        full_path: entry.full_path@,
        created_at: shown.0,
        created_unix: shown.1,
        size_bytes: entry.details->0.size_bytes as nat,
        is_automatic: is_automatic_name(entry.filename@),
    }
}

/// The backups among `entries`, in the order of the entries.
pub open spec fn backups_among(entries: Seq<DirectoryEntry>, now: Timestamp) -> Seq<BackupInfoView>
    decreases entries.len(),
{
    if entries.len() == 0 {
        seq![]
    } else if is_listed(entries[0]) {
        seq![described(entries[0], now)] + backups_among(entries.drop_first(), now)
    } else {
        backups_among(entries.drop_first(), now)
    }
}

/// The automatic backups among `backups`, in their order.
pub open spec fn automatic_among(backups: Seq<BackupInfoView>) -> Seq<BackupInfoView>
    decreases backups.len(),
{
    if backups.len() == 0 {
        seq![]
    } else if backups[0].is_automatic {
        seq![backups[0]] + automatic_among(backups.drop_first())
    } else {
        automatic_among(backups.drop_first())
    }
}

/// `a` must stand before `b`: it is newer where the newest come first,
/// older where the oldest come first.
pub open spec fn comes_before(a: BackupInfoView, b: BackupInfoView, newest_first: bool) -> bool {
    if newest_first {
        a.created_unix > b.created_unix
    } else {
        a.created_unix < b.created_unix
    }
}

/// The place of `x` in `ordered`: behind the leading backups that must
/// stand before it.
pub open spec fn slot(x: BackupInfoView, ordered: Seq<BackupInfoView>, newest_first: bool) -> nat
    decreases ordered.len(),
{
    if ordered.len() == 0 || !comes_before(ordered[0], x, newest_first) {
        0
    } else {
        1 + slot(x, ordered.drop_first(), newest_first)
    }
}

/// `backups` by creation time. Backups of the same time keep the order
/// that they have in `backups`.
pub open spec fn arranged(backups: Seq<BackupInfoView>, newest_first: bool) -> Seq<BackupInfoView>
    decreases backups.len(),
{
    if backups.len() == 0 {
        seq![]
    } else {
        let rest = arranged(backups.drop_first(), newest_first);
        rest.insert(slot(backups[0], rest, newest_first) as int, backups[0])
    }
}

/// No backup of `s` stands behind one that it must stand before.
pub open spec fn is_ordered(s: Seq<BackupInfoView>, newest_first: bool) -> bool {
    forall|i: int, j: int| 0 <= i < j < s.len() ==> !comes_before(s[j], s[i], newest_first)
}

/// The automatic backups that a cleanup removes, oldest first: all but
/// the `keep` newest.
pub open spec fn cleanup_plan(backups: Seq<BackupInfoView>, keep: nat) -> Seq<BackupInfoView> {
    let oldest_first = arranged(automatic_among(backups), false);
    if oldest_first.len() <= keep {
        seq![]
    } else {
        oldest_first.take(oldest_first.len() - keep)
    }
}

/// The number of `true` in `outcomes`.
pub open spec fn count_true(outcomes: Seq<bool>) -> nat
    decreases outcomes.len(),
{
    if outcomes.len() == 0 {
        0
    } else {
        count_true(outcomes.drop_last()) + if outcomes.last() {
            1nat
        } else {
            0nat
        }
    }
}

proof fn lemma_slot_bounds(x: BackupInfoView, ordered: Seq<BackupInfoView>, newest_first: bool)
    ensures
        slot(x, ordered, newest_first) <= ordered.len(),
        forall|i: int|
            0 <= i < slot(x, ordered, newest_first) ==> comes_before(
                #[trigger] ordered[i],
                x,
                newest_first,
            ),
        slot(x, ordered, newest_first) < ordered.len() ==> !comes_before(
            ordered[slot(x, ordered, newest_first) as int],
            x,
            newest_first,
        ),
    decreases ordered.len(),
{
    if ordered.len() != 0 && comes_before(ordered[0], x, newest_first) {
        let rest = ordered.drop_first();
        lemma_slot_bounds(x, rest, newest_first);
        assert forall|i: int| 0 <= i < slot(x, ordered, newest_first) implies comes_before(
            #[trigger] ordered[i],
            x,
            newest_first,
        ) by {
            if i > 0 {
                assert(ordered[i] == rest[i - 1]);
            }
        }
        if slot(x, ordered, newest_first) < ordered.len() {
            assert(ordered[slot(x, ordered, newest_first) as int] == rest[slot(
                x,
                rest,
                newest_first,
            ) as int]);
        }
    }
}

/// Arranging keeps every backup, each as often as it occurs.
pub proof fn lemma_arranged_is_permutation(backups: Seq<BackupInfoView>, newest_first: bool)
    ensures
        arranged(backups, newest_first).to_multiset() == backups.to_multiset(),
        arranged(backups, newest_first).len() == backups.len(),
    decreases backups.len(),
{
    broadcast use vstd::seq_lib::group_to_multiset_ensures;

    if backups.len() == 0 {
        assert(arranged(backups, newest_first) =~= backups);
    } else {
        let tail = backups.drop_first();
        let rest = arranged(tail, newest_first);
        lemma_arranged_is_permutation(tail, newest_first);
        lemma_slot_bounds(backups[0], rest, newest_first);
        let at = slot(backups[0], rest, newest_first) as int;
        vstd::seq_lib::to_multiset_insert(rest, at, backups[0]);
        assert(backups =~= tail.insert(0, backups[0]));
        vstd::seq_lib::to_multiset_insert(tail, 0, backups[0]);
    }
}

/// Arranging puts the backups in order.
pub proof fn lemma_arranged_is_ordered(backups: Seq<BackupInfoView>, newest_first: bool)
    ensures
        is_ordered(arranged(backups, newest_first), newest_first),
    decreases backups.len(),
{
    if backups.len() > 0 {
        let x = backups[0];
        let rest = arranged(backups.drop_first(), newest_first);
        lemma_arranged_is_ordered(backups.drop_first(), newest_first);
        lemma_slot_bounds(x, rest, newest_first);
        let at = slot(x, rest, newest_first) as int;
        let all = rest.insert(at, x);
        assert forall|i: int, j: int| 0 <= i < j < all.len() implies !comes_before(
            all[j],
            all[i],
            newest_first,
        ) by {
            if j < at {
                assert(all[i] == rest[i] && all[j] == rest[j]);
            } else if j == at {
                assert(all[i] == rest[i]);
                assert(comes_before(rest[i], x, newest_first));
            } else if i < at {
                assert(all[i] == rest[i] && all[j] == rest[j - 1]);
            } else if i == at {
                assert(all[j] == rest[j - 1]);
                assert(!comes_before(rest[at], x, newest_first));
                assert(!comes_before(rest[j - 1], rest[at], newest_first) || j - 1 == at);
            } else {
                assert(all[i] == rest[i - 1] && all[j] == rest[j - 1]);
            }
        }
    }
}

/// `backup` is what a listed entry of `entries` stands for.
pub open spec fn stands_for_entry(
    entries: Seq<DirectoryEntry>,
    now: Timestamp,
    backup: BackupInfoView,
) -> bool {
    exists|k: int|
        0 <= k < entries.len() && is_listed(entries[k]) && #[trigger] described(entries[k], now)
            == backup
}

/// Every backup among the entries stands for an entry that is listed,
/// and every listed entry has its backup among them.
pub proof fn lemma_backups_among(entries: Seq<DirectoryEntry>, now: Timestamp)
    ensures
        backups_among(entries, now).len() <= entries.len(),
        forall|i: int|
            0 <= i < backups_among(entries, now).len() ==> stands_for_entry(
                entries,
                now,
                #[trigger] backups_among(entries, now)[i],
            ),
        forall|k: int|
            0 <= k < entries.len() && is_listed(entries[k]) ==> backups_among(
                entries,
                now,
            ).contains(#[trigger] described(entries[k], now)),
    decreases entries.len(),
{
    if entries.len() > 0 {
        let rest = entries.drop_first();
        let found = backups_among(entries, now);
        lemma_backups_among(rest, now);
        assert forall|i: int| 0 <= i < found.len() implies stands_for_entry(
            entries,
            now,
            #[trigger] found[i],
        ) by {
            if is_listed(entries[0]) && i == 0 {
                assert(described(entries[0], now) == found[0]);
            } else {
                let j = if is_listed(entries[0]) {
                    i - 1
                } else {
                    i
                };
                assert(found[i] == backups_among(rest, now)[j]);
                assert(stands_for_entry(rest, now, backups_among(rest, now)[j]));
                let k = choose|k: int|
                    0 <= k < rest.len() && is_listed(rest[k]) && #[trigger] described(
                        rest[k],
                        now,
                    ) == backups_among(rest, now)[j];
                assert(entries[k + 1] == rest[k]);
                assert(described(entries[k + 1], now) == found[i]);
            }
        }
        assert forall|k: int| 0 <= k < entries.len() && is_listed(entries[k]) implies found.contains(
            #[trigger] described(entries[k], now),
        ) by {
            if k == 0 {
                assert(found[0] == described(entries[0], now));
            } else {
                assert(rest[k - 1] == entries[k]);
                let d = described(rest[k - 1], now);
                assert(backups_among(rest, now).contains(d));
                let j = choose|j: int|
                    0 <= j < backups_among(rest, now).len() && backups_among(rest, now)[j] == d;
                if is_listed(entries[0]) {
                    assert(found[j + 1] == d);
                } else {
                    assert(found[j] == d);
                }
            }
        }
    }
}

/// A listing shows the backups among the entries and nothing else, each
/// as often as it occurs, and no backup stands behind an older one.
pub proof fn lemma_listing_is_newest_first(entries: Seq<DirectoryEntry>, now: Timestamp)
    ensures
        ({
            let listing = arranged(backups_among(entries, now), true);
            &&& listing.to_multiset() == backups_among(entries, now).to_multiset()
            &&& forall|i: int, j: int|
                0 <= i < j < listing.len() ==> listing[i].created_unix >= listing[j].created_unix
            &&& forall|i: int|
                0 <= i < listing.len() ==> stands_for_entry(entries, now, #[trigger] listing[i])
        }),
{
    broadcast use vstd::seq_lib::group_to_multiset_ensures;

    let found = backups_among(entries, now);
    let listing = arranged(found, true);
    lemma_arranged_is_permutation(found, true);
    lemma_arranged_is_ordered(found, true);
    lemma_backups_among(entries, now);
    assert forall|i: int, j: int| 0 <= i < j < listing.len() implies listing[i].created_unix
        >= listing[j].created_unix by {
        assert(!comes_before(listing[j], listing[i], true));
    }
    assert forall|i: int| 0 <= i < listing.len() implies stands_for_entry(
        entries,
        now,
        #[trigger] listing[i],
    ) by {
        assert(listing.contains(listing[i]));
        assert(listing.to_multiset().count(listing[i]) > 0);
        assert(found.to_multiset().count(listing[i]) > 0);
        assert(found.contains(listing[i]));
        let j = choose|j: int| 0 <= j < found.len() && found[j] == listing[i];
        assert(stands_for_entry(entries, now, found[j]));
    }
}

/// Only automatic backups are among the automatic ones, and no more than
/// there are backups.
pub proof fn lemma_automatic_among(backups: Seq<BackupInfoView>)
    ensures
        automatic_among(backups).len() <= backups.len(),
        forall|i: int|
            0 <= i < automatic_among(backups).len() ==> (#[trigger] automatic_among(
                backups,
            )[i]).is_automatic,
        forall|b: BackupInfoView|
            automatic_among(backups).contains(b) <==> (backups.contains(b) && b.is_automatic),
    decreases backups.len(),
{
    if backups.len() > 0 {
        let rest = backups.drop_first();
        lemma_automatic_among(rest);
        let autos = automatic_among(backups);
        assert forall|b: BackupInfoView| autos.contains(b) <==> (backups.contains(b)
            && b.is_automatic) by {
            if autos.contains(b) {
                let i = choose|i: int| 0 <= i < autos.len() && autos[i] == b;
                if backups[0].is_automatic {
                    if i > 0 {
                        assert(automatic_among(rest)[i - 1] == b);
                        assert(automatic_among(rest).contains(b));
                    }
                } else {
                    assert(automatic_among(rest).contains(b));
                }
                if rest.contains(b) {
                    let k = choose|k: int| 0 <= k < rest.len() && rest[k] == b;
                    assert(backups[k + 1] == b);
                }
            }
            if backups.contains(b) && b.is_automatic {
                let k = choose|k: int| 0 <= k < backups.len() && backups[k] == b;
                if k == 0 {
                    assert(autos[0] == b);
                } else {
                    assert(rest[k - 1] == b);
                    assert(rest.contains(b));
                    let i = choose|i: int|
                        0 <= i < automatic_among(rest).len() && automatic_among(rest)[i] == b;
                    if backups[0].is_automatic {
                        assert(autos[i + 1] == b);
                    } else {
                        assert(autos[i] == b);
                    }
                }
            }
        }
    }
}

/// What a cleanup removes: automatic backups only, and of them as many
/// as exceed `keep`; each of them is among the backups, and none of them
/// is newer than any automatic backup that stays.
pub proof fn lemma_cleanup_removes_the_oldest(backups: Seq<BackupInfoView>, keep: nat)
    ensures
        cleanup_plan(backups, keep).len() == if automatic_among(backups).len() <= keep {
            0
        } else {
            automatic_among(backups).len() - keep
        },
        forall|i: int|
            0 <= i < cleanup_plan(backups, keep).len() ==> {
                let removed = #[trigger] cleanup_plan(backups, keep)[i];
                removed.is_automatic && backups.contains(removed)
            },
        ({
            let by_age = arranged(automatic_among(backups), false);
            let plan = cleanup_plan(backups, keep);
            &&& by_age.to_multiset() == automatic_among(backups).to_multiset()
            &&& plan == by_age.take(plan.len() as int)
            &&& forall|i: int, j: int|
                0 <= i < plan.len() <= j < by_age.len() ==> plan[i].created_unix
                    <= by_age[j].created_unix
        }),
{
    let autos = automatic_among(backups);
    let by_age = arranged(autos, false);
    let plan = cleanup_plan(backups, keep);
    lemma_automatic_among(backups);
    lemma_arranged_is_permutation(autos, false);
    lemma_arranged_is_ordered(autos, false);
    assert(plan =~= by_age.take(plan.len() as int));
    assert forall|i: int| 0 <= i < plan.len() implies ({
        let removed = #[trigger] plan[i];
        removed.is_automatic && backups.contains(removed)
    }) by {
        broadcast use vstd::seq_lib::group_to_multiset_ensures;

        let removed = plan[i];
        assert(removed == by_age[i]);
        assert(by_age.contains(removed));
        assert(by_age.to_multiset().count(removed) > 0);
        assert(autos.to_multiset().count(removed) > 0);
        assert(autos.contains(removed));
    }
    assert forall|i: int, j: int| 0 <= i < plan.len() <= j < by_age.len() implies plan[i].created_unix
        <= by_age[j].created_unix by {
        assert(plan[i] == by_age[i]);
        assert(!comes_before(by_age[j], by_age[i], false));
    }
}

/// The name of a manual backup is never that of an automatic one, whatever
/// its label: a cleanup passes over it.
pub proof fn lemma_manual_name_is_not_automatic(label: Option<Seq<char>>, compact: Seq<char>)
    ensures
        !is_automatic_name(manual_name(label, compact)),
{
    reveal_strlit("prompalette_backup_");
    reveal_strlit("manual_");
    reveal_strlit("manual_backup_");
    let name = manual_name(label, compact);
    assert(name[0] == 'm');
    if is_automatic_name(name) {
        assert(name.subrange(0, AUTOMATIC_PREFIX@.len() as int)[0] == AUTOMATIC_PREFIX@[0]);
    }
}

/// The name of an automatic backup is recognised as such, and as the name
/// of a database file.
pub proof fn lemma_automatic_name_is_recognised(compact: Seq<char>)
    ensures
        is_automatic_name(automatic_name(compact)),
        is_database_name(automatic_name(compact)),
{
    reveal_strlit("prompalette_backup_");
    reveal_strlit(".db");
    let name = automatic_name(compact);
    assert(name.subrange(0, AUTOMATIC_PREFIX@.len() as int) =~= AUTOMATIC_PREFIX@);
    assert(name.subrange(name.len() - 3, name.len() as int) =~= BACKUP_SUFFIX@);
}

/// The file name of the automatic backup taken at `now`.
pub fn automatic_backup_filename(now: &Timestamp) -> (name: String)
    ensures
        name@ == automatic_name(now.compact_text()),
{
    join3(AUTOMATIC_PREFIX, now.compact(), BACKUP_SUFFIX)
}

/// The file name of the manual backup taken at `now`, with the user's
/// label where there is one.
pub fn manual_backup_filename(label: Option<&str>, now: &Timestamp) -> (name: String)
    ensures
        name@ == manual_name(
            match label {
                Some(l) => Some(l@),
                None => None,
            },
            now.compact_text(),
        ),
{
    match label {
        Some(l) => {
            let mut name = join3(MANUAL_PREFIX, l, "_");
            name.append(now.compact());
            name.append(BACKUP_SUFFIX);
            name
        },
        None => join3("manual_backup_", now.compact(), BACKUP_SUFFIX),
    }
}

/// Whether `name` has the extension `db`.
pub fn has_database_extension(name: &str) -> (b: bool)
    ensures
        b == is_database_name(name@),
{
    name.unicode_len() > 3 && ends_with(name, BACKUP_SUFFIX)
}

/// Whether `name` is the file name of an automatic backup.
pub fn is_automatic_backup(name: &str) -> (b: bool)
    ensures
        b == is_automatic_name(name@),
{
    starts_with(name, AUTOMATIC_PREFIX)
}

/// The backup that a listed entry stands for.
fn describe(entry: DirectoryEntry, now: &Timestamp) -> (info: BackupInfo)
    requires
        is_listed(entry),
    ensures
        info@ == described(entry, *now),
{
    let DirectoryEntry { filename, full_path, is_file: _, details } = entry;
    let details = details.unwrap();
    let rendered = match details.created_unix {
        Some(secs) => match render_rfc3339(secs, 0) {
            Some(text) => Some((text, secs)),
            None => None,
        },
        None => None,
    };
    let (created_at, created_unix) = match rendered {
        Some(pair) => pair,
        None => (String::from_str(now.rfc3339()), now.seconds()),
    };
    let is_automatic = is_automatic_backup(filename.as_str());
    BackupInfo {
        filename,
        full_path,
        created_at,
        created_unix,
        size_bytes: details.size_bytes,
        is_automatic,
    }
}

/// Puts `x` in its place among the ordered backups `ordered`.
fn insert_in_order(ordered: &mut Vec<BackupInfo>, x: BackupInfo, newest_first: bool)
    ensures
        final(ordered).deep_view() == old(ordered).deep_view().insert(
            slot(x@, old(ordered).deep_view(), newest_first) as int,
            x@,
        ),
{
    let ghost before = ordered.deep_view();
    let mut i: usize = 0;
    let mut found = false;
    assert(before.skip(0) =~= before);
    while i < ordered.len() && !found
        invariant
            i <= ordered.len(),
            ordered.deep_view() == before,
            slot(x@, before, newest_first) == i + (if found {
                0
            } else {
                slot(x@, before.skip(i as int), newest_first)
            }),
        decreases ordered.len() - i + (if found { 0int } else { 1int }),
    {
        let precedes = if newest_first {
            ordered[i].created_unix > x.created_unix
        } else {
            ordered[i].created_unix < x.created_unix
        };
        proof {
            let tail = before.skip(i as int);
            assert(tail[0] == before[i as int]);
            assert(before[i as int] == ordered@[i as int]@);
            assert(tail.drop_first() =~= before.skip(i + 1));
        }
        if precedes {
            i += 1;
        } else {
            found = true;
        }
    }
    ordered.insert(i, x);
    assert(ordered.deep_view() =~= before.insert(i as int, x@));
}

/// What reading the backup directory gave.
#[derive(Debug, Clone)]
pub enum ListingOutcome {
    /// The data directory is not known, for this reason.
    DataDirectoryUnknown(String),
    /// There is no backup directory.
    NoDirectory,
    /// The backup directory could not be read, for this reason.
    Unreadable(String),
    /// The backup directory holds these entries.
    Entries(Vec<DirectoryEntry>),
}

/// The backups among the entries of the backup directory, newest first.
/// An entry counts where it is a file with the extension `db` whose
/// details could be read; a backup is automatic where its name begins
/// with the automatic prefix. `now` is the time of the listing: it stands
/// in for a creation time that is not known.
pub fn backups_in(entries: Vec<DirectoryEntry>, now: &Timestamp) -> (backups: Vec<BackupInfo>)
    ensures
        backups.deep_view() == arranged(backups_among(entries@, *now), true),
{
    let ghost all = entries@;
    let mut entries = entries;
    let mut backups: Vec<BackupInfo> = Vec::new();
    assert(all.skip(all.len() as int) =~= Seq::<DirectoryEntry>::empty());
    assert(backups.deep_view() =~= Seq::<BackupInfoView>::empty());
    while entries.len() > 0
        invariant
            entries@ == all.take(entries.len() as int),
            entries.len() <= all.len(),
            backups.deep_view() == arranged(
                backups_among(all.skip(entries.len() as int), *now),
                true,
            ),
        decreases entries.len(),
    {
        let ghost k = entries.len() as int;
        let entry = entries.pop().unwrap();
        proof {
            let tail = all.skip(k - 1);
            assert(tail[0] == entry);
            assert(tail.drop_first() =~= all.skip(k));
            assert(entries@ =~= all.take(k - 1));
        }
        if entry.is_file && has_database_extension(entry.filename.as_str())
            && entry.details.is_some() {
            let info = describe(entry, now);
            proof {
                let found = seq![info@] + backups_among(all.skip(k), *now);
                assert(found[0] == info@);
                assert(found.drop_first() =~= backups_among(all.skip(k), *now));
            }
            insert_in_order(&mut backups, info, true);
        }
    }
    assert(all.skip(0) =~= all);
    backups
}

/// Lists the backups, newest first. A backup directory that does not
/// exist or is empty gives an empty list; one that cannot be read is an
/// error, and so is a data directory that is not known.
pub fn list_backups(outcome: ListingOutcome, now: &Timestamp) -> (r: Result<Vec<BackupInfo>, String>)
    ensures
        match outcome {
            ListingOutcome::DataDirectoryUnknown(reason) => r matches Err(e) && e@ == reason@,
            ListingOutcome::NoDirectory => r matches Ok(backups) && backups@.len() == 0,
            ListingOutcome::Unreadable(reason) => r matches Err(e) && e@
                == "Failed to read backup directory: "@ + reason@,
            ListingOutcome::Entries(entries) => r matches Ok(backups) && backups.deep_view()
                == arranged(backups_among(entries@, *now), true),
        },
{
    match outcome {
        ListingOutcome::DataDirectoryUnknown(reason) => Err(reason),
        ListingOutcome::NoDirectory => Ok(Vec::new()),
        ListingOutcome::Unreadable(reason) => Err(
            join("Failed to read backup directory: ", reason.as_str()),
        ),
        ListingOutcome::Entries(entries) => Ok(backups_in(entries, now)),
    }
}

/// The backups that a cleanup removes, oldest first: the automatic ones
/// but for the `keep_count` newest, ten where no count is given. Manual
/// backups are never among them. Where no more automatic backups exist
/// than are to be kept, nothing is removed.
pub fn cleanup_old_backups(
    backups: Vec<BackupInfo>,
    keep_count: Option<u32>,
) -> (doomed: Vec<BackupInfo>)
    ensures
        doomed.deep_view() == cleanup_plan(
            backups.deep_view(),
            match keep_count {
                Some(n) => n as nat,
                None => DEFAULT_KEEP_COUNT as nat,
            },
        ),
{
    let keep: u32 = match keep_count {
        Some(n) => n,
        None => DEFAULT_KEEP_COUNT,
    };
    let ghost all = backups.deep_view();
    let mut backups = backups;
    let mut by_age: Vec<BackupInfo> = Vec::new();
    assert(all.skip(all.len() as int) =~= Seq::<BackupInfoView>::empty());
    assert(by_age.deep_view() =~= Seq::<BackupInfoView>::empty());
    while backups.len() > 0
        invariant
            backups.deep_view() == all.take(backups.len() as int),
            backups.len() <= all.len(),
            by_age.deep_view() == arranged(
                automatic_among(all.skip(backups.len() as int)),
                false,
            ),
        decreases backups.len(),
    {
        let ghost k = backups.len() as int;
        let ghost held = backups.deep_view();
        let backup = backups.pop().unwrap();
        proof {
            let tail = all.skip(k - 1);
            assert(held[k - 1] == backup@);
            assert(tail[0] == backup@);
            assert(tail.drop_first() =~= all.skip(k));
            assert(backups.deep_view() =~= all.take(k - 1));
        }
        if backup.is_automatic {
            proof {
                let found = seq![backup@] + automatic_among(all.skip(k));
                assert(found[0] == backup@);
                assert(found.drop_first() =~= automatic_among(all.skip(k)));
            }
            insert_in_order(&mut by_age, backup, false);
        }
    }
    assert(all.skip(0) =~= all);
    let count = by_age.len();
    let keep_len: usize = if keep as u64 > usize::MAX as u64 {
        usize::MAX
    } else {
        keep as usize
    };
    if count <= keep_len {
        by_age.truncate(0);
        assert(by_age.deep_view() =~= Seq::<BackupInfoView>::empty());
    } else {
        let ghost full = by_age.deep_view();
        by_age.truncate(count - keep_len);
        assert(by_age.deep_view() =~= full.take(count - keep_len));
    }
    by_age
}

/// How many removals succeeded. A removal that failed is passed over.
pub fn count_removed(outcomes: &Vec<bool>) -> (n: usize)
    ensures
        n == count_true(outcomes@),
{
    let mut n: usize = 0;
    let mut i: usize = 0;
    while i < outcomes.len()
        invariant
            i <= outcomes.len(),
            n <= i,
            n == count_true(outcomes@.take(i as int)),
        decreases outcomes.len() - i,
    {
        proof {
            let next = outcomes@.take(i + 1);
            assert(next.drop_last() =~= outcomes@.take(i as int));
            assert(next.last() == outcomes@[i as int]);
        }
        if outcomes[i] {
            n += 1;
        }
        i += 1;
    }
    assert(outcomes@.take(outcomes.len() as int) =~= outcomes@);
    n
}

/// What the file system did when a backup was to be written.
#[derive(Debug, Clone)]
pub enum BackupOutcome {
    /// The data directory is not known, for this reason.
    DataDirectoryUnknown(String),
    /// The backup directory could not be made, for this reason.
    DirectoryFailed(String),
    /// The data store could not be copied, for this reason.
    CopyFailed(String),
    /// The data store was copied to this path.
    Copied(String),
}

/// The result that shows a copy's outcome; `None` where it came to no
/// copy.
pub open spec fn copy_result(outcome: BackupOutcome, finished: Timestamp) -> Option<
    BackupResultView,
> {
    match outcome {
        BackupOutcome::Copied(path) => Some(
            BackupResultView {
                success: true,
                backup_path: Some(path@),
                timestamp: finished.rfc3339_text(),
                error: None,
            },
        ),
        BackupOutcome::CopyFailed(reason) => Some(
            BackupResultView {
                success: false,
                backup_path: None,
                timestamp: finished.rfc3339_text(),
                error: Some("Failed to copy database: "@ + reason@),
            },
        ),
        _ => None,
    }
}

/// Reports an automatic backup. A copy that failed is a result without
/// success that carries the reason, not an error: the caller decides what
/// follows. Not to know the data directory, or not to be able to make the
/// backup directory, is an error. `finished` is the time of the report.
pub fn create_backup(
    outcome: BackupOutcome,
    finished: &Timestamp,
) -> (r: Result<BackupResult, UpdateError>)
    ensures
        match outcome {
            BackupOutcome::DataDirectoryUnknown(reason) => r matches Err(e) && e.is(
                UpdateErrorKind::BackupFailed,
                "Failed to get data directory: "@ + reason@,
            ),
            BackupOutcome::DirectoryFailed(reason) => r matches Err(e) && e.is(
                UpdateErrorKind::BackupFailed,
                "Failed to create backup directory: "@ + reason@,
            ),
            _ => r matches Ok(result) && Some(result@) == copy_result(outcome, *finished),
        },
{
    match outcome {
        BackupOutcome::DataDirectoryUnknown(reason) => Err(
            UpdateError::BackupFailed(join("Failed to get data directory: ", reason.as_str())),
        ),
        BackupOutcome::DirectoryFailed(reason) => Err(
            UpdateError::BackupFailed(
                join("Failed to create backup directory: ", reason.as_str()),
            ),
        ),
        BackupOutcome::CopyFailed(reason) => Ok(
            BackupResult {
                success: false,
                backup_path: None,
                timestamp: String::from_str(finished.rfc3339()),
                error: Some(join("Failed to copy database: ", reason.as_str())),
            },
        ),
        BackupOutcome::Copied(path) => Ok(
            BackupResult {
                success: true,
                backup_path: Some(path),
                timestamp: String::from_str(finished.rfc3339()),
                error: None,
            },
        ),
    }
}

/// Reports a manual backup. Only not to know the data directory is an
/// error, with the reason as it came; a backup directory that could not
/// be made and a copy that failed are results without success.
pub fn create_manual_backup(
    outcome: BackupOutcome,
    finished: &Timestamp,
) -> (r: Result<BackupResult, String>)
    ensures
        match outcome {
            BackupOutcome::DataDirectoryUnknown(reason) => r matches Err(e) && e@ == reason@,
            BackupOutcome::DirectoryFailed(reason) => r matches Ok(result) && result@
                == (BackupResultView {
                success: false,
                backup_path: None,
                timestamp: finished.rfc3339_text(),
                error: Some("Failed to create backup directory: "@ + reason@),
            }),
            _ => r matches Ok(result) && Some(result@) == copy_result(outcome, *finished),
        },
{
    match outcome {
        BackupOutcome::DataDirectoryUnknown(reason) => Err(reason),
        BackupOutcome::DirectoryFailed(reason) => Ok(
            BackupResult {
                success: false,
                backup_path: None,
                timestamp: String::from_str(finished.rfc3339()),
                error: Some(join("Failed to create backup directory: ", reason.as_str())),
            },
        ),
        BackupOutcome::CopyFailed(reason) => Ok(
            BackupResult {
                success: false,
                backup_path: None,
                timestamp: String::from_str(finished.rfc3339()),
                error: Some(join("Failed to copy database: ", reason.as_str())),
            },
        ),
        BackupOutcome::Copied(path) => Ok(
            BackupResult {
                success: true,
                backup_path: Some(path),
                timestamp: String::from_str(finished.rfc3339()),
                error: None,
            },
        ),
    }
}

/// What the file system did when a file was to be removed or copied.
#[derive(Debug, Clone)]
pub enum FileOutcome {
    /// The data directory is not known, for this reason.
    DataDirectoryUnknown(String),
    /// The backup file does not exist.
    Missing,
    /// The operation failed, for this reason.
    Failed(String),
    /// The operation was carried out.
    Done,
}

/// Decides whether the backup named `filename` may be removed. The name
/// is resolved below the backup directory as `platform` reads paths; where
/// it would leave the directory, the answer is an error and there is
/// nothing to remove. Otherwise the answer holds the components of the
/// file's path below the backup directory. Every plain file name is
/// accepted.
pub fn delete_backup(filename: &str, platform: Platform) -> (r: Result<Vec<String>, String>)
    ensures
        r is Ok <==> stays_inside(filename@, platform),
        r matches Ok(path) ==> Some(path.deep_view()) == resolved(filename@, platform),
        r matches Err(e) ==> e@ == "Invalid backup file path"@,
{
    match resolve_inside(filename, platform) {
        Some(path) => Ok(path),
        None => Err(String::from_str("Invalid backup file path")),
    }
}

/// Reports the removal of a backup: a missing file is an error, not a
/// success.
pub fn backup_deleted(outcome: FileOutcome) -> (r: Result<bool, String>)
    ensures
        match outcome {
            FileOutcome::DataDirectoryUnknown(reason) => r matches Err(e) && e@ == reason@,
            FileOutcome::Missing => r matches Err(e) && e@ == "Backup file does not exist"@,
            FileOutcome::Failed(reason) => r matches Err(e) && e@ == "Failed to delete backup: "@
                + reason@,
            FileOutcome::Done => r matches Ok(done) && done,
        },
{
    match outcome {
        FileOutcome::DataDirectoryUnknown(reason) => Err(reason),
        FileOutcome::Missing => Err(String::from_str("Backup file does not exist")),
        FileOutcome::Failed(reason) => Err(join("Failed to delete backup: ", reason.as_str())),
        FileOutcome::Done => Ok(true),
    }
}

/// Reports the restoring of the data store from a backup: a missing
/// backup is an error, and so is a copy that failed.
pub fn restore_from_backup(outcome: FileOutcome) -> (r: Result<bool, String>)
    ensures
        match outcome {
            FileOutcome::DataDirectoryUnknown(reason) => r matches Err(e) && e@ == reason@,
            FileOutcome::Missing => r matches Err(e) && e@ == "Backup file does not exist"@,
            FileOutcome::Failed(reason) => r matches Err(e) && e@
                == "Failed to restore database: "@ + reason@,
            FileOutcome::Done => r matches Ok(done) && done,
        },
{
    match outcome {
        FileOutcome::DataDirectoryUnknown(reason) => Err(reason),
        FileOutcome::Missing => Err(String::from_str("Backup file does not exist")),
        FileOutcome::Failed(reason) => Err(join("Failed to restore database: ", reason.as_str())),
        FileOutcome::Done => Ok(true),
    }
}

} // verus!
