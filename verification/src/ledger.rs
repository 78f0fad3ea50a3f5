//! The ledger: the durable list of installed addons, one record per id.

use crate::config::{dir_view, store_file, store_path};
use crate::locations::data_local_dir;
use crate::model::{InstalledAddon, InstalledAddonView};
use crate::text::views;
use vstd::prelude::*;

verus! {

/// The views of a sequence of records.
pub open spec fn records(addons: Seq<InstalledAddon>) -> Seq<InstalledAddonView> {
    addons.map_values(|a: InstalledAddon| a@)
}

/// The test that a record belongs to another addon than `id`.
pub open spec fn other_than(id: Seq<char>) -> spec_fn(InstalledAddonView) -> bool {
    |a: InstalledAddonView| a.id != id
}

/// The test that a record belongs to the addon `id`.
pub open spec fn same_as(id: Seq<char>) -> spec_fn(InstalledAddonView) -> bool {
    |a: InstalledAddonView| a.id == id
}

/// The ledger without any record of `id`; the other records keep their order.
pub open spec fn without(ledger: Seq<InstalledAddonView>, id: Seq<char>) -> Seq<InstalledAddonView> {
    ledger.filter(other_than(id))
}

/// The ledger after `record` took the place of every record with its id:
/// those are removed and `record` is appended.
pub open spec fn replaced(
    ledger: Seq<InstalledAddonView>,
    record: InstalledAddonView,
) -> Seq<InstalledAddonView> {
    without(ledger, record.id).push(record)
}

/// How many records the ledger holds for `id`.
pub open spec fn count(ledger: Seq<InstalledAddonView>, id: Seq<char>) -> nat {
    ledger.filter(same_as(id)).len()
}

/// No two records of the ledger share an id.
pub open spec fn unique_ids(ledger: Seq<InstalledAddonView>) -> bool {
    forall|i: int, j: int|
        0 <= i < j < ledger.len() ==> (#[trigger] ledger[i]).id != (#[trigger] ledger[j]).id
}

/// The installed addons, in the order in which they were recorded.
#[derive(Debug, Clone)]
pub struct InstalledAddons {
    pub addons: Vec<InstalledAddon>,
}

impl View for InstalledAddons {
    type V = Seq<InstalledAddonView>;

    open spec fn view(&self) -> Seq<InstalledAddonView> {
        records(self.addons@)
    }
}

impl InstalledAddons {
    /// The empty ledger.
    pub fn new() -> (ledger: InstalledAddons)
        ensures
            ledger@ == Seq::<InstalledAddonView>::empty(),
    {
        InstalledAddons { addons: Vec::new() }
    }

    /// Removes every record of `id`. A ledger without such a record is left
    /// as it is.
    pub fn remove(&mut self, id: &str)
        ensures
            final(self)@ == without(old(self)@, id@),
    {
        let key = String::from_str(id);
        let mut kept: Vec<InstalledAddon> = Vec::new();
        let mut i: usize = 0;
        assert(self@.take(0) == Seq::<InstalledAddonView>::empty());
        proof {
            reveal(Seq::filter);
        }
        while i < self.addons.len()
            invariant
                i <= self.addons.len(),
                key@ == id@,
                records(kept@) == without(self@.take(i as int), id@),
            decreases self.addons.len() - i,
        {
            let ghost before = kept@;
            proof {
                assert(self@.take(i + 1) == self@.take(i as int).push(self@[i as int]));
                self@.take(i as int).lemma_filter_push(self@[i as int], other_than(id@));
            }
            if self.addons[i].id != key {
                let copy = self.addons[i].duplicate();
                kept.push(copy);
                assert(records(kept@) == records(before).push(copy@));
            }
            i += 1;
        }
        assert(self@.take(self.addons.len() as int) == self@);
        self.addons = kept;
    }

    /// Records an install: removes every record with the id of `record`, then
    /// appends `record`.
    pub fn replace(&mut self, record: InstalledAddon)
        ensures
            final(self)@ == replaced(old(self)@, record@),
    {
        self.remove(record.id.as_str());
        let ghost before = self.addons@;
        self.addons.push(record);
        assert(records(self.addons@) == records(before).push(record@));
    }
}

/// Filtering twice by one test is filtering once.
proof fn lemma_filter_twice(ledger: Seq<InstalledAddonView>, test: spec_fn(InstalledAddonView) -> bool)
    ensures
        ledger.filter(test).filter(test) == ledger.filter(test),
    decreases ledger.len(),
{
    reveal(Seq::filter);
    if ledger.len() > 0 {
        lemma_filter_twice(ledger.drop_last(), test);
        if test(ledger.last()) {
            ledger.drop_last().filter(test).lemma_filter_push(ledger.last(), test);
        }
    }
}

/// After the records of `id` are removed, none is left.
pub proof fn lemma_removed_id_is_absent(ledger: Seq<InstalledAddonView>, id: Seq<char>)
    ensures
        count(without(ledger, id), id) == 0,
        forall|i: int| 0 <= i < without(ledger, id).len() ==> (#[trigger] without(ledger, id)[i]).id != id,
    decreases ledger.len(),
{
    reveal(Seq::filter);
    if ledger.len() > 0 {
        lemma_removed_id_is_absent(ledger.drop_last(), id);
        if ledger.last().id != id {
            without(ledger.drop_last(), id).lemma_filter_push(ledger.last(), same_as(id));
        }
    }
}

/// Removing the records of `id` leaves the records of every other addon as
/// they were, in their order.
pub proof fn lemma_remove_leaves_others(ledger: Seq<InstalledAddonView>, id: Seq<char>, other: Seq<char>)
    requires
        other != id,
    ensures
        without(ledger, id).filter(same_as(other)) == ledger.filter(same_as(other)),
    decreases ledger.len(),
{
    reveal(Seq::filter);
    if ledger.len() > 0 {
        lemma_remove_leaves_others(ledger.drop_last(), id, other);
        if ledger.last().id != id {
            without(ledger.drop_last(), id).lemma_filter_push(ledger.last(), same_as(other));
        }
    }
}

/// Removing records never introduces a duplicate id.
pub proof fn lemma_remove_keeps_ids_unique(ledger: Seq<InstalledAddonView>, id: Seq<char>)
    requires
        unique_ids(ledger),
    ensures
        unique_ids(without(ledger, id)),
    decreases ledger.len(),
{
    reveal(Seq::filter);
    if ledger.len() > 0 {
        let front = ledger.drop_last();
        assert(unique_ids(front)) by {
            assert forall|i: int, j: int| 0 <= i < j < front.len() implies (#[trigger] front[i]).id != (
            #[trigger] front[j]).id by {
                assert(front[i] == ledger[i] && front[j] == ledger[j]);
            }
        }
        lemma_remove_keeps_ids_unique(front, id);
        if ledger.last().id != id {
            let kept = without(front, id);
            assert forall|i: int| 0 <= i < kept.len() implies (#[trigger] kept[i]).id
                != ledger.last().id by {
                assert(kept.contains(kept[i]));
                front.lemma_filter_contains_rev(other_than(id), kept[i]);
                let k = choose|k: int| 0 <= k < front.len() && front[k] == kept[i];
                assert(ledger[k] == front[k]);
                assert(ledger[k].id != ledger[ledger.len() - 1].id);
            }
        }
    }
}

/// Recording an install leaves exactly one record of the addon, the new one,
/// and a ledger without duplicate ids stays without them.
pub proof fn lemma_replace_records_once(ledger: Seq<InstalledAddonView>, record: InstalledAddonView)
    ensures
        count(replaced(ledger, record), record.id) == 1,
        replaced(ledger, record).last() == record,
        unique_ids(ledger) ==> unique_ids(replaced(ledger, record)),
{
    let rest = without(ledger, record.id);
    lemma_removed_id_is_absent(ledger, record.id);
    rest.lemma_filter_push(record, same_as(record.id));
    if unique_ids(ledger) {
        lemma_remove_keeps_ids_unique(ledger, record.id);
    }
}

/// Idempotence of installs: recording two installs of one addon in
/// succession gives the ledger that the second install alone gives. It holds
/// exactly one record of the addon, with the version and time of the second.
pub proof fn lemma_reinstall_supersedes(
    ledger: Seq<InstalledAddonView>,
    first: InstalledAddonView,
    second: InstalledAddonView,
)
    requires
        first.id == second.id,
    ensures
        replaced(replaced(ledger, first), second) == replaced(ledger, second),
        count(replaced(replaced(ledger, first), second), second.id) == 1,
        replaced(replaced(ledger, first), second).last() == second,
{
    let id = second.id;
    without(ledger, id).lemma_filter_push(first, other_than(id));
    lemma_filter_twice(ledger, other_than(id));
    lemma_replace_records_once(ledger, second);
}

/// What a read of the ledger file comes to: the decoded records, or none
/// where the file is missing, unreadable or malformed.
pub open spec fn loaded(decoded: Option<InstalledAddons>) -> Seq<InstalledAddonView> {
    match decoded {
        Some(found) => found@,
        None => Seq::empty(),
    }
}

/// The ledger that a read of its file gives: what was decoded, or the empty
/// ledger where the file is missing, unreadable or malformed. A failed read
/// is never an error.
pub fn load_installed(decoded: Option<InstalledAddons>) -> (ledger: InstalledAddons)
    ensures
        ledger@ == loaded(decoded),
{
    match decoded {
        Some(found) => found,
        None => InstalledAddons::new(),
    }
}

/// The installed addons as the ledger file gives them; see [`load_installed`].
pub fn get_installed_addons(decoded: Option<InstalledAddons>) -> (addons: Vec<InstalledAddon>)
    ensures
        records(addons@) == loaded(decoded),
{
    load_installed(decoded).addons
}

/// The path of the ledger file, as the components to join: `installed.json`
/// in the manager's directory below the application-data directory that the
/// platform gives at the time of the call.
pub fn get_installed_file_path() -> (path: Vec<String>)
    ensures
        exists|data_dir: Option<Seq<char>>|
            views(path@) == #[trigger] store_path(data_dir, "installed.json"@),
{
    let data_dir = data_local_dir();
    let path = store_file(data_dir, "installed.json");
    assert(views(path@) == store_path(dir_view(data_dir), "installed.json"@));
    path
}

} // verus!
