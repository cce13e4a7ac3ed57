//! Data model of the list model that presents the files of one library
//! folder and of its subdirectories as one flat list of public items.
//!
//! Listings and items are identified by numeric handles that the caller
//! hands out; what the caller reads from a listing (its number of entries,
//! the entry at a position) is handed in as plain values.

use vstd::prelude::*;
use crate::util::listing::{FileType, ItemsChanged};
use crate::util::seq::{spliced, spliced_seq};

verus! {

/// Listing of one subdirectory of the library folder.
#[derive(Debug, Clone, Copy, PartialEq, Eq, Structural)]
pub struct SubdirectoryListModel {
    /// Handle of the directory listing.
    pub model: u64,
    /// Handle of the folder that the listing enumerates.
    pub file: u64,
}

/// List model over the library folder and its subdirectories.
#[derive(Debug)]
pub struct AlbumsLibraryListModel {
    /// One listing per subdirectory found in the library folder.
    pub subdir_models: Vec<SubdirectoryListModel>,
    /// Set once every listing has finished loading.
    pub models_loaded: bool,
    /// Number of listings that reported that they finished loading.
    pub loading_notifies: u32,
    /// Handles of the items presented by the list model, in order.
    pub public_items: Vec<u64>,
}

/// What became of an entry that the root listing reported as new.
#[derive(Debug, Clone, Copy, PartialEq, Eq, Structural)]
pub enum EnumeratedItem {
    /// The entry is a directory: a listing must be created for it.
    Subdirectory,
    /// The entry is a regular file; this change is to be reported.
    Updated(Option<ItemsChanged>),
    /// The entry is neither a directory nor a regular file.
    Ignored,
}

/// Sum of the first `j` counts.
pub open spec fn count_prefix_sum(counts: Seq<u32>, j: int) -> int
    decreases j,
{
    if j <= 0 || j > counts.len() {
        0
    } else {
        count_prefix_sum(counts, j - 1) + counts[j - 1]
    }
}

/// Index of the first listing at or after `from` whose folder is `file`,
/// or the number of listings when there is none.
pub open spec fn first_file_index(subs: Seq<SubdirectoryListModel>, file: u64, from: int) -> int
    decreases subs.len() - from,
{
    if from < 0 || from >= subs.len() {
        subs.len() as int
    } else if subs[from].file == file {
        from
    } else {
        first_file_index(subs, file, from + 1)
    }
}

pub proof fn lemma_count_prefix_sum_monotonic(counts: Seq<u32>, a: int, b: int)
    requires
        0 <= a <= b <= counts.len(),
    ensures
        0 <= count_prefix_sum(counts, a) <= count_prefix_sum(counts, b),
    decreases b - a,
{
    if a < b {
        lemma_count_prefix_sum_monotonic(counts, a, b - 1);
    } else {
        lemma_count_prefix_sum_nonnegative(counts, a);
    }
}

pub proof fn lemma_count_prefix_sum_nonnegative(counts: Seq<u32>, j: int)
    ensures
        0 <= count_prefix_sum(counts, j),
    decreases j,
{
    if j > 0 && j <= counts.len() {
        lemma_count_prefix_sum_nonnegative(counts, j - 1);
    }
}

pub proof fn lemma_first_file_index_bounds(subs: Seq<SubdirectoryListModel>, file: u64, from: int)
    requires
        0 <= from <= subs.len(),
    ensures
        from <= first_file_index(subs, file, from) <= subs.len(),
    decreases subs.len() - from,
{
    if from < subs.len() && subs[from].file != file {
        lemma_first_file_index_bounds(subs, file, from + 1);
    }
}

/// The first `j` counts of `counts` add up to `count_prefix_sum(counts, j)`.
pub proof fn lemma_count_prefix_sum_is_sum(counts: Seq<u32>, j: int)
    requires
        0 <= j <= counts.len(),
    ensures
        count_prefix_sum(counts, j) == counts.take(j).fold_left(0int, |acc: int, c: u32| acc + c),
    decreases j,
{
    if j > 0 {
        lemma_count_prefix_sum_is_sum(counts, j - 1);
        assert(counts.take(j).drop_last() =~= counts.take(j - 1));
        assert(counts.take(j).last() == counts[j - 1]);
    }
}

impl AlbumsLibraryListModel {
    /// An empty model, not loaded, with no subdirectory listings.
    pub fn new() -> (m: Self)
        ensures
            m.subdir_models@.len() == 0,
            !m.models_loaded,
            m.loading_notifies == 0,
            m.public_items@.len() == 0,
    {
        AlbumsLibraryListModel {
            subdir_models: Vec::new(),
            models_loaded: false,
            loading_notifies: 0,
            public_items: Vec::new(),
        }
    }

    /// The public item at `position`, if there is one.
    pub fn item(&self, position: u32) -> (r: Option<u64>)
        ensures
            r == (if position < self.public_items@.len() {
                Some(self.public_items@[position as int])
            } else {
                None::<u64>
            }),
    {
        let idx: usize = position as usize;
        if idx < self.public_items.len() {
            Some(self.public_items[idx])
        } else {
            None
        }
    }

    /// Number of public items.
    pub fn n_items(&self) -> (n: u32)
        requires
            self.public_items@.len() <= u32::MAX,
        ensures
            n == self.public_items@.len(),
    {
        self.public_items.len() as u32
    }

    /// Records that a listing changed its loading state. A listing that is
    /// no longer loading counts as finished; the model is marked as loaded
    /// when one finishes while as many had finished before as there are
    /// subdirectory listings (the root listing is the one more).
    pub fn register_subdir_loading_notify(&mut self, is_loading: bool)
        requires
            !is_loading ==> old(self).loading_notifies + 1 <= u32::MAX,
        ensures
            final(self).loading_notifies == (if is_loading {
                old(self).loading_notifies as int
            } else {
                old(self).loading_notifies + 1
            }),
            final(self).models_loaded == (old(self).models_loaded || (!is_loading
                && old(self).loading_notifies == (old(self).subdir_models@.len() as u32))),
            final(self).subdir_models@ == old(self).subdir_models@,
            final(self).public_items@ == old(self).public_items@,
    {
        let notifies: u32 = self.loading_notifies;
        if !is_loading {
            self.loading_notifies = notifies + 1;
            if notifies == self.subdir_models.len() as u32 {
                self.models_loaded = true;
            }
        }
    }

    /// Records a new listing, with handle `model`, for the subdirectory `file`.
    pub fn create_new_subdirectory_model(&mut self, model: u64, file: u64)
        ensures
            final(self).subdir_models@ == old(self).subdir_models@.push(SubdirectoryListModel { model, file }),
            final(self).models_loaded == old(self).models_loaded,
            final(self).loading_notifies == old(self).loading_notifies,
            final(self).public_items@ == old(self).public_items@,
    {
        self.subdir_models.push(SubdirectoryListModel { model, file });
    }

    /// Where the items of a change reported by the listing whose folder is
    /// `model_file` go in the public items: at `pos` when the root listing
    /// holds an entry at `pos`; otherwise at `pos` past the entries of the
    /// root listing and of the subdirectory listings before the first one
    /// with that folder; `None` when no subdirectory listing has it.
    pub open spec fn change_position(
        &self,
        model_file: u64,
        pos: u32,
        root_has_entry: bool,
        root_n_items: u32,
        subdir_n_items: Seq<u32>,
    ) -> Option<int> {
        let j = first_file_index(self.subdir_models@, model_file, 0);
        if root_has_entry {
            Some(pos as int)
        } else if j < self.subdir_models@.len() {
            Some(root_n_items + count_prefix_sum(subdir_n_items, j) + pos)
        } else {
            None
        }
    }

    /// Updates the public items after the listing whose folder is
    /// `model_file` reported that at `pos` `removed` entries went away and
    /// `added` came in; `added_items` are the entries it now holds at
    /// `pos..pos + added`, in its order.
    ///
    /// `root_has_entry` tells whether the root listing holds an entry at
    /// `pos`, and `root_n_items` and `subdir_n_items` are the numbers of
    /// entries of the root listing and of each subdirectory listing. At the
    /// change's place in the public items (see `change_position`), the
    /// `removed` items there are replaced by `added_items`, and the change
    /// is returned as reported there; with no place, nothing changes and
    /// `None` is returned.
    pub fn update_public_items(
        &mut self,
        model_file: u64,
        pos: u32,
        removed: u32,
        added: u32,
        added_items: &Vec<u64>,
        root_has_entry: bool,
        root_n_items: u32,
        subdir_n_items: &Vec<u32>,
    ) -> (r: Option<ItemsChanged>)
        requires
            subdir_n_items@.len() == old(self).subdir_models@.len(),
            added_items@.len() == added,
            old(self).change_position(model_file, pos, root_has_entry, root_n_items, subdir_n_items@) matches Some(at)
                ==> at + removed <= old(self).public_items@.len() && at <= u32::MAX,
            !root_has_entry ==> root_n_items + count_prefix_sum(
                subdir_n_items@,
                first_file_index(old(self).subdir_models@, model_file, 0),
            ) <= u32::MAX,
        ensures
            match old(self).change_position(model_file, pos, root_has_entry, root_n_items, subdir_n_items@) {
                Some(at) => {
                    &&& r == Some(ItemsChanged { position: at as u32, removed, added })
                    &&& final(self).public_items@ == spliced_seq(old(self).public_items@, at, removed as int, added_items@)
                },
                None => {
                    &&& r is None
                    &&& final(self).public_items@ == old(self).public_items@
                },
            },
            final(self).subdir_models@ == old(self).subdir_models@,
            final(self).models_loaded == old(self).models_loaded,
            final(self).loading_notifies == old(self).loading_notifies,
    {
        if root_has_entry {
            let result = spliced(&self.public_items, pos as usize, removed as usize, added_items);
            self.public_items = result;
            return Some(ItemsChanged { position: pos, removed, added });
        }
        let ghost subs = self.subdir_models@;
        let mut private_index_offset: u32 = root_n_items;
        let n: usize = self.subdir_models.len();
        let mut j: usize = 0;
        proof {
            lemma_first_file_index_bounds(subs, model_file, 0);
            lemma_count_prefix_sum_monotonic(subdir_n_items@, 0, first_file_index(subs, model_file, 0));
        }
        while j < n
            invariant
                n == subs.len(),
                subdir_n_items@.len() == n,
                0 <= j <= n,
                !root_has_entry,
                self.subdir_models@ == subs,
                subs == old(self).subdir_models@,
                self.public_items@ == old(self).public_items@,
                first_file_index(subs, model_file, 0) == first_file_index(subs, model_file, j as int),
                j <= first_file_index(subs, model_file, 0) <= n,
                private_index_offset == root_n_items + count_prefix_sum(subdir_n_items@, j as int),
                root_n_items + count_prefix_sum(subdir_n_items@, first_file_index(subs, model_file, 0)) <= u32::MAX,
                old(self).change_position(model_file, pos, root_has_entry, root_n_items, subdir_n_items@) matches Some(at)
                    ==> at + removed <= old(self).public_items@.len() && at <= u32::MAX,
                self.models_loaded == old(self).models_loaded,
                self.loading_notifies == old(self).loading_notifies,
            decreases n - j,
        {
            if self.subdir_models[j].file == model_file {
                proof {
                    assert(first_file_index(subs, model_file, j as int) == j);
                }
                let idx: u32 = private_index_offset + pos;
                let result = spliced(&self.public_items, idx as usize, removed as usize, added_items);
                self.public_items = result;
                return Some(ItemsChanged { position: idx, removed, added });
            }
            proof {
                lemma_first_file_index_bounds(subs, model_file, j as int + 1);
                lemma_count_prefix_sum_monotonic(subdir_n_items@, j as int + 1, first_file_index(subs, model_file, 0));
            }
            private_index_offset = private_index_offset + subdir_n_items[j];
            j = j + 1;
        }
        None
    }

    /// Handles an entry, `item`, that the root listing, whose folder is
    /// `root_file`, reported as new at `base_index`: a directory asks for a
    /// listing of its own; a regular file goes through `update_public_items`
    /// as a change of one added entry at `base_index`; anything else is
    /// ignored. The other arguments are those of `update_public_items`.
    pub fn new_model_item_enumerated(
        &mut self,
        base_index: u32,
        file_type: FileType,
        root_file: u64,
        item: u64,
        root_has_entry: bool,
        root_n_items: u32,
        subdir_n_items: &Vec<u32>,
    ) -> (r: EnumeratedItem)
        requires
            subdir_n_items@.len() == old(self).subdir_models@.len(),
            file_type == FileType::Regular ==> {
                &&& old(self).change_position(root_file, base_index, root_has_entry, root_n_items, subdir_n_items@)
                    matches Some(at) ==> at <= old(self).public_items@.len() && at <= u32::MAX
                &&& !root_has_entry ==> root_n_items + count_prefix_sum(
                    subdir_n_items@,
                    first_file_index(old(self).subdir_models@, root_file, 0),
                ) <= u32::MAX
            },
        ensures
            file_type == FileType::Directory ==> r == EnumeratedItem::Subdirectory,
            file_type == FileType::Regular ==> match old(self).change_position(
                root_file,
                base_index,
                root_has_entry,
                root_n_items,
                subdir_n_items@,
            ) {
                Some(at) => {
                    &&& r == EnumeratedItem::Updated(Some(ItemsChanged { position: at as u32, removed: 0, added: 1 }))
                    &&& final(self).public_items@ == old(self).public_items@.insert(at, item)
                },
                None => {
                    &&& r == EnumeratedItem::Updated(None)
                    &&& final(self).public_items@ == old(self).public_items@
                },
            },
            file_type != FileType::Regular && file_type != FileType::Directory ==> r == EnumeratedItem::Ignored,
            file_type != FileType::Regular ==> final(self).public_items@ == old(self).public_items@,
            final(self).subdir_models@ == old(self).subdir_models@,
            final(self).models_loaded == old(self).models_loaded,
            final(self).loading_notifies == old(self).loading_notifies,
    {
        if file_type == FileType::Directory {
            EnumeratedItem::Subdirectory
        } else if file_type == FileType::Regular {
            let mut added_items: Vec<u64> = Vec::new();
            added_items.push(item);
            let changed = self.update_public_items(
                root_file,
                base_index,
                0,
                1,
                &added_items,
                root_has_entry,
                root_n_items,
                subdir_n_items,
            );
            proof {
                let s0 = old(self).public_items@;
                if let Some(at) = old(self).change_position(root_file, base_index, root_has_entry, root_n_items, subdir_n_items@) {
                    assert(spliced_seq(s0, at, 0, seq![item]) =~= s0.insert(at, item));
                }
            }
            EnumeratedItem::Updated(changed)
        } else {
            EnumeratedItem::Ignored
        }
    }
}

/// A change that the subdirectory listing `j` reports, the first one
/// enumerating `model_file`, when the root listing has no entry at `pos`,
/// is placed past the entries of the root listing and of every
/// subdirectory listing before `j`: at `root_n_items`, plus the sum of the
/// entry counts of the listings `0..j`, plus `pos`. A change of the root
/// listing is placed at `pos` itself.
pub proof fn law_change_position(
    m: &AlbumsLibraryListModel,
    model_file: u64,
    pos: u32,
    root_n_items: u32,
    subdir_n_items: Seq<u32>,
    j: int,
)
    requires
        subdir_n_items.len() == m.subdir_models@.len(),
        0 <= j < m.subdir_models@.len(),
        m.subdir_models@[j].file == model_file,
        forall|k: int| 0 <= k < j ==> m.subdir_models@[k].file != model_file,
    ensures
        m.change_position(model_file, pos, false, root_n_items, subdir_n_items) == Some(
            root_n_items + subdir_n_items.take(j).fold_left(0int, |acc: int, c: u32| acc + c) + pos,
        ),
        m.change_position(model_file, pos, true, root_n_items, subdir_n_items) == Some(pos as int),
{
    lemma_first_file_index_is_first(m.subdir_models@, model_file, 0, j);
    lemma_count_prefix_sum_is_sum(subdir_n_items, j);
}

/// The first listing at or after `from` with folder `file` is `j` when
/// listing `j` has it and none between `from` and `j` does.
pub proof fn lemma_first_file_index_is_first(subs: Seq<SubdirectoryListModel>, file: u64, from: int, j: int)
    requires
        0 <= from <= j < subs.len(),
        subs[j].file == file,
        forall|k: int| from <= k < j ==> subs[k].file != file,
    ensures
        first_file_index(subs, file, from) == j,
    decreases j - from,
{
    if from < j {
        lemma_first_file_index_is_first(subs, file, from + 1, j);
    }
}

} // verus!
