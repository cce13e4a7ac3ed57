//! Data model of the list model that presents the files of one library
//! folder and of its subdirectories as a single list.
//!
//! The root folder's listing comes first; its entries that are directories
//! are kept in the listing but hidden from the presented list, and each of
//! them gets a listing of its own whose entries follow the root's.

use vstd::prelude::*;
use crate::util::listing::{FileType, ItemsChanged};
use crate::util::seq::{spliced, spliced_seq};
use crate::util::listing::{join_path, joined_path};

verus! {

/// Listing of one subdirectory of the library folder.
#[derive(Debug)]
pub struct SubdirectoryListModel {
    /// Handle of the directory listing.
    pub model: u64,
    /// Absolute path of the folder that the listing enumerates.
    pub folder: String,
    /// Handles of the entries the listing currently holds, in order.
    pub items: Vec<u64>,
}

/// List model over the library folder and its subdirectories.
#[derive(Debug)]
pub struct LibraryListModel {
    /// Positions of root entries that are hidden because they are directories.
    pub hidden_items: Vec<u32>,
    /// The hidden positions as they were when the model was built; the root
    /// listing's change reports are adjusted by these.
    pub constructed_hidden_items: Vec<u32>,
    /// Handles of the entries the root listing currently holds, in order.
    pub root_items: Vec<u64>,
    /// One listing per subdirectory found in the root folder.
    pub subdir_models: Vec<SubdirectoryListModel>,
    /// Set once every subdirectory listing has finished loading.
    pub models_loaded: bool,
    /// Number of listings that reported that they finished loading.
    pub loading_notifies: u32,
}

/// Whether `i` is among the hidden positions.
pub open spec fn is_hidden_index(hidden: Seq<u32>, i: int) -> bool {
    exists|k: int| 0 <= k < hidden.len() && hidden[k] as int == i
}

/// The entries of `all[..n]` whose positions are not hidden, in order.
pub open spec fn visible_prefix(all: Seq<u64>, hidden: Seq<u32>, n: int) -> Seq<u64>
    decreases n,
{
    if n <= 0 {
        Seq::empty()
    } else if is_hidden_index(hidden, n - 1) {
        visible_prefix(all, hidden, n - 1)
    } else {
        visible_prefix(all, hidden, n - 1).push(all[n - 1])
    }
}

/// Number of hidden positions below `n`.
pub open spec fn hidden_below(hidden: Seq<u32>, n: int) -> int
    decreases n,
{
    if n <= 0 {
        0
    } else {
        hidden_below(hidden, n - 1) + (if is_hidden_index(hidden, n - 1) { 1int } else { 0int })
    }
}

pub proof fn lemma_hidden_below_bounds(hidden: Seq<u32>, n: int)
    requires
        0 <= n,
    ensures
        0 <= hidden_below(hidden, n) <= n,
    decreases n,
{
    if n > 0 {
        lemma_hidden_below_bounds(hidden, n - 1);
    }
}

/// The visible entries below `n` are the first ones of those below `m`.
pub proof fn lemma_visible_prefix_extends(all: Seq<u64>, hidden: Seq<u32>, n: int, m: int)
    requires
        0 <= n <= m,
    ensures
        visible_prefix(all, hidden, n).len() <= visible_prefix(all, hidden, m).len(),
        forall|i: int| 0 <= i < visible_prefix(all, hidden, n).len() ==>
            visible_prefix(all, hidden, m)[i] == visible_prefix(all, hidden, n)[i],
    decreases m - n,
{
    if n < m {
        lemma_visible_prefix_extends(all, hidden, n, m - 1);
    }
}

/// With no hidden position, the visible entries are the entries.
pub proof fn lemma_visible_prefix_no_hidden(all: Seq<u64>, hidden: Seq<u32>, n: int)
    requires
        hidden.len() == 0,
        0 <= n <= all.len(),
    ensures
        visible_prefix(all, hidden, n) == all.take(n),
    decreases n,
{
    if n > 0 {
        lemma_visible_prefix_no_hidden(all, hidden, n - 1);
        assert(all.take(n) =~= all.take(n - 1).push(all[n - 1]));
    }
}

/// Whether `i` is among the positions `hidden`.
pub fn is_hidden(hidden: &Vec<u32>, i: u32) -> (r: bool)
    ensures
        r == is_hidden_index(hidden@, i as int),
{
    let n: usize = hidden.len();
    let mut k: usize = 0;
    while k < n
        invariant
            n == hidden@.len(),
            0 <= k <= n,
            forall|q: int| 0 <= q < k ==> hidden@[q] != i,
        decreases n - k,
    {
        if hidden[k] == i {
            return true;
        }
        k = k + 1;
    }
    false
}

impl LibraryListModel {
    /// The entries of each subdirectory listing.
    pub open spec fn subdir_contents(&self) -> Seq<Seq<u64>> {
        self.subdir_models@.map_values(|m: SubdirectoryListModel| m.items@)
    }

    /// All entries, hidden ones included: the root listing's entries
    /// followed by those of each subdirectory listing in turn.
    pub open spec fn all_entries(&self) -> Seq<u64> {
        self.root_items@ + self.subdir_contents().flatten()
    }

    /// The entries the model presents: all entries but the hidden ones,
    /// in order, so that the model reads as one continuous list.
    pub open spec fn visible_entries(&self) -> Seq<u64> {
        visible_prefix(self.all_entries(), self.hidden_items@, self.all_entries().len() as int)
    }

    /// The item the model presents at `position`: the `position`-th entry
    /// that is not hidden.
    pub open spec fn spec_item(&self, position: u32) -> Option<u64> {
        if position < self.visible_entries().len() {
            Some(self.visible_entries()[position as int])
        } else {
            None
        }
    }

    /// Listings are `GListModel`s: they cannot hold more than `u32::MAX` entries.
    pub open spec fn well_formed(&self) -> bool {
        &&& self.root_items@.len() <= u32::MAX
        &&& forall|j: int| 0 <= j < self.subdir_models@.len() ==> self.subdir_models@[j].items@.len() <= u32::MAX
    }

    /// A model with empty listings, no hidden entries, and marked as loaded.
    pub fn new() -> (m: Self)
        ensures
            m.well_formed(),
            m.hidden_items@.len() == 0,
            m.constructed_hidden_items@.len() == 0,
            m.root_items@.len() == 0,
            m.subdir_models@.len() == 0,
            m.models_loaded,
            m.loading_notifies == 0,
    {
        let hidden_items: Vec<u32> = Vec::new();
        let constructed_hidden_items: Vec<u32> = Vec::new();
        LibraryListModel {
            hidden_items,
            constructed_hidden_items,
            root_items: Vec::new(),
            subdir_models: Vec::new(),
            models_loaded: true,
            loading_notifies: 0,
        }
    }

    /// All entries, hidden ones included, in one vector.
    fn collect_entries(&self) -> (r: Vec<u64>)
        ensures
            r@ == self.all_entries(),
    {
        let ghost subs = self.subdir_contents();
        let mut r: Vec<u64> = Vec::new();
        let root_n: usize = self.root_items.len();
        let mut i: usize = 0;
        while i < root_n
            invariant
                root_n == self.root_items@.len(),
                0 <= i <= root_n,
                r@ == self.root_items@.take(i as int),
            decreases root_n - i,
        {
            r.push(self.root_items[i]);
            i = i + 1;
            proof {
                assert(r@ =~= self.root_items@.take(i as int));
            }
        }
        let n: usize = self.subdir_models.len();
        let mut j: usize = 0;
        proof {
            assert(subs.take(0) =~= Seq::<Seq<u64>>::empty());
            assert(Seq::<Seq<u64>>::empty().flatten() =~= Seq::<u64>::empty());
            assert(self.root_items@.take(root_n as int) =~= self.root_items@);
        }
        while j < n
            invariant
                n == self.subdir_models@.len(),
                subs == self.subdir_contents(),
                0 <= j <= n,
                r@ == self.root_items@ + subs.take(j as int).flatten(),
            decreases n - j,
        {
            let items = &self.subdir_models[j].items;
            let m: usize = items.len();
            let mut k: usize = 0;
            let ghost before = r@;
            while k < m
                invariant
                    m == items@.len(),
                    0 <= k <= m,
                    r@ == before + items@.take(k as int),
                decreases m - k,
            {
                r.push(items[k]);
                k = k + 1;
                proof {
                    assert(r@ =~= before + items@.take(k as int));
                }
            }
            proof {
                assert(items@.take(m as int) =~= items@);
                assert(subs.take(j + 1) =~= subs.take(j as int).push(subs[j as int]));
                subs.take(j as int).lemma_flatten_push(subs[j as int]);
                assert(subs[j as int] == items@);
                assert(r@ =~= self.root_items@ + subs.take(j + 1).flatten());
            }
            j = j + 1;
        }
        proof {
            assert(subs.take(n as int) =~= subs);
        }
        r
    }

    /// The item presented at `position`, if there is one.
    pub fn item(&self, position: u32) -> (r: Option<u64>)
        requires
            self.all_entries().len() <= u32::MAX,
        ensures
            r == self.spec_item(position),
    {
        let entries = self.collect_entries();
        let ghost all = self.all_entries();
        let ghost hidden = self.hidden_items@;
        let n: usize = entries.len();
        let mut g: usize = 0;
        let mut count: u32 = 0;
        while g < n
            invariant
                entries@ == all,
                all == self.all_entries(),
                hidden == self.hidden_items@,
                n == all.len(),
                n <= u32::MAX,
                0 <= g <= n,
                count == visible_prefix(all, hidden, g as int).len(),
                count <= position,
            decreases n - g,
        {
            proof {
                lemma_visible_prefix_extends(all, hidden, g as int + 1, n as int);
            }
            if !is_hidden(&self.hidden_items, g as u32) {
                if count == position {
                    return Some(entries[g]);
                }
                count = count + 1;
            }
            g = g + 1;
        }
        None
    }

    /// Number of items presented: the entries that are not hidden.
    pub fn n_items(&self) -> (n: u32)
        requires
            self.all_entries().len() <= u32::MAX,
        ensures
            n == self.visible_entries().len(),
    {
        let entries = self.collect_entries();
        let ghost all = self.all_entries();
        let ghost hidden = self.hidden_items@;
        let total: usize = entries.len();
        let mut g: usize = 0;
        let mut count: u32 = 0;
        while g < total
            invariant
                entries@ == all,
                all == self.all_entries(),
                hidden == self.hidden_items@,
                total == all.len(),
                total <= u32::MAX,
                0 <= g <= total,
                count == visible_prefix(all, hidden, g as int).len(),
                count <= g,
            decreases total - g,
        {
            if !is_hidden(&self.hidden_items, g as u32) {
                count = count + 1;
            }
            g = g + 1;
        }
        count
    }

    /// Mirrors a change reported by the root listing: at `pos`, `removed`
    /// entries went away and `added_items` came in.
    pub fn splice_root_items(&mut self, pos: u32, removed: u32, added_items: &Vec<u64>)
        requires
            old(self).well_formed(),
            pos + removed <= old(self).root_items@.len(),
            old(self).root_items@.len() - removed + added_items@.len() <= u32::MAX,
        ensures
            final(self).well_formed(),
            final(self).root_items@ == spliced_seq(old(self).root_items@, pos as int, removed as int, added_items@),
            final(self).hidden_items@ == old(self).hidden_items@,
            final(self).constructed_hidden_items@ == old(self).constructed_hidden_items@,
            final(self).subdir_contents() == old(self).subdir_contents(),
            final(self).models_loaded == old(self).models_loaded,
            final(self).loading_notifies == old(self).loading_notifies,
    {
        let result = spliced(&self.root_items, pos as usize, removed as usize, added_items);
        self.root_items = result;
        proof {
            assert(final(self).subdir_contents() =~= old(self).subdir_contents());
        }
    }

    /// Mirrors a change reported by the listing of subdirectory `j`: at
    /// `pos`, `removed` entries went away and `added_items` came in.
    pub fn splice_subdir_items(&mut self, j: usize, pos: u32, removed: u32, added_items: &Vec<u64>)
        requires
            old(self).well_formed(),
            j < old(self).subdir_models@.len(),
            pos + removed <= old(self).subdir_contents()[j as int].len(),
            old(self).subdir_contents()[j as int].len() - removed + added_items@.len() <= u32::MAX,
        ensures
            final(self).well_formed(),
            final(self).subdir_contents() == old(self).subdir_contents().update(j as int,
                spliced_seq(old(self).subdir_contents()[j as int], pos as int, removed as int, added_items@)),
            final(self).subdir_models@.len() == old(self).subdir_models@.len(),
            forall|k: int| 0 <= k < old(self).subdir_models@.len() ==>
                final(self).subdir_models@[k].model == old(self).subdir_models@[k].model,
            final(self).root_items@ == old(self).root_items@,
            final(self).hidden_items@ == old(self).hidden_items@,
            final(self).constructed_hidden_items@ == old(self).constructed_hidden_items@,
            final(self).models_loaded == old(self).models_loaded,
            final(self).loading_notifies == old(self).loading_notifies,
    {
        let result = spliced(&self.subdir_models[j].items, pos as usize, removed as usize, added_items);
        self.subdir_models[j].items = result;
        proof {
            assert(final(self).subdir_contents() =~= old(self).subdir_contents().update(j as int,
                spliced_seq(old(self).subdir_contents()[j as int], pos as int, removed as int, added_items@)));
        }
    }

    /// The change to report after the root listing reported that at `pos`
    /// `removed` entries went away and `added` came in: the position is
    /// pulled back past the entries below it that were hidden when the
    /// model was built, so that it counts presented items only.
    pub fn root_items_changed(&self, pos: u32, removed: u32, added: u32) -> (r: ItemsChanged)
        ensures
            r == (ItemsChanged {
                position: (pos - hidden_below(self.constructed_hidden_items@, pos as int)) as u32,
                removed,
                added,
            }),
    {
        let mut hidden_count: u32 = 0;
        let mut i: u32 = 0;
        while i < pos
            invariant
                0 <= i <= pos,
                hidden_count == hidden_below(self.constructed_hidden_items@, i as int),
                hidden_count <= i,
            decreases pos - i,
        {
            if is_hidden(&self.constructed_hidden_items, i) {
                hidden_count = hidden_count + 1;
            }
            i = i + 1;
        }
        ItemsChanged { position: pos - hidden_count, removed, added }
    }

    /// Handles an entry that the root listing reported as new at `index`,
    /// named `name`: a directory or a symbolic link gets a listing of its
    /// own, with handle `model`, for the folder `name` in the library
    /// folder `library_dir`, and its root entry is hidden. Returns whether
    /// such a listing was recorded.
    pub fn new_model_item_enumerated(
        &mut self,
        index: u32,
        file_type: FileType,
        model: u64,
        library_dir: &str,
        name: &str,
    ) -> (created: bool)
        requires
            old(self).well_formed(),
        ensures
            final(self).well_formed(),
            created == (file_type == FileType::Directory || file_type == FileType::SymbolicLink),
            created ==> {
                &&& final(self).subdir_models@.len() == old(self).subdir_models@.len() + 1
                &&& final(self).subdir_models@.last().model == model
                &&& final(self).subdir_models@.last().folder@ == joined_path(library_dir@, name@)
                &&& final(self).subdir_contents() == old(self).subdir_contents().push(Seq::empty())
                &&& final(self).hidden_items@ == old(self).hidden_items@.push(index)
            },
            !created ==> {
                &&& final(self).subdir_contents() == old(self).subdir_contents()
                &&& final(self).hidden_items@ == old(self).hidden_items@
                &&& final(self).subdir_models@ == old(self).subdir_models@
            },
            forall|k: int| 0 <= k < old(self).subdir_models@.len() ==>
                final(self).subdir_models@[k] == old(self).subdir_models@[k],
            final(self).root_items@ == old(self).root_items@,
            final(self).constructed_hidden_items@ == old(self).constructed_hidden_items@,
            final(self).models_loaded == old(self).models_loaded,
            final(self).loading_notifies == old(self).loading_notifies,
    {
        match file_type {
            FileType::Directory | FileType::SymbolicLink => {
                self.create_new_subdirectory_model(model, index, library_dir, name);
                true
            },
            _ => false,
        }
    }

    /// Records an empty listing with handle `model` for the subdirectory
    /// `name` of the library folder `library_dir`, and hides the root entry
    /// at `index` that stands for it.
    pub fn create_new_subdirectory_model(&mut self, model: u64, index: u32, library_dir: &str, name: &str)
        requires
            old(self).well_formed(),
        ensures
            final(self).well_formed(),
            final(self).subdir_models@.len() == old(self).subdir_models@.len() + 1,
            final(self).subdir_models@.last().model == model,
            final(self).subdir_models@.last().folder@ == joined_path(library_dir@, name@),
            forall|k: int| 0 <= k < old(self).subdir_models@.len() ==>
                final(self).subdir_models@[k] == old(self).subdir_models@[k],
            final(self).subdir_contents() == old(self).subdir_contents().push(Seq::empty()),
            final(self).hidden_items@ == old(self).hidden_items@.push(index),
            final(self).root_items@ == old(self).root_items@,
            final(self).constructed_hidden_items@ == old(self).constructed_hidden_items@,
            final(self).models_loaded == old(self).models_loaded,
            final(self).loading_notifies == old(self).loading_notifies,
    {
        let folder: String = join_path(library_dir, name);
        self.subdir_models.push(SubdirectoryListModel { model, folder, items: Vec::new() });
        self.hidden_items.push(index);
        proof {
            assert(final(self).subdir_contents() =~= old(self).subdir_contents().push(Seq::empty()));
        }
    }

    /// Records that a listing changed its loading state. A listing that is
    /// no longer loading counts as finished; the model is marked as loaded
    /// when one finishes while as many had finished before as there are
    /// subdirectory listings (the root listing is the one more).
    pub fn register_subdir_loading_notify(&mut self, is_loading: bool)
        requires
            !is_loading ==> old(self).loading_notifies + 1 <= u32::MAX,
        ensures
            final(self).loading_notifies == (if is_loading {
                old(self).loading_notifies as int
            } else {
                old(self).loading_notifies + 1
            }),
            final(self).models_loaded == (old(self).models_loaded || (!is_loading
                && old(self).loading_notifies == (old(self).subdir_models@.len() as u32))),
            final(self).root_items@ == old(self).root_items@,
            final(self).subdir_models@ == old(self).subdir_models@,
            final(self).hidden_items@ == old(self).hidden_items@,
            final(self).constructed_hidden_items@ == old(self).constructed_hidden_items@,
    {
        let notifies: u32 = self.loading_notifies;
        if !is_loading {
            self.loading_notifies = notifies + 1;
            if notifies == self.subdir_models.len() as u32 {
                self.models_loaded = true;
            }
        }
    }
}

/// Each position below `n` is either hidden or gives a visible entry.
pub proof fn lemma_visible_prefix_len(all: Seq<u64>, hidden: Seq<u32>, n: int)
    requires
        0 <= n,
    ensures
        visible_prefix(all, hidden, n).len() + hidden_below(hidden, n) == n,
    decreases n,
{
    if n > 0 {
        lemma_visible_prefix_len(all, hidden, n - 1);
    }
}

/// The model presents every entry whose position is not hidden, and only
/// those: the number of items is the number of entries less the hidden
/// positions among them, every position below it presents an item, and
/// with no hidden position each position presents the entry at that
/// position.
pub proof fn law_items_present_below_n_items(m: &LibraryListModel, position: u32)
    ensures
        m.visible_entries().len() == m.all_entries().len()
            - hidden_below(m.hidden_items@, m.all_entries().len() as int),
        position < m.visible_entries().len() ==> m.spec_item(position) is Some,
        m.hidden_items@.len() == 0 ==> m.spec_item(position) == (if position < m.all_entries().len() {
            Some(m.all_entries()[position as int])
        } else {
            None::<u64>
        }),
{
    let all = m.all_entries();
    lemma_visible_prefix_len(all, m.hidden_items@, all.len() as int);
    if m.hidden_items@.len() == 0 {
        lemma_visible_prefix_no_hidden(all, m.hidden_items@, all.len() as int);
        assert(all.take(all.len() as int) =~= all);
    }
}

} // verus!
