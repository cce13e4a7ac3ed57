//! Data model of the library list model that enumerates the files under
//! the configured library collection folders.
//!
//! Each root folder of the collection is backed by a directory listing,
//! and every subdirectory found in a root folder gets a listing of its
//! own. The files reported by all listings are gathered into one flat
//! list of public items: each root listing's files, followed by the files
//! of each of its subdirectory listings, root after root. Listings and
//! items are identified here by numeric handles that the caller hands out.

use vstd::prelude::*;
use crate::util::listing::{join_path, joined_path, FileType, ItemsChanged};
use crate::util::seq::{spliced, spliced_seq};

verus! {

/// A directory listing created for a subdirectory of a root folder.
#[derive(Debug)]
pub struct SubdirectoryListModel {
    /// Handle of the directory listing.
    pub model: u64,
    /// Handle of the folder that the listing enumerates.
    pub file: u64,
    /// The public items that came from this listing, in its order.
    pub items: Vec<u64>,
}

/// Mathematical value of a `SubdirectoryListModel`.
pub struct SubdirectoryListModelView {
    pub model: u64,
    pub file: u64,
    pub items: Seq<u64>,
}

impl View for SubdirectoryListModel {
    type V = SubdirectoryListModelView;

    open spec fn view(&self) -> SubdirectoryListModelView {
        SubdirectoryListModelView { model: self.model, file: self.file, items: self.items@ }
    }
}

/// A directory listing created for one root folder of the collection.
#[derive(Debug)]
pub struct RootListModel {
    /// Handle of the directory listing.
    pub model: u64,
    /// Handle of the root folder that the listing enumerates.
    pub file: u64,
    /// Listings of the subdirectories found in the root folder.
    pub subdir_models: Vec<SubdirectoryListModel>,
    /// For each entry the listing reported, in its order, whether it is a
    /// regular file.
    pub entry_kinds: Vec<bool>,
    /// The public items that came from this listing itself (its regular
    /// files), in its order.
    pub items: Vec<u64>,
}

/// Mathematical value of a `RootListModel`.
pub struct RootListModelView {
    pub model: u64,
    pub file: u64,
    pub subdir_models: Seq<SubdirectoryListModelView>,
    pub entry_kinds: Seq<bool>,
    pub items: Seq<u64>,
}

impl View for RootListModel {
    type V = RootListModelView;

    open spec fn view(&self) -> RootListModelView {
        RootListModelView {
            model: self.model,
            file: self.file,
            subdir_models: sub_views(self.subdir_models@),
            entry_kinds: self.entry_kinds@,
            items: self.items@,
        }
    }
}

/// What became of an item that a root listing reported as new.
#[derive(Debug, Clone, Copy, PartialEq, Eq, Structural)]
pub enum EnumeratedItem {
    /// The item is a directory: a listing must be created for it.
    Subdirectory,
    /// The item is a regular file and became a public item.
    Added(ItemsChanged),
    /// The item is neither a directory nor a regular file.
    Ignored,
}

/// Why the library collection cannot be enumerated.
#[derive(Debug, Clone, Copy, PartialEq, Eq, Structural)]
pub enum EnumerationError {
    /// `$HOME` is not set.
    NoHome,
}

/// List model that presents the files of all root folders and
/// their subdirectories as one continuous list.
#[derive(Debug)]
pub struct AlbumsLibraryListModel {
    /// Absolute paths of the root folders of the library collection.
    pub subdirectories: Vec<String>,
    /// Set once every directory listing has finished loading.
    pub models_loaded: bool,
    /// One entry per root folder.
    pub root_models: Vec<RootListModel>,
    /// Number of listings that reported that they finished loading.
    pub loading_notifies: u32,
    /// Handles of the items presented by the list model, in order.
    pub public_items: Vec<u64>,
}

/// The subdirectory listings, each by its value.
pub open spec fn sub_views(subs: Seq<SubdirectoryListModel>) -> Seq<SubdirectoryListModelView> {
    subs.map_values(|s: SubdirectoryListModel| s@)
}

/// The items of each of the subdirectory listings `subs`.
pub open spec fn item_lists(subs: Seq<SubdirectoryListModelView>) -> Seq<Seq<u64>> {
    subs.map_values(|s: SubdirectoryListModelView| s.items)
}

/// The items of the subdirectory listings `subs`, one listing after the other.
pub open spec fn subdir_items(subs: Seq<SubdirectoryListModelView>) -> Seq<u64> {
    item_lists(subs).flatten()
}

/// The items of a root listing followed by those of its subdirectory listings.
pub open spec fn root_items(root: RootListModelView) -> Seq<u64> {
    root.items + subdir_items(root.subdir_models)
}

/// The items of the root listings `roots`, each with its subdirectories,
/// one root after the other.
pub open spec fn collection_items(roots: Seq<RootListModelView>) -> Seq<u64> {
    root_item_lists(roots).flatten()
}

/// The items of each root listing together with its subdirectories.
pub open spec fn root_item_lists(roots: Seq<RootListModelView>) -> Seq<Seq<u64>> {
    roots.map_values(|r: RootListModelView| root_items(r))
}

/// Number of `true` among the first `n` of `s`.
pub open spec fn count_true(s: Seq<bool>, n: int) -> int
    decreases n,
{
    if n <= 0 || n > s.len() {
        0
    } else {
        count_true(s, n - 1) + (if s[n - 1] { 1int } else { 0int })
    }
}

/// Index of the first subdirectory listing at or after `from` whose folder
/// is `file`, or the number of listings when there is none.
pub open spec fn first_subdir_index(subs: Seq<SubdirectoryListModelView>, file: u64, from: int) -> int
    decreases subs.len() - from,
{
    if from < 0 || from >= subs.len() {
        subs.len() as int
    } else if subs[from].file == file {
        from
    } else {
        first_subdir_index(subs, file, from + 1)
    }
}

/// Index of the first root listing at or after `from` whose handle is
/// `model`, or the number of root listings when there is none.
pub open spec fn first_root_index(roots: Seq<RootListModelView>, model: u64, from: int) -> int
    decreases roots.len() - from,
{
    if from < 0 || from >= roots.len() {
        roots.len() as int
    } else if roots[from].model == model {
        from
    } else {
        first_root_index(roots, model, from + 1)
    }
}

/// Number of directory listings of the first `n` roots: each root listing
/// together with its subdirectory listings.
pub open spec fn listing_count(roots: Seq<RootListModelView>, n: int) -> int
    decreases n,
{
    if n <= 0 || n > roots.len() {
        0
    } else {
        listing_count(roots, n - 1) + roots[n - 1].subdir_models.len() + 1
    }
}

pub proof fn lemma_listing_count_nonnegative(roots: Seq<RootListModelView>, j: int)
    ensures
        0 <= listing_count(roots, j),
    decreases j,
{
    if j > 0 && j <= roots.len() {
        lemma_listing_count_nonnegative(roots, j - 1);
    }
}

pub proof fn lemma_listing_count_monotonic(roots: Seq<RootListModelView>, a: int, b: int)
    requires
        0 <= a <= b <= roots.len(),
    ensures
        0 <= listing_count(roots, a) <= listing_count(roots, b),
    decreases b - a,
{
    lemma_listing_count_nonnegative(roots, a);
    if a < b {
        lemma_listing_count_monotonic(roots, a, b - 1);
    }
}

/// The directory listings of the first `n` roots are those `n` root
/// listings and all of their subdirectory listings: `n` plus the sum of
/// the roots' numbers of subdirectory listings.
pub proof fn law_listing_count(roots: Seq<RootListModelView>, n: int)
    requires
        0 <= n <= roots.len(),
    ensures
        listing_count(roots, n) == n + roots.take(n).fold_left(
            0int,
            |acc: int, r: RootListModelView| acc + r.subdir_models.len(),
        ),
    decreases n,
{
    if n > 0 {
        law_listing_count(roots, n - 1);
        assert(roots.take(n).drop_last() =~= roots.take(n - 1));
        assert(roots.take(n).last() == roots[n - 1]);
    }
}

pub proof fn lemma_first_subdir_index_bounds(subs: Seq<SubdirectoryListModelView>, file: u64, from: int)
    requires
        0 <= from <= subs.len(),
    ensures
        from <= first_subdir_index(subs, file, from) <= subs.len(),
        first_subdir_index(subs, file, from) < subs.len()
            ==> subs[first_subdir_index(subs, file, from)].file == file,
    decreases subs.len() - from,
{
    if from < subs.len() && subs[from].file != file {
        lemma_first_subdir_index_bounds(subs, file, from + 1);
    }
}

pub proof fn lemma_count_true_bounds(s: Seq<bool>, a: int, b: int)
    requires
        0 <= a <= b <= s.len(),
    ensures
        0 <= count_true(s, a) <= count_true(s, b) <= b,
    decreases b,
{
    if a < b {
        lemma_count_true_bounds(s, a, b - 1);
    } else if b > 0 {
        lemma_count_true_bounds(s, b - 1, b - 1);
    }
}

/// Inserting `b` at `i` leaves the count below `i` as it was and adds `b`
/// to the count of the whole.
pub proof fn lemma_count_true_insert(s: Seq<bool>, i: int, b: bool, n: int)
    requires
        0 <= i <= s.len(),
        0 <= n <= s.len() + 1,
    ensures
        n <= i ==> count_true(s.insert(i, b), n) == count_true(s, n),
        n > i ==> count_true(s.insert(i, b), n) == count_true(s, n - 1) + (if b { 1int } else { 0int }),
    decreases n,
{
    if n > 0 {
        lemma_count_true_insert(s, i, b, n - 1);
    }
}

/// The flattening of `s` with its element at `k` replaced by `x`.
pub proof fn lemma_flatten_update(s: Seq<Seq<u64>>, k: int, x: Seq<u64>)
    requires
        0 <= k < s.len(),
    ensures
        s.flatten() == s.take(k).flatten() + s[k] + s.skip(k + 1).flatten(),
        s.update(k, x).flatten() == s.take(k).flatten() + x + s.skip(k + 1).flatten(),
{
    let t = s.update(k, x);
    assert(s =~= s.take(k) + seq![s[k]] + s.skip(k + 1));
    assert(t =~= s.take(k) + seq![x] + s.skip(k + 1));
    vstd::seq_lib::lemma_flatten_concat(s.take(k) + seq![s[k]], s.skip(k + 1));
    vstd::seq_lib::lemma_flatten_concat(s.take(k), seq![s[k]]);
    vstd::seq_lib::lemma_flatten_concat(s.take(k) + seq![x], s.skip(k + 1));
    vstd::seq_lib::lemma_flatten_concat(s.take(k), seq![x]);
    seq![s[k]].lemma_flatten_singleton();
    seq![x].lemma_flatten_singleton();
}

/// The flattening of `s` with `x` appended.
pub proof fn lemma_flatten_take(s: Seq<Seq<u64>>, k: int)
    requires
        0 <= k < s.len(),
    ensures
        s.take(k + 1).flatten() == s.take(k).flatten() + s[k],
        s.take(k).flatten().len() + s[k].len() <= s.flatten().len(),
{
    assert(s.take(k + 1) =~= s.take(k).push(s[k]));
    s.take(k).lemma_flatten_push(s[k]);
    assert(s =~= s.take(k + 1) + s.skip(k + 1));
    vstd::seq_lib::lemma_flatten_concat(s.take(k + 1), s.skip(k + 1));
}

/// `a ++ b ++ c` with `removed` items of `b` at `pos` replaced by `items`:
/// the same replacement at `a.len() + pos` in the whole.
pub proof fn lemma_splice_in_block(a: Seq<u64>, b: Seq<u64>, c: Seq<u64>, pos: int, removed: int, items: Seq<u64>)
    requires
        0 <= pos,
        0 <= removed,
        pos + removed <= b.len(),
    ensures
        a + spliced_seq(b, pos, removed, items) + c == spliced_seq(a + b + c, a.len() + pos, removed, items),
{
    assert(a + spliced_seq(b, pos, removed, items) + c =~= spliced_seq(a + b + c, a.len() + pos, removed, items));
}

/// Replacing items inside the block of root `p` replaces them at the same
/// place, moved past the blocks of the roots before it, in the whole.
pub proof fn lemma_root_splice(
    roots: Seq<RootListModelView>,
    p: int,
    nr: RootListModelView,
    q: int,
    removed: int,
    items: Seq<u64>,
)
    requires
        0 <= p < roots.len(),
        0 <= q,
        0 <= removed,
        q + removed <= root_items(roots[p]).len(),
        root_items(nr) == spliced_seq(root_items(roots[p]), q, removed, items),
    ensures
        collection_items(roots.update(p, nr)) == spliced_seq(
            collection_items(roots),
            collection_items(roots.take(p)).len() + q,
            removed,
            items,
        ),
{
    let l = root_item_lists(roots);
    assert(root_item_lists(roots.update(p, nr)) =~= l.update(p, root_items(nr)));
    assert(root_item_lists(roots.take(p)) =~= l.take(p));
    lemma_flatten_update(l, p, root_items(nr));
    lemma_splice_in_block(l.take(p).flatten(), l[p], l.skip(p + 1).flatten(), q, removed, items);
}

/// Replacing items inside the listing `j` of `subs` replaces them at the
/// same place, moved past the listings before it, in their items.
pub proof fn lemma_subdir_splice(
    subs: Seq<SubdirectoryListModelView>,
    j: int,
    ns: SubdirectoryListModelView,
    pos: int,
    removed: int,
    items: Seq<u64>,
)
    requires
        0 <= j < subs.len(),
        0 <= pos,
        0 <= removed,
        pos + removed <= subs[j].items.len(),
        ns.items == spliced_seq(subs[j].items, pos, removed, items),
    ensures
        subdir_items(subs.update(j, ns)) == spliced_seq(
            subdir_items(subs),
            subdir_items(subs.take(j)).len() + pos,
            removed,
            items,
        ),
        subdir_items(subs.take(j)).len() + subs[j].items.len() <= subdir_items(subs).len(),
{
    let l = item_lists(subs);
    assert(item_lists(subs.update(j, ns)) =~= l.update(j, ns.items));
    assert(item_lists(subs.take(j)) =~= l.take(j));
    lemma_flatten_update(l, j, ns.items);
    lemma_flatten_take(l, j);
    lemma_splice_in_block(l.take(j).flatten(), l[j], l.skip(j + 1).flatten(), pos, removed, items);
}

/// The block of root `p` lies inside the whole.
pub proof fn lemma_root_block_bounds(roots: Seq<RootListModelView>, p: int)
    requires
        0 <= p < roots.len(),
    ensures
        collection_items(roots.take(p)).len() + root_items(roots[p]).len() <= collection_items(roots).len(),
{
    let l = root_item_lists(roots);
    assert(root_item_lists(roots.take(p)) =~= l.take(p));
    lemma_flatten_take(l, p);
}

impl AlbumsLibraryListModel {
    /// The root listings, each by its value.
    pub open spec fn roots(&self) -> Seq<RootListModelView> {
        self.root_models@.map_values(|r: RootListModel| r@)
    }

    /// The public items are the listings' items: each root listing's files,
    /// followed by the items of each of its subdirectory listings, root
    /// after root, every listing in its own order.
    pub open spec fn matches_listings(&self) -> bool {
        self.public_items@ == collection_items(self.roots())
    }

    /// Every root listing holds one item per regular file it reported.
    pub open spec fn root_kinds_consistent(&self) -> bool {
        forall|i: int|
            0 <= i < self.roots().len() ==> #[trigger] self.roots()[i].items.len() == count_true(
                self.roots()[i].entry_kinds,
                self.roots()[i].entry_kinds.len() as int,
            )
    }

    /// Position in the public items where the items of root `parent` start.
    pub open spec fn root_offset(&self, parent: int) -> int {
        collection_items(self.roots().take(parent)).len() as int
    }

    /// Position in the public items where the items of the subdirectory
    /// listing `j` of root `parent` start.
    pub open spec fn subdir_offset(&self, parent: int, j: int) -> int {
        self.root_offset(parent) + self.roots()[parent].items.len()
            + subdir_items(self.roots()[parent].subdir_models.take(j)).len()
    }

    /// An empty model for the given collection folders.
    pub fn new(subdirectories: Vec<String>) -> (m: Self)
        ensures
            m.subdirectories@ == subdirectories@,
            !m.models_loaded,
            m.roots().len() == 0,
            m.loading_notifies == 0,
            m.public_items@.len() == 0,
            m.matches_listings(),
            m.root_kinds_consistent(),
    {
        let m = AlbumsLibraryListModel {
            subdirectories,
            models_loaded: false,
            root_models: Vec::new(),
            loading_notifies: 0,
            public_items: Vec::new(),
        };
        proof {
            assert(m.roots() =~= Seq::<RootListModelView>::empty());
            assert(root_item_lists(m.roots()) =~= Seq::<Seq<u64>>::empty());
            assert(Seq::<Seq<u64>>::empty().flatten() =~= Seq::<u64>::empty());
        }
        m
    }

    /// The public item at `position`, if there is one.
    pub fn item(&self, position: u32) -> (r: Option<u64>)
        ensures
            r == (if position < self.public_items@.len() {
                Some(self.public_items@[position as int])
            } else {
                None::<u64>
            }),
    {
        let idx: usize = position as usize;
        if idx < self.public_items.len() {
            Some(self.public_items[idx])
        } else {
            None
        }
    }

    /// Number of public items.
    pub fn n_items(&self) -> (n: u32)
        requires
            self.public_items@.len() <= u32::MAX,
        ensures
            n == self.public_items@.len(),
    {
        self.public_items.len() as u32
    }

    /// Adds a listing for a new root folder, with no entries and no subdirectories yet.
    pub fn add_root_model(&mut self, model: u64, file: u64)
        ensures
            final(self).roots() == old(self).roots().push(
                RootListModelView {
                    model,
                    file,
                    subdir_models: Seq::empty(),
                    entry_kinds: Seq::empty(),
                    items: Seq::empty(),
                },
            ),
            final(self).subdirectories@ == old(self).subdirectories@,
            final(self).models_loaded == old(self).models_loaded,
            final(self).loading_notifies == old(self).loading_notifies,
            final(self).public_items@ == old(self).public_items@,
            old(self).matches_listings() ==> final(self).matches_listings(),
            old(self).root_kinds_consistent() ==> final(self).root_kinds_consistent(),
    {
        let root = RootListModel {
            model,
            file,
            subdir_models: Vec::new(),
            entry_kinds: Vec::new(),
            items: Vec::new(),
        };
        self.root_models.push(root);
        proof {
            let r = RootListModelView {
                model,
                file,
                subdir_models: Seq::empty(),
                entry_kinds: Seq::empty(),
                items: Seq::empty(),
            };
            assert(final(self).root_models@[old(self).roots().len() as int]@.subdir_models =~= Seq::<SubdirectoryListModelView>::empty());
            assert(final(self).roots() =~= old(self).roots().push(r));
            let m0 = root_item_lists(old(self).roots());
            assert(item_lists(r.subdir_models) =~= Seq::<Seq<u64>>::empty());
            assert(Seq::<Seq<u64>>::empty().flatten() =~= Seq::<u64>::empty());
            assert(root_items(r) =~= Seq::<u64>::empty());
            assert(root_item_lists(final(self).roots()) =~= m0.push(root_items(r)));
            m0.lemma_flatten_push(root_items(r));
            assert(collection_items(final(self).roots()) =~= collection_items(old(self).roots()));
            if old(self).root_kinds_consistent() {
                assert forall|i: int| 0 <= i < final(self).roots().len() implies #[trigger] final(self).roots()[i].items.len()
                    == count_true(final(self).roots()[i].entry_kinds, final(self).roots()[i].entry_kinds.len() as int) by {
                    if i < old(self).roots().len() {
                        assert(old(self).roots()[i] == final(self).roots()[i]);
                    } else {
                        assert(final(self).roots()[i] == r);
                    }
                }
            }
        }
    }

    /// Returns the index of the first root listing with the given handle.
    pub fn lookup_root_model(&self, directory_list: u64) -> (r: Option<usize>)
        ensures
            r == (if first_root_index(self.roots(), directory_list, 0) < self.roots().len() {
                Some(first_root_index(self.roots(), directory_list, 0) as usize)
            } else {
                None::<usize>
            }),
    {
        let n = self.root_models.len();
        let mut i: usize = 0;
        while i < n
            invariant
                n == self.roots().len(),
                0 <= i <= n,
                first_root_index(self.roots(), directory_list, 0)
                    == first_root_index(self.roots(), directory_list, i as int),
            decreases n - i,
        {
            if self.root_models[i].model == directory_list {
                return Some(i);
            }
            i = i + 1;
        }
        None
    }

    /// Total number of directory listings: every root listing and
    /// every subdirectory listing.
    pub fn directory_list_count(&self) -> (count: u32)
        requires
            listing_count(self.roots(), self.roots().len() as int) <= u32::MAX,
        ensures
            count == listing_count(self.roots(), self.roots().len() as int),
    {
        let n = self.root_models.len();
        let mut count: u32 = 0;
        let mut i: usize = 0;
        while i < n
            invariant
                n == self.roots().len(),
                0 <= i <= n,
                listing_count(self.roots(), n as int) <= u32::MAX,
                count == listing_count(self.roots(), i as int),
            decreases n - i,
        {
            proof {
                lemma_listing_count_monotonic(self.roots(), i + 1, n as int);
            }
            let subdirs: u32 = self.root_models[i].subdir_models.len() as u32;
            count = count + subdirs;
            count = count + 1;
            i = i + 1;
        }
        count
    }

    /// Records that a directory listing changed its loading state. A listing
    /// that is no longer loading counts as finished; once as many listings
    /// finished as there are listings, the model is marked as loaded.
    pub fn register_model_loading_notify(&mut self, is_loading: bool)
        requires
            !is_loading ==> old(self).loading_notifies + 1 <= u32::MAX,
            !is_loading ==> listing_count(old(self).roots(), old(self).roots().len() as int) <= u32::MAX,
        ensures
            final(self).loading_notifies == (if is_loading {
                old(self).loading_notifies as int
            } else {
                old(self).loading_notifies + 1
            }),
            final(self).models_loaded == (old(self).models_loaded || (!is_loading
                && old(self).loading_notifies + 1 == listing_count(old(self).roots(), old(self).roots().len() as int))),
            final(self).roots() == old(self).roots(),
            final(self).subdirectories@ == old(self).subdirectories@,
            final(self).public_items@ == old(self).public_items@,
    {
        let notifies: u32 = self.loading_notifies;
        if !is_loading {
            let updated_notifies: u32 = notifies + 1;
            self.loading_notifies = updated_notifies;
            if updated_notifies == self.directory_list_count() {
                self.models_loaded = true;
            }
        }
    }

    /// Records a new listing, with no items yet, for a subdirectory of the
    /// root folder `parent`.
    pub fn create_new_subdirectory_model(&mut self, parent: usize, model: u64, file: u64)
        requires
            parent < old(self).roots().len(),
        ensures
            final(self).roots() == old(self).roots().update(parent as int, RootListModelView {
                subdir_models: old(self).roots()[parent as int].subdir_models.push(
                    SubdirectoryListModelView { model, file, items: Seq::empty() },
                ),
                ..old(self).roots()[parent as int]
            }),
            final(self).subdirectories@ == old(self).subdirectories@,
            final(self).models_loaded == old(self).models_loaded,
            final(self).loading_notifies == old(self).loading_notifies,
            final(self).public_items@ == old(self).public_items@,
            old(self).matches_listings() ==> final(self).matches_listings(),
            old(self).root_kinds_consistent() ==> final(self).root_kinds_consistent(),
    {
        self.root_models[parent].subdir_models.push(SubdirectoryListModel { model, file, items: Vec::new() });
        proof {
            let root = old(self).roots()[parent as int];
            let sub = SubdirectoryListModelView { model, file, items: Seq::empty() };
            let nr = RootListModelView { subdir_models: root.subdir_models.push(sub), ..root };
            assert(old(self).root_models@[parent as int]@ == root);
            assert(final(self).root_models@[parent as int]@.subdir_models =~= root.subdir_models.push(sub));
            assert(final(self).roots() =~= old(self).roots().update(parent as int, nr));
            assert(item_lists(nr.subdir_models) =~= item_lists(root.subdir_models).push(Seq::empty()));
            item_lists(root.subdir_models).lemma_flatten_push(Seq::empty());
            assert(root_items(nr) =~= root_items(root));
            assert(root_item_lists(final(self).roots()) =~= root_item_lists(old(self).roots()));
            if old(self).root_kinds_consistent() {
                assert forall|i: int| 0 <= i < final(self).roots().len() implies #[trigger] final(self).roots()[i].items.len()
                    == count_true(final(self).roots()[i].entry_kinds, final(self).roots()[i].entry_kinds.len() as int) by {
                    assert(old(self).roots()[i].items == final(self).roots()[i].items);
                    assert(old(self).roots()[i].entry_kinds == final(self).roots()[i].entry_kinds);
                }
            }
        }
    }

    /// Number of items of the root listing `root` and of its subdirectory
    /// listings before the `upto`-th.
    fn items_through_subdirs(root: &RootListModel, upto: usize) -> (n: u32)
        requires
            upto <= root.subdir_models@.len(),
            root_items(root@).len() <= u32::MAX,
        ensures
            n == root@.items.len() + subdir_items(root@.subdir_models.take(upto as int)).len(),
    {
        let ghost subs = root@.subdir_models;
        let ghost lists = item_lists(subs);
        let mut n: u32 = root.items.len() as u32;
        let mut k: usize = 0;
        proof {
            assert(item_lists(subs.take(0)) =~= Seq::<Seq<u64>>::empty());
            assert(Seq::<Seq<u64>>::empty().flatten() =~= Seq::<u64>::empty());
        }
        while k < upto
            invariant
                upto <= subs.len(),
                subs == root@.subdir_models,
                lists == item_lists(subs),
                root_items(root@).len() <= u32::MAX,
                0 <= k <= upto,
                n == root@.items.len() + subdir_items(subs.take(k as int)).len(),
            decreases upto - k,
        {
            proof {
                lemma_flatten_take(lists, k as int);
                assert(item_lists(subs.take(k as int)) =~= lists.take(k as int));
                assert(item_lists(subs.take(k + 1)) =~= lists.take(k + 1));
                assert(root.subdir_models@[k as int]@ == subs[k as int]);
            }
            n = n + root.subdir_models[k].items.len() as u32;
            k = k + 1;
        }
        n
    }

    /// Position in the public items where the items of root `parent` start.
    fn items_before_root(&self, parent: usize) -> (n: u32)
        requires
            parent <= self.roots().len(),
            collection_items(self.roots()).len() <= u32::MAX,
        ensures
            n == self.root_offset(parent as int),
    {
        let ghost roots = self.roots();
        let ghost lists = root_item_lists(roots);
        let mut n: u32 = 0;
        let mut i: usize = 0;
        proof {
            assert(root_item_lists(roots.take(0)) =~= Seq::<Seq<u64>>::empty());
            assert(Seq::<Seq<u64>>::empty().flatten() =~= Seq::<u64>::empty());
        }
        while i < parent
            invariant
                parent <= roots.len(),
                roots == self.roots(),
                lists == root_item_lists(roots),
                collection_items(roots).len() <= u32::MAX,
                0 <= i <= parent,
                n == collection_items(roots.take(i as int)).len(),
            decreases parent - i,
        {
            proof {
                lemma_flatten_take(lists, i as int);
                assert(root_item_lists(roots.take(i as int)) =~= lists.take(i as int));
                assert(root_item_lists(roots.take(i + 1)) =~= lists.take(i + 1));
                assert(self.root_models@[i as int]@ == roots[i as int]);
                let subs = roots[i as int].subdir_models;
                assert(subs.take(subs.len() as int) =~= subs);
            }
            let all_subdirs: usize = self.root_models[i].subdir_models.len();
            let root_len: u32 = Self::items_through_subdirs(&self.root_models[i], all_subdirs);
            n = n + root_len;
            i = i + 1;
        }
        n
    }

    /// Updates the public items after the listing whose folder is
    /// `model_file`, which belongs to root `parent`, reported that at `pos`
    /// `removed` items went away and `added` items, `added_items`, came in,
    /// `pos` counting the items of that listing.
    ///
    /// If `model_file` is the root folder itself, the root listing's items
    /// are updated so; otherwise the first subdirectory listing of that
    /// root with that folder is. The public items change in the same way,
    /// at the place where that listing's items stand in them (past the
    /// items of every listing before it), and the change is returned as
    /// reported there; `None`, with nothing changed, when no listing of
    /// that root has the folder.
    pub fn update_public_items(
        &mut self,
        parent: usize,
        model_file: u64,
        pos: u32,
        removed: u32,
        added: u32,
        added_items: Vec<u64>,
    ) -> (r: Option<ItemsChanged>)
        requires
            parent < old(self).roots().len(),
            added_items@.len() == added,
            old(self).matches_listings(),
            old(self).public_items@.len() <= u32::MAX,
            old(self).roots()[parent as int].file == model_file ==>
                pos + removed <= old(self).roots()[parent as int].items.len(),
            old(self).roots()[parent as int].file != model_file ==> {
                let subs = old(self).roots()[parent as int].subdir_models;
                let j = first_subdir_index(subs, model_file, 0);
                j < subs.len() ==> pos + removed <= subs[j].items.len()
            },
        ensures
            ({
                let root = old(self).roots()[parent as int];
                let subs = root.subdir_models;
                let j = first_subdir_index(subs, model_file, 0);
                if root.file == model_file {
                    let at = old(self).root_offset(parent as int) + pos;
                    &&& r == Some(ItemsChanged { position: at as u32, removed, added })
                    &&& final(self).roots() == old(self).roots().update(parent as int, RootListModelView {
                        items: spliced_seq(root.items, pos as int, removed as int, added_items@),
                        ..root
                    })
                    &&& final(self).public_items@ == spliced_seq(old(self).public_items@, at, removed as int, added_items@)
                } else if j < subs.len() {
                    let at = old(self).subdir_offset(parent as int, j) + pos;
                    &&& r == Some(ItemsChanged { position: at as u32, removed, added })
                    &&& final(self).roots() == old(self).roots().update(parent as int, RootListModelView {
                        subdir_models: subs.update(j, SubdirectoryListModelView {
                            items: spliced_seq(subs[j].items, pos as int, removed as int, added_items@),
                            ..subs[j]
                        }),
                        ..root
                    })
                    &&& final(self).public_items@ == spliced_seq(old(self).public_items@, at, removed as int, added_items@)
                } else {
                    &&& r is None
                    &&& final(self).public_items@ == old(self).public_items@
                    &&& final(self).roots() == old(self).roots()
                }
            }),
            final(self).matches_listings(),
            old(self).roots()[parent as int].file != model_file && old(self).root_kinds_consistent()
                ==> final(self).root_kinds_consistent(),
            final(self).subdirectories@ == old(self).subdirectories@,
            final(self).models_loaded == old(self).models_loaded,
            final(self).loading_notifies == old(self).loading_notifies,
    {
        let ghost roots0 = self.roots();
        let ghost root = roots0[parent as int];
        let ghost subs = root.subdir_models;
        proof {
            lemma_root_block_bounds(roots0, parent as int);
            assert(self.root_models@[parent as int]@ == root);
        }
        let root_off: u32 = self.items_before_root(parent);
        let root_file: u64 = self.root_models[parent].file;
        if root_file == model_file {
            let new_items = spliced(&self.root_models[parent].items, pos as usize, removed as usize, &added_items);
            self.root_models[parent].items = new_items;
            let idx: u32 = root_off + pos;
            let new_public = spliced(&self.public_items, idx as usize, removed as usize, &added_items);
            self.public_items = new_public;
            proof {
                let nr = RootListModelView {
                    items: spliced_seq(root.items, pos as int, removed as int, added_items@),
                    ..root
                };
                assert(self.roots() =~= roots0.update(parent as int, nr));
                lemma_splice_in_block(Seq::empty(), root.items, subdir_items(subs), pos as int, removed as int, added_items@);
                assert(Seq::<u64>::empty() + root.items + subdir_items(subs) =~= root_items(root));
                assert(Seq::<u64>::empty() + nr.items + subdir_items(subs) =~= root_items(nr));
                lemma_root_splice(roots0, parent as int, nr, pos as int, removed as int, added_items@);
            }
            return Some(ItemsChanged { position: idx, removed, added });
        }
        let n: usize = self.root_models[parent].subdir_models.len();
        let mut j: usize = 0;
        proof {
            lemma_first_subdir_index_bounds(subs, model_file, 0);
        }
        while j < n
            invariant
                n == subs.len(),
                0 <= j <= n,
                parent < roots0.len(),
                roots0 == old(self).roots(),
                root == roots0[parent as int],
                subs == root.subdir_models,
                self.roots() == roots0,
                self.public_items@ == old(self).public_items@,
                first_subdir_index(subs, model_file, 0) == first_subdir_index(subs, model_file, j as int),
                j <= first_subdir_index(subs, model_file, 0) <= n,
                root.file != model_file,
                first_subdir_index(subs, model_file, 0) < n ==>
                    pos + removed <= subs[first_subdir_index(subs, model_file, 0)].items.len(),
                old(self).matches_listings(),
                old(self).public_items@.len() <= u32::MAX,
                root_off == old(self).root_offset(parent as int),
                collection_items(roots0.take(parent as int)).len() + root_items(root).len()
                    <= collection_items(roots0).len(),
                added_items@.len() == added,
                self.subdirectories@ == old(self).subdirectories@,
                self.models_loaded == old(self).models_loaded,
                self.loading_notifies == old(self).loading_notifies,
            decreases n - j,
        {
            proof {
                assert(self.root_models@[parent as int]@ == root);
                assert(self.root_models@[parent as int].subdir_models@[j as int]@ == subs[j as int]);
            }
            if self.root_models[parent].subdir_models[j].file == model_file {
                proof {
                    assert(first_subdir_index(subs, model_file, j as int) == j);
                    let ns = SubdirectoryListModelView {
                        items: spliced_seq(subs[j as int].items, pos as int, removed as int, added_items@),
                        ..subs[j as int]
                    };
                    lemma_subdir_splice(subs, j as int, ns, pos as int, removed as int, added_items@);
                    assert(root_items(root).len() <= u32::MAX);
                }
                let within: u32 = Self::items_through_subdirs(&self.root_models[parent], j);
                let idx: u32 = root_off + within + pos;
                let new_items = spliced(
                    &self.root_models[parent].subdir_models[j].items,
                    pos as usize,
                    removed as usize,
                    &added_items,
                );
                self.root_models[parent].subdir_models[j].items = new_items;
                let new_public = spliced(&self.public_items, idx as usize, removed as usize, &added_items);
                self.public_items = new_public;
                proof {
                    let ns = SubdirectoryListModelView {
                        items: spliced_seq(subs[j as int].items, pos as int, removed as int, added_items@),
                        ..subs[j as int]
                    };
                    let nr = RootListModelView { subdir_models: subs.update(j as int, ns), ..root };
                    assert(self.root_models@[parent as int].subdir_models@.map_values(|s: SubdirectoryListModel| s@)
                        =~= subs.update(j as int, ns));
                    assert(self.roots() =~= roots0.update(parent as int, nr));
                    let q = root.items.len() + subdir_items(subs.take(j as int)).len() + pos;
                    assert(root_items(nr) =~= spliced_seq(root_items(root), q, removed as int, added_items@));
                    lemma_root_splice(roots0, parent as int, nr, q, removed as int, added_items@);
                    if old(self).root_kinds_consistent() {
                        assert forall|i: int| 0 <= i < self.roots().len() implies #[trigger] self.roots()[i].items.len()
                            == count_true(self.roots()[i].entry_kinds, self.roots()[i].entry_kinds.len() as int) by {
                            assert(old(self).roots()[i].items == self.roots()[i].items);
                            assert(old(self).roots()[i].entry_kinds == self.roots()[i].entry_kinds);
                        }
                    }
                }
                return Some(ItemsChanged { position: idx, removed, added });
            }
            proof {
                lemma_first_subdir_index_bounds(subs, model_file, j as int + 1);
            }
            j = j + 1;
        }
        None
    }

    /// Handles one entry that the listing of root `parent` reported as new
    /// at `base_index` of its entries. The entry's kind is recorded; a
    /// directory asks for a listing of its own; a regular file becomes a
    /// public item, standing among the root's items after the regular files
    /// reported before it, and the change is reported as one added item
    /// there; anything else is ignored.
    pub fn new_root_model_item_enumerated(
        &mut self,
        parent: usize,
        base_index: u32,
        file_type: FileType,
        item: u64,
    ) -> (r: EnumeratedItem)
        requires
            parent < old(self).roots().len(),
            base_index <= old(self).roots()[parent as int].entry_kinds.len(),
            old(self).matches_listings(),
            old(self).root_kinds_consistent(),
            old(self).public_items@.len() + 1 <= u32::MAX,
        ensures
            ({
                let root = old(self).roots()[parent as int];
                let kinds = root.entry_kinds.insert(base_index as int, file_type == FileType::Regular);
                let fpos = count_true(root.entry_kinds, base_index as int);
                let at = old(self).root_offset(parent as int) + fpos;
                &&& file_type == FileType::Directory ==> r == EnumeratedItem::Subdirectory
                &&& file_type == FileType::Regular ==> {
                    &&& r == EnumeratedItem::Added(ItemsChanged { position: at as u32, removed: 0, added: 1 })
                    &&& final(self).public_items@ == old(self).public_items@.insert(at, item)
                    &&& final(self).roots() == old(self).roots().update(parent as int, RootListModelView {
                        entry_kinds: kinds,
                        items: root.items.insert(fpos, item),
                        ..root
                    })
                }
                &&& file_type != FileType::Regular && file_type != FileType::Directory ==> r == EnumeratedItem::Ignored
                &&& file_type != FileType::Regular ==> {
                    &&& final(self).public_items@ == old(self).public_items@
                    &&& final(self).roots() == old(self).roots().update(parent as int, RootListModelView {
                        entry_kinds: kinds,
                        ..root
                    })
                }
            }),
            final(self).matches_listings(),
            final(self).root_kinds_consistent(),
            final(self).subdirectories@ == old(self).subdirectories@,
            final(self).models_loaded == old(self).models_loaded,
            final(self).loading_notifies == old(self).loading_notifies,
    {
        let ghost roots0 = self.roots();
        let ghost root = roots0[parent as int];
        proof {
            assert(self.root_models@[parent as int]@ == root);
            lemma_count_true_bounds(root.entry_kinds, base_index as int, root.entry_kinds.len() as int);
        }
        let mut fpos: u32 = 0;
        let mut i: usize = 0;
        while i < base_index as usize
            invariant
                self.roots() == roots0,
                root == roots0[parent as int],
                parent < roots0.len(),
                base_index <= root.entry_kinds.len(),
                0 <= i <= base_index,
                fpos == count_true(root.entry_kinds, i as int),
            decreases base_index - i,
        {
            proof {
                assert(self.root_models@[parent as int]@ == root);
                lemma_count_true_bounds(root.entry_kinds, i as int, i + 1);
            }
            if self.root_models[parent].entry_kinds[i] {
                fpos = fpos + 1;
            }
            i = i + 1;
        }
        let is_file: bool = match file_type {
            FileType::Regular => true,
            _ => false,
        };
        self.root_models[parent].entry_kinds.insert(base_index as usize, is_file);
        let ghost kinds = root.entry_kinds.insert(base_index as int, is_file);
        let ghost r1 = RootListModelView { entry_kinds: kinds, ..root };
        proof {
            assert(self.root_models@[parent as int].subdir_models@.map_values(|s: SubdirectoryListModel| s@)
                =~= root.subdir_models);
            assert(self.roots() =~= roots0.update(parent as int, r1));
            assert(root_items(r1) == root_items(root));
            assert(root_item_lists(self.roots()) =~= root_item_lists(roots0));
            assert(self.roots().take(parent as int) =~= roots0.take(parent as int));
            lemma_count_true_insert(root.entry_kinds, base_index as int, is_file, root.entry_kinds.len() as int + 1);
            assert(old(self).roots()[parent as int].items.len() == count_true(root.entry_kinds, root.entry_kinds.len() as int));
        }
        match file_type {
            FileType::Directory => {
                proof {
                    assert forall|k: int| 0 <= k < self.roots().len() implies #[trigger] self.roots()[k].items.len()
                        == count_true(self.roots()[k].entry_kinds, self.roots()[k].entry_kinds.len() as int) by {
                        if k != parent {
                            assert(self.roots()[k] == old(self).roots()[k]);
                        }
                    }
                }
                EnumeratedItem::Subdirectory
            },
            FileType::Regular => {
                let root_file: u64 = self.root_models[parent].file;
                let mut added_items: Vec<u64> = Vec::new();
                added_items.push(item);
                let changed = self.update_public_items(parent, root_file, fpos, 0, 1, added_items);
                proof {
                    assert(spliced_seq(root.items, fpos as int, 0, seq![item]) =~= root.items.insert(fpos as int, item));
                    let at = old(self).root_offset(parent as int) + fpos;
                    assert(spliced_seq(old(self).public_items@, at, 0, seq![item])
                        =~= old(self).public_items@.insert(at, item));
                    assert(self.roots() =~= roots0.update(parent as int, RootListModelView {
                        entry_kinds: kinds,
                        items: root.items.insert(fpos as int, item),
                        ..root
                    }));
                    assert forall|k: int| 0 <= k < self.roots().len() implies #[trigger] self.roots()[k].items.len()
                        == count_true(self.roots()[k].entry_kinds, self.roots()[k].entry_kinds.len() as int) by {
                        if k != parent {
                            assert(self.roots()[k] == old(self).roots()[k]);
                        }
                    }
                }
                EnumeratedItem::Added(changed.unwrap())
            },
            _ => {
                proof {
                    assert forall|k: int| 0 <= k < self.roots().len() implies #[trigger] self.roots()[k].items.len()
                        == count_true(self.roots()[k].entry_kinds, self.roots()[k].entry_kinds.len() as int) by {
                        if k != parent {
                            assert(self.roots()[k] == old(self).roots()[k]);
                        }
                    }
                }
                EnumeratedItem::Ignored
            },
        }
    }

    /// The collection folders as paths.
    pub open spec fn subdirectory_paths(&self) -> Seq<Seq<char>> {
        self.subdirectories@.map_values(|s: String| s@)
    }

    /// Prepares the enumeration of the library collection, given `$HOME`
    /// (`home`, when set) and the default collection folders relative to
    /// it: when no collection folder is configured yet, the default
    /// folders under `$HOME` become the collection. Fails when `$HOME` is
    /// not set.
    pub fn start_enumerating_items(&mut self, home: Option<String>, default_folders: &Vec<String>) -> (r: Result<(), EnumerationError>)
        ensures
            home is None ==> {
                &&& r == Err::<(), EnumerationError>(EnumerationError::NoHome)
                &&& final(self).subdirectory_paths() == old(self).subdirectory_paths()
            },
            home matches Some(h) ==> {
                &&& r is Ok
                &&& old(self).subdirectories@.len() == 0 ==> final(self).subdirectory_paths()
                    == default_folders@.map_values(|f: String| joined_path(h@, f@))
                &&& old(self).subdirectories@.len() != 0 ==> final(self).subdirectory_paths()
                    == old(self).subdirectory_paths()
            },
            final(self).roots() == old(self).roots(),
            final(self).models_loaded == old(self).models_loaded,
            final(self).loading_notifies == old(self).loading_notifies,
            final(self).public_items@ == old(self).public_items@,
    {
        let home_path: String = match home {
            Some(h) => h,
            None => {
                return Err(EnumerationError::NoHome);
            },
        };
        if self.subdirectories.len() == 0 {
            let mut default_subdirs: Vec<String> = Vec::new();
            let n: usize = default_folders.len();
            let mut i: usize = 0;
            while i < n
                invariant
                    n == default_folders@.len(),
                    0 <= i <= n,
                    default_subdirs@.map_values(|s: String| s@)
                        =~= default_folders@.take(i as int).map_values(|f: String| joined_path(home_path@, f@)),
                decreases n - i,
            {
                let p = join_path(home_path.as_str(), default_folders[i].as_str());
                let ghost before = default_subdirs@;
                default_subdirs.push(p);
                proof {
                    assert(default_folders@.take(i + 1) =~= default_folders@.take(i as int).push(default_folders@[i as int]));
                    assert(default_subdirs@ =~= before.push(p));
                    assert(default_subdirs@.map_values(|s: String| s@)
                        =~= before.map_values(|s: String| s@).push(p@));
                    assert(default_folders@.take(i + 1).map_values(|f: String| joined_path(home_path@, f@))
                        =~= default_folders@.take(i as int).map_values(|f: String| joined_path(home_path@, f@))
                            .push(joined_path(home_path@, default_folders@[i as int]@)));
                }
                i = i + 1;
            }
            proof {
                assert(default_folders@.take(n as int) =~= default_folders@);
            }
            self.subdirectories = default_subdirs;
        }
        Ok(())
    }
}

/// The public items are the listings' items, each listing's where its
/// block stands: the item at `i` of root `p`'s own items is the public item
/// at `root_offset(p) + i`, and the item at `i` of its subdirectory
/// listing `j` is the public item at `subdir_offset(p, j) + i`; no public
/// item lies past the last root's block.
pub proof fn law_public_items_follow_listings(m: &AlbumsLibraryListModel, p: int, j: int, i: int)
    requires
        m.matches_listings(),
        0 <= p < m.roots().len(),
    ensures
        0 <= i < m.roots()[p].items.len() ==> m.root_offset(p) + i < m.public_items@.len()
            && m.public_items@[m.root_offset(p) + i] == m.roots()[p].items[i],
        0 <= j < m.roots()[p].subdir_models.len() && 0 <= i < m.roots()[p].subdir_models[j].items.len()
            ==> m.subdir_offset(p, j) + i < m.public_items@.len()
            && m.public_items@[m.subdir_offset(p, j) + i] == m.roots()[p].subdir_models[j].items[i],
        m.public_items@.len() == m.root_offset(m.roots().len() as int),
{
    let roots = m.roots();
    let l = root_item_lists(roots);
    let r = roots[p];
    lemma_flatten_update(l, p, l[p]);
    assert(root_item_lists(roots.take(p)) =~= l.take(p));
    assert(roots.take(roots.len() as int) =~= roots);
    if 0 <= j < r.subdir_models.len() {
        let sl = item_lists(r.subdir_models);
        lemma_flatten_update(sl, j, sl[j]);
        assert(item_lists(r.subdir_models.take(j)) =~= sl.take(j));
    }
}

} // verus!
