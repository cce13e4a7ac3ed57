use memories::application::library_list_model::{
    AlbumsLibraryListModel, EnumeratedItem, EnumerationError,
};
use memories::library::library_list_model::{
    AlbumsLibraryListModel as FolderListModel, EnumeratedItem as FolderEnumeratedItem,
};
use memories::library_view::library_list_model::LibraryListModel;
use memories::util::listing::{FileType, ItemsChanged};

fn changed(position: u32, removed: u32, added: u32) -> ItemsChanged {
    ItemsChanged { position, removed, added }
}

/// A collection model with one root listing (handle 10, folder 100) and
/// one subdirectory listing (handle 11, folder 101).
fn collection_with_one_root() -> AlbumsLibraryListModel {
    let mut m = AlbumsLibraryListModel::new(vec![String::from("/home/u/Pictures")]);
    m.add_root_model(10, 100);
    m.create_new_subdirectory_model(0, 11, 101);
    m
}

#[test]
fn collection_model_starts_empty() {
    let m = AlbumsLibraryListModel::new(vec![String::from("/a")]);
    assert_eq!(m.n_items(), 0);
    assert_eq!(m.item(0), None);
    assert!(!m.models_loaded);
    assert_eq!(m.loading_notifies, 0);
    assert_eq!(m.subdirectories, vec![String::from("/a")]);
}

#[test]
fn collection_model_regular_file_becomes_public_item() {
    let mut m = collection_with_one_root();
    let r = m.new_root_model_item_enumerated(0, 0, FileType::Regular, 500);
    assert_eq!(r, EnumeratedItem::Added(changed(0, 0, 1)));
    assert_eq!(m.public_items, vec![500]);
    assert_eq!(m.root_models[0].items, vec![500]);
    assert_eq!(m.root_models[0].entry_kinds, vec![true]);
    assert_eq!(m.n_items(), 1);
    assert_eq!(m.item(0), Some(500));
    assert_eq!(m.item(1), None);
}

#[test]
fn collection_model_directory_and_other_entries() {
    let mut m = collection_with_one_root();
    assert_eq!(m.new_root_model_item_enumerated(0, 0, FileType::Directory, 501), EnumeratedItem::Subdirectory);
    assert_eq!(m.new_root_model_item_enumerated(0, 1, FileType::Special, 502), EnumeratedItem::Ignored);
    assert_eq!(m.new_root_model_item_enumerated(0, 2, FileType::SymbolicLink, 503), EnumeratedItem::Ignored);
    assert!(m.public_items.is_empty());
    assert!(m.root_models[0].items.is_empty());
    assert_eq!(m.root_models[0].entry_kinds, vec![false, false, false]);
}

#[test]
fn collection_model_file_after_directory_goes_first_among_files() {
    let mut m = collection_with_one_root();
    m.new_root_model_item_enumerated(0, 0, FileType::Directory, 501);
    // The entry at 1 is the first regular file of the root listing.
    let r = m.new_root_model_item_enumerated(0, 1, FileType::Regular, 502);
    assert_eq!(r, EnumeratedItem::Added(changed(0, 0, 1)));
    assert_eq!(m.public_items, vec![502]);
}

#[test]
fn collection_model_subdirectory_items_follow_root_items() {
    let mut m = collection_with_one_root();
    m.new_root_model_item_enumerated(0, 0, FileType::Regular, 500);
    let r = m.update_public_items(0, 101, 0, 0, 2, vec![600, 601]);
    assert_eq!(r, Some(changed(1, 0, 2)));
    // The added items keep the order of the listing.
    assert_eq!(m.public_items, vec![500, 600, 601]);
    assert_eq!(m.root_models[0].subdir_models[0].items, vec![600, 601]);
    assert_eq!(m.root_models[0].items, vec![500]);
}

#[test]
fn collection_model_unknown_folder_changes_nothing() {
    let mut m = collection_with_one_root();
    m.new_root_model_item_enumerated(0, 0, FileType::Regular, 500);
    let r = m.update_public_items(0, 999, 0, 0, 0, vec![]);
    assert_eq!(r, None);
    assert_eq!(m.public_items, vec![500]);
}

#[test]
fn collection_model_root_removal() {
    let mut m = collection_with_one_root();
    m.new_root_model_item_enumerated(0, 0, FileType::Regular, 500);
    m.update_public_items(0, 101, 0, 0, 2, vec![600, 601]);
    let r = m.update_public_items(0, 100, 0, 1, 0, vec![]);
    assert_eq!(r, Some(changed(0, 1, 0)));
    assert_eq!(m.public_items, vec![600, 601]);
    assert!(m.root_models[0].items.is_empty());
    assert_eq!(m.n_items(), 2);
    assert_eq!(m.item(1), Some(601));
}

#[test]
fn collection_model_removes_a_block() {
    let mut m = collection_with_one_root();
    for (i, item) in [1u64, 2, 3, 4, 5].iter().enumerate() {
        m.new_root_model_item_enumerated(0, i as u32, FileType::Regular, *item);
    }
    assert_eq!(m.public_items, vec![1, 2, 3, 4, 5]);
    let r = m.update_public_items(0, 100, 1, 2, 1, vec![9]);
    assert_eq!(r, Some(changed(1, 2, 1)));
    assert_eq!(m.public_items, vec![1, 9, 4, 5]);
    assert_eq!(m.root_models[0].items, vec![1, 9, 4, 5]);
}

#[test]
fn collection_model_later_roots_come_after_earlier_blocks() {
    let mut m = collection_with_one_root();
    m.add_root_model(20, 200);
    m.new_root_model_item_enumerated(0, 0, FileType::Regular, 500);
    m.update_public_items(0, 101, 0, 0, 2, vec![600, 601]);
    let r = m.new_root_model_item_enumerated(1, 0, FileType::Regular, 900);
    assert_eq!(r, EnumeratedItem::Added(changed(3, 0, 1)));
    assert_eq!(m.public_items, vec![500, 600, 601, 900]);
    let r = m.new_root_model_item_enumerated(0, 1, FileType::Regular, 501);
    assert_eq!(r, EnumeratedItem::Added(changed(1, 0, 1)));
    assert_eq!(m.public_items, vec![500, 501, 600, 601, 900]);
    m.create_new_subdirectory_model(1, 21, 201);
    let r = m.update_public_items(1, 201, 0, 0, 1, vec![950]);
    assert_eq!(r, Some(changed(5, 0, 1)));
    assert_eq!(m.public_items, vec![500, 501, 600, 601, 900, 950]);
}

#[test]
fn collection_model_lookup_and_listing_count() {
    let mut m = collection_with_one_root();
    m.add_root_model(20, 200);
    assert_eq!(m.lookup_root_model(10), Some(0));
    assert_eq!(m.lookup_root_model(20), Some(1));
    assert_eq!(m.lookup_root_model(7), None);
    assert_eq!(m.directory_list_count(), 3);
}

#[test]
fn collection_model_loaded_once_every_listing_finished() {
    let mut m = collection_with_one_root();
    m.register_model_loading_notify(true);
    assert_eq!(m.loading_notifies, 0);
    m.register_model_loading_notify(false);
    assert_eq!(m.loading_notifies, 1);
    assert!(!m.models_loaded);
    m.register_model_loading_notify(false);
    assert_eq!(m.loading_notifies, 2);
    assert!(m.models_loaded);
}

#[test]
fn collection_enumeration_needs_home() {
    let mut m = AlbumsLibraryListModel::new(vec![]);
    let defaults = vec![String::from("Pictures"), String::from("Videos")];
    assert_eq!(m.start_enumerating_items(None, &defaults), Err(EnumerationError::NoHome));
    assert!(m.subdirectories.is_empty());
}

#[test]
fn collection_enumeration_uses_default_folders() {
    let mut m = AlbumsLibraryListModel::new(vec![]);
    let defaults = vec![String::from("Pictures"), String::from("Videos")];
    assert_eq!(m.start_enumerating_items(Some(String::from("/home/u")), &defaults), Ok(()));
    assert_eq!(m.subdirectories, vec![String::from("/home/u/Pictures"), String::from("/home/u/Videos")]);
}

#[test]
fn collection_enumeration_keeps_configured_folders() {
    let mut m = AlbumsLibraryListModel::new(vec![String::from("/srv/photos")]);
    let defaults = vec![String::from("Pictures")];
    assert_eq!(m.start_enumerating_items(Some(String::from("/home/u")), &defaults), Ok(()));
    assert_eq!(m.subdirectories, vec![String::from("/srv/photos")]);
}

#[test]
fn folder_model_starts_empty() {
    let m = FolderListModel::new();
    assert!(m.subdir_models.is_empty());
    assert!(!m.models_loaded);
    assert_eq!(m.loading_notifies, 0);
    assert_eq!(m.n_items(), 0);
    assert_eq!(m.item(0), None);
}

#[test]
fn folder_model_root_change_inserts_items_in_order() {
    let mut m = FolderListModel::new();
    m.create_new_subdirectory_model(20, 200);
    let counts: Vec<u32> = vec![0];
    let r = m.update_public_items(100, 0, 0, 3, &vec![7, 8, 9], true, 3, &counts);
    assert_eq!(r, Some(changed(0, 0, 3)));
    assert_eq!(m.public_items, vec![7, 8, 9]);
}

#[test]
fn folder_model_subdirectory_change_after_root_entries() {
    let mut m = FolderListModel::new();
    m.create_new_subdirectory_model(20, 200);
    let counts: Vec<u32> = vec![0];
    m.update_public_items(100, 0, 0, 3, &vec![7, 8, 9], true, 3, &counts);
    let r = m.update_public_items(200, 0, 0, 2, &vec![10, 11], false, 3, &counts);
    assert_eq!(r, Some(changed(3, 0, 2)));
    assert_eq!(m.public_items, vec![7, 8, 9, 10, 11]);
    assert_eq!(m.item(3), Some(10));
    assert_eq!(m.n_items(), 5);
}

#[test]
fn folder_model_removes_reported_block() {
    let mut m = FolderListModel::new();
    let counts: Vec<u32> = vec![];
    m.update_public_items(100, 0, 0, 3, &vec![7, 8, 9], true, 3, &counts);
    let r = m.update_public_items(100, 1, 2, 0, &vec![], true, 1, &counts);
    assert_eq!(r, Some(changed(1, 2, 0)));
    assert_eq!(m.public_items, vec![7]);
}

#[test]
fn folder_model_unknown_folder_changes_nothing() {
    let mut m = FolderListModel::new();
    m.create_new_subdirectory_model(20, 200);
    let counts: Vec<u32> = vec![0];
    m.update_public_items(100, 0, 0, 2, &vec![7, 9], true, 2, &counts);
    let r = m.update_public_items(999, 0, 2, 0, &vec![], false, 2, &counts);
    assert_eq!(r, None);
    assert_eq!(m.public_items, vec![7, 9]);
}

#[test]
fn folder_model_enumerated_entries() {
    let mut m = FolderListModel::new();
    let counts: Vec<u32> = vec![];
    let r = m.new_model_item_enumerated(0, FileType::Regular, 100, 5, true, 0, &counts);
    assert_eq!(r, FolderEnumeratedItem::Updated(Some(changed(0, 0, 1))));
    assert_eq!(m.public_items, vec![5]);
    let r = m.new_model_item_enumerated(0, FileType::Regular, 100, 6, false, 0, &counts);
    assert_eq!(r, FolderEnumeratedItem::Updated(None));
    assert_eq!(m.public_items, vec![5]);
    let r = m.new_model_item_enumerated(0, FileType::Directory, 100, 7, true, 0, &counts);
    assert_eq!(r, FolderEnumeratedItem::Subdirectory);
    let r = m.new_model_item_enumerated(0, FileType::Mountable, 100, 8, true, 0, &counts);
    assert_eq!(r, FolderEnumeratedItem::Ignored);
    assert_eq!(m.public_items, vec![5]);
}

#[test]
fn folder_model_loaded_after_root_and_subdirectories() {
    let mut m = FolderListModel::new();
    m.create_new_subdirectory_model(20, 200);
    m.register_subdir_loading_notify(false);
    assert!(!m.models_loaded);
    m.register_subdir_loading_notify(true);
    assert_eq!(m.loading_notifies, 1);
    m.register_subdir_loading_notify(false);
    assert!(m.models_loaded);
    assert_eq!(m.loading_notifies, 2);
}

/// Root entries [1, 2, 3] with the entry at 1 hidden as a directory, whose
/// listing holds [8, 9].
fn hidden_entry_model() -> LibraryListModel {
    let mut m = LibraryListModel::new();
    m.splice_root_items(0, 0, &vec![1, 2, 3]);
    assert!(m.new_model_item_enumerated(1, FileType::Directory, 50, "/home/u/Pictures", "Trip"));
    m.splice_subdir_items(0, 0, 0, &vec![8, 9]);
    m
}

#[test]
fn hidden_model_starts_loaded_and_empty() {
    let m = LibraryListModel::new();
    assert!(m.models_loaded);
    assert_eq!(m.n_items(), 0);
    assert_eq!(m.item(0), None);
}

#[test]
fn hidden_model_skips_hidden_entries() {
    let m = hidden_entry_model();
    assert_eq!(m.hidden_items, vec![1]);
    assert_eq!(m.n_items(), 4);
    assert_eq!(m.item(0), Some(1));
    assert_eq!(m.item(1), Some(3));
    assert_eq!(m.item(2), Some(8));
    assert_eq!(m.item(3), Some(9));
    assert_eq!(m.item(4), None);
}

#[test]
fn hidden_model_positions_count_visible_entries() {
    let mut m = LibraryListModel::new();
    m.splice_root_items(0, 0, &vec![10, 11, 12, 13]);
    assert!(m.new_model_item_enumerated(0, FileType::Directory, 50, "/home/u/Pictures", "A"));
    assert!(m.new_model_item_enumerated(1, FileType::Directory, 51, "/home/u/Pictures", "B"));
    assert_eq!(m.item(0), Some(12));
    assert_eq!(m.item(1), Some(13));
    assert_eq!(m.item(2), None);
    assert_eq!(m.n_items(), 2);
}

#[test]
fn hidden_model_without_hidden_entries_presents_all() {
    let mut m = LibraryListModel::new();
    m.splice_root_items(0, 0, &vec![4, 5]);
    assert_eq!(m.n_items(), 2);
    assert_eq!(m.item(0), Some(4));
    assert_eq!(m.item(1), Some(5));
    assert_eq!(m.item(2), None);
}

#[test]
fn hidden_model_symlinks_get_listings_files_do_not() {
    let mut m = hidden_entry_model();
    assert!(!m.new_model_item_enumerated(0, FileType::Regular, 51, "/home/u/Pictures", "a.png"));
    assert_eq!(m.subdir_models.len(), 1);
    assert!(m.new_model_item_enumerated(2, FileType::SymbolicLink, 52, "/home/u/Pictures", "Link"));
    assert_eq!(m.subdir_models.len(), 2);
    assert_eq!(m.subdir_models[1].model, 52);
    assert_eq!(m.hidden_items, vec![1, 2]);
}

#[test]
fn hidden_model_splices() {
    let mut m = hidden_entry_model();
    m.splice_root_items(0, 2, &vec![7]);
    assert_eq!(m.root_items, vec![7, 3]);
    m.splice_subdir_items(0, 1, 1, &vec![10, 11]);
    assert_eq!(m.subdir_models[0].items, vec![8, 10, 11]);
}

#[test]
fn hidden_model_root_change_moves_past_constructed_hidden() {
    let mut m = LibraryListModel::new();
    assert_eq!(m.root_items_changed(2, 1, 1), changed(2, 1, 1));
    m.constructed_hidden_items = vec![0, 2, 5];
    // Hidden entries below the position are not presented: pull it back.
    assert_eq!(m.root_items_changed(2, 1, 1), changed(1, 1, 1));
    assert_eq!(m.root_items_changed(4, 1, 1), changed(2, 1, 1));
}

#[test]
fn hidden_model_create_subdirectory_and_loading() {
    let mut m = LibraryListModel::new();
    m.create_new_subdirectory_model(60, 3, "/home/u/Pictures", "Trip");
    assert_eq!(m.subdir_models.len(), 1);
    assert_eq!(m.subdir_models[0].model, 60);
    assert_eq!(m.subdir_models[0].folder, "/home/u/Pictures/Trip");
    assert!(m.subdir_models[0].items.is_empty());
    assert_eq!(m.hidden_items, vec![3]);
    m.models_loaded = false;
    m.register_subdir_loading_notify(false);
    assert!(!m.models_loaded);
    m.register_subdir_loading_notify(false);
    assert!(m.models_loaded);
    assert_eq!(m.loading_notifies, 2);
}
