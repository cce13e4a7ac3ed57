//! Decisions of the older library view: which page it shows once the list
//! model loaded, its item count label, where the library folder is, and
//! how a cell's thumbnail is made.

pub mod library_list_model;

use vstd::prelude::*;
use crate::library::media_cell::ThumbnailSource;
use crate::library::media_viewer::{lowercase, str_eq, to_lowercase};
use crate::util::format::{decimal_digits, to_decimal};
use crate::util::listing::{join_path, joined_path};

verus! {

/// The page to show once the list model loaded `item_count` items, and
/// whether the loading spinner stops: an empty library shows the
/// placeholder page and keeps the spinner turning.
pub fn models_loaded_page(item_count: u32) -> (r: (&'static str, bool))
    ensures
        item_count == 0 ==> r.0@ == "placeholder_page"@ && !r.1,
        item_count != 0 ==> r.0@ == "gallery_page"@ && r.1,
{
    if item_count == 0 {
        return ("placeholder_page", false);
    }
    ("gallery_page", true)
}

/// The label of the item count: the count, a space, and the (translated)
/// word for items.
pub fn items_label(item_count: u32, items_word: &str) -> (r: String)
    ensures
        r@ == decimal_digits(item_count as nat) + " "@ + items_word@,
{
    let mut r = to_decimal(item_count);
    r.append(" ");
    r.append(items_word);
    r
}

/// The absolute path of the library folder `library_dir` under `$HOME`
/// (`home`), or `None` when `$HOME` is not set.
pub fn library_directory(home: Option<String>, library_dir: &str) -> (r: Option<String>)
    ensures
        match home {
            Some(h) => r matches Some(p) && p@ == joined_path(h@, library_dir@),
            None => r is None,
        },
{
    match home {
        Some(home_path) => Some(join_path(home_path.as_str(), library_dir)),
        None => None,
    }
}

/// Where the thumbnail of a file whose extension, in lower case, is
/// `ext` comes from: vector graphics are rendered from the file itself.
pub fn thumbnail_source_lowercase(ext: &str) -> (r: ThumbnailSource)
    ensures
        r == (if ext@ == "svg"@ { ThumbnailSource::OriginalFile } else { ThumbnailSource::Generated }),
{
    if str_eq(ext, "svg") {
        ThumbnailSource::OriginalFile
    } else {
        ThumbnailSource::Generated
    }
}

/// Where the thumbnail of a file with the extension `ext` comes from,
/// the extension being compared in lower case.
pub fn thumbnail_source(ext: &str) -> (r: ThumbnailSource)
    ensures
        r == (if lowercase(ext@) == "svg"@ { ThumbnailSource::OriginalFile } else { ThumbnailSource::Generated }),
{
    let lowered: String = to_lowercase(ext);
    thumbnail_source_lowercase(lowered.as_str())
}

} // verus!
