//! The properties panel of the media viewer: which rows it fills, and
//! with what, for the selected media.

use vstd::prelude::*;
use crate::util::format::{decimal_digits, to_decimal};

verus! {

/// Dimensions of a picture, in pixels.
#[derive(Debug, Clone, Copy, PartialEq, Eq, Structural)]
pub struct PictureDetails {
    pub width: u32,
    pub height: u32,
}

/// Detail information of a video (none is read yet).
#[derive(Debug, Clone, Copy, PartialEq, Eq, Structural)]
pub struct VideoDetails;

/// The detail information of a library item, which can be a picture or a video.
#[derive(Debug, Clone, Copy, PartialEq, Eq, Structural)]
pub enum ContentDetails {
    Picture(PictureDetails),
    Video(VideoDetails),
    Missing,
}

impl Default for ContentDetails {
    /// Details are missing until they are read.
    fn default() -> (d: Self)
        ensures
            d == ContentDetails::Missing,
    {
        ContentDetails::Missing
    }
}

/// The dimensions as shown: the height, ` x `, then the width.
pub open spec fn dimensions_text(details: PictureDetails) -> Seq<char> {
    decimal_digits(details.height as nat) + " x "@ + decimal_digits(details.width as nat)
}

impl PictureDetails {
    /// Returns the dimensions as shown: `"<height> x <width>"`.
    pub fn pretty_print_dimensions(&self) -> (r: String)
        ensures
            r@ == dimensions_text(*self),
    {
        let mut r = to_decimal(self.height);
        r.append(" x ");
        let w = to_decimal(self.width);
        r.append(w.as_str());
        r
    }
}

/// `s` in upper case, as `str::to_uppercase` of the standard library
/// computes it (by Unicode case mapping).
pub uninterp spec fn uppercase(s: Seq<char>) -> Seq<char>;

/// Upper-cases `s` with `str::to_uppercase` of the standard library. The
/// contract claims that the result is `uppercase` of the characters.
#[verifier::external_body]
fn to_uppercase(s: &str) -> (r: String)
    ensures
        r@ == uppercase(s@),
{
    s.to_uppercase()
}

/// Subtitles of the rows of the properties panel; `None` is the row's
/// "not available" placeholder.
#[derive(Debug, Clone)]
pub struct MemoriesProperties {
    pub folder: Option<String>,
    pub format: Option<String>,
    pub dimensions: Option<String>,
    pub size: Option<String>,
    pub created: Option<String>,
    pub modified: Option<String>,
    pub timestamp: Option<String>,
    pub aperture: Option<String>,
    pub exposure: Option<String>,
    pub iso: Option<String>,
    pub focal_length: Option<String>,
    pub make_model: Option<String>,
}

impl MemoriesProperties {
    /// Whether every row shows its placeholder.
    pub open spec fn is_clear(&self) -> bool {
        &&& self.folder is None
        &&& self.format is None
        &&& self.dimensions is None
        &&& self.size is None
        &&& self.created is None
        &&& self.modified is None
        &&& self.timestamp is None
        &&& self.aperture is None
        &&& self.exposure is None
        &&& self.iso is None
        &&& self.focal_length is None
        &&& self.make_model is None
    }

    /// A panel whose rows all show their placeholder.
    pub fn new() -> (p: Self)
        ensures
            p.is_clear(),
    {
        MemoriesProperties {
            folder: None,
            format: None,
            dimensions: None,
            size: None,
            created: None,
            modified: None,
            timestamp: None,
            aperture: None,
            exposure: None,
            iso: None,
            focal_length: None,
            make_model: None,
        }
    }

    /// Sets every row to its placeholder.
    pub fn clear_rows(&mut self)
        ensures
            final(self).is_clear(),
    {
        Self::update_row(&mut self.format, None);
        Self::update_row(&mut self.dimensions, None);
        Self::update_row(&mut self.folder, None);
        Self::update_row(&mut self.size, None);
        Self::update_row(&mut self.created, None);
        Self::update_row(&mut self.modified, None);
        Self::update_row(&mut self.timestamp, None);
        Self::update_row(&mut self.aperture, None);
        Self::update_row(&mut self.exposure, None);
        Self::update_row(&mut self.iso, None);
        Self::update_row(&mut self.focal_length, None);
        Self::update_row(&mut self.make_model, None);
    }

    /// Sets `row` to `value`, or to its placeholder when `value` is `None`;
    /// returns whether a value was set.
    pub fn update_row(row: &mut Option<String>, value: Option<String>) -> (set: bool)
        ensures
            *final(row) == value,
            set == value is Some,
    {
        match value {
            Some(v) => {
                *row = Some(v);
                true
            },
            None => {
                *row = None;
                false
            },
        }
    }

    /// Sets the format row to the file's extension in upper case.
    pub fn update_fileinfo(&mut self, file_ext: &str)
        ensures
            final(self).format matches Some(f) && f@ == uppercase(file_ext@),
            final(self).folder == old(self).folder,
            final(self).dimensions == old(self).dimensions,
            final(self).size == old(self).size,
            final(self).created == old(self).created,
            final(self).modified == old(self).modified,
            final(self).timestamp == old(self).timestamp,
            final(self).aperture == old(self).aperture,
            final(self).exposure == old(self).exposure,
            final(self).iso == old(self).iso,
            final(self).focal_length == old(self).focal_length,
            final(self).make_model == old(self).make_model,
    {
        let ext_str = to_uppercase(file_ext);
        self.format = Some(ext_str);
    }

    /// Fills the rows for a library item with file extension `file_ext`:
    /// every row is cleared, the format row shows the extension in upper
    /// case, and for a picture the dimensions row shows its dimensions and
    /// the size row shows `size_text`.
    pub fn update_details(&mut self, file_ext: &str, content_details: &ContentDetails, size_text: Option<String>)
        requires
            content_details is Picture ==> size_text is Some,
        ensures
            final(self).format matches Some(f) && f@ == uppercase(file_ext@),
            match *content_details {
                ContentDetails::Picture(img) => {
                    &&& final(self).dimensions matches Some(d) && d@ == dimensions_text(img)
                    &&& final(self).size == size_text
                },
                _ => final(self).dimensions is None && final(self).size is None,
            },
            final(self).folder is None,
            final(self).created is None,
            final(self).modified is None,
            final(self).timestamp is None,
            final(self).aperture is None,
            final(self).exposure is None,
            final(self).iso is None,
            final(self).focal_length is None,
            final(self).make_model is None,
    {
        self.clear_rows();
        match content_details {
            ContentDetails::Picture(img_data) => {
                self.update_fileinfo(file_ext);
                let dimensions: String = img_data.pretty_print_dimensions();
                self.dimensions = Some(dimensions);
                self.size = size_text;
            },
            ContentDetails::Video(_) => {
                self.update_fileinfo(file_ext);
            },
            ContentDetails::Missing => {
                self.update_fileinfo(file_ext);
            },
        }
    }
}

} // verus!
