//! Content types shown by the media viewer, and the viewer's decisions on
//! which page shows a content and how a file is loaded into it.

use vstd::prelude::*;

verus! {

/// The types of content that the media viewer can display.
#[derive(Debug, Clone, Copy, PartialEq, Eq, Structural)]
pub enum ViewerContentType {
    VectorGraphics,
    Image,
    Video,
    Invalid,
}

/// The content type of an already lower-cased file extension.
pub open spec fn content_type_of(ext: Seq<char>) -> ViewerContentType {
    if ext == "svg"@ {
        ViewerContentType::VectorGraphics
    } else if ext == "png"@ || ext == "jpg"@ || ext == "jpeg"@ || ext == "webp"@ || ext == "heic"@
        || ext == "heif"@ {
        ViewerContentType::Image
    } else if ext == "mp4"@ || ext == "webm"@ || ext == "mkv"@ || ext == "mov"@ || ext == "avi"@
        || ext == "gif"@ {
        ViewerContentType::Video
    } else {
        ViewerContentType::Invalid
    }
}

/// What each content type is for, by lower-case extension: `svg` files are
/// vector graphics; `png`, `jpg`, `jpeg`, `webp`, `heic` and `heif` files
/// are images; `mp4`, `webm`, `mkv`, `mov`, `avi` and `gif` files are
/// videos; any other extension is invalid.
pub proof fn law_content_type_by_extension(ext: Seq<char>)
    ensures
        (content_type_of(ext) == ViewerContentType::VectorGraphics) <==> ext == "svg"@,
        (content_type_of(ext) == ViewerContentType::Image) <==> (ext == "png"@ || ext == "jpg"@ || ext == "jpeg"@
            || ext == "webp"@ || ext == "heic"@ || ext == "heif"@),
        (content_type_of(ext) == ViewerContentType::Video) <==> (ext == "mp4"@ || ext == "webm"@ || ext == "mkv"@
            || ext == "mov"@ || ext == "avi"@ || ext == "gif"@),
        (content_type_of(ext) == ViewerContentType::Invalid) <==> !(ext == "svg"@ || ext == "png"@ || ext == "jpg"@
            || ext == "jpeg"@ || ext == "webp"@ || ext == "heic"@ || ext == "heif"@ || ext == "mp4"@
            || ext == "webm"@ || ext == "mkv"@ || ext == "mov"@ || ext == "avi"@ || ext == "gif"@),
{
    reveal_strlit("svg");
    reveal_strlit("png");
    reveal_strlit("jpg");
    reveal_strlit("jpeg");
    reveal_strlit("webp");
    reveal_strlit("heic");
    reveal_strlit("heif");
    reveal_strlit("mp4");
    reveal_strlit("webm");
    reveal_strlit("mkv");
    reveal_strlit("mov");
    reveal_strlit("avi");
    reveal_strlit("gif");
    assert("svg"@[0] != "png"@[0]);
    assert("svg"@[0] != "jpg"@[0]);
    assert("svg"@[0] != "mp4"@[0]);
    assert("svg"@[0] != "mkv"@[0]);
    assert("svg"@[0] != "mov"@[0]);
    assert("svg"@[0] != "avi"@[0]);
    assert("svg"@[0] != "gif"@[0]);
    assert("png"@[0] != "jpg"@[0]);
    assert("png"@[0] != "mp4"@[0]);
    assert("png"@[0] != "mkv"@[0]);
    assert("png"@[0] != "mov"@[0]);
    assert("png"@[0] != "avi"@[0]);
    assert("png"@[0] != "gif"@[0]);
    assert("jpg"@[0] != "mp4"@[0]);
    assert("jpg"@[0] != "mkv"@[0]);
    assert("jpg"@[0] != "mov"@[0]);
    assert("jpg"@[0] != "avi"@[0]);
    assert("jpg"@[0] != "gif"@[0]);
    assert("jpeg"@[0] != "webp"@[0]);
    assert("jpeg"@[0] != "heic"@[0]);
    assert("jpeg"@[0] != "heif"@[0]);
    assert("jpeg"@[0] != "webm"@[0]);
    assert("webp"@[0] != "heic"@[0]);
    assert("webp"@[0] != "heif"@[0]);
    assert("webp"@[3] != "webm"@[3]);
    assert("heic"@[3] != "heif"@[3]);
    assert("heic"@[0] != "webm"@[0]);
    assert("heif"@[0] != "webm"@[0]);
    assert("mp4"@[1] != "mkv"@[1]);
    assert("mp4"@[1] != "mov"@[1]);
    assert("mp4"@[0] != "avi"@[0]);
    assert("mp4"@[0] != "gif"@[0]);
    assert("mkv"@[1] != "mov"@[1]);
    assert("mkv"@[0] != "avi"@[0]);
    assert("mkv"@[0] != "gif"@[0]);
    assert("mov"@[0] != "avi"@[0]);
    assert("mov"@[0] != "gif"@[0]);
    assert("avi"@[0] != "gif"@[0]);
}

/// `s` in lower case, as `str::to_lowercase` of the standard library
/// computes it (by Unicode case mapping).
pub uninterp spec fn lowercase(s: Seq<char>) -> Seq<char>;

/// Lower-cases `s` with `str::to_lowercase` of the standard library. The
/// contract claims that the result is `lowercase` of the characters.
#[verifier::external_body]
pub(crate) fn to_lowercase(s: &str) -> (r: String)
    ensures
        r@ == lowercase(s@),
{
    s.to_lowercase()
}

/// Whether `a` and `b` hold the same characters.
pub fn str_eq(a: &str, b: &str) -> (r: bool)
    ensures
        r == (a@ == b@),
{
    String::from_str(a) == String::from_str(b)
}

/// Returns the content type of a file extension that is already in lower
/// case.
pub fn content_type_of_lowercase(ext: &str) -> (r: ViewerContentType)
    ensures
        r == content_type_of(ext@),
{
    if str_eq(ext, "svg") {
        ViewerContentType::VectorGraphics
    } else if str_eq(ext, "png") || str_eq(ext, "jpg") || str_eq(ext, "jpeg") || str_eq(ext, "webp")
        || str_eq(ext, "heic") || str_eq(ext, "heif") {
        ViewerContentType::Image
    } else if str_eq(ext, "mp4") || str_eq(ext, "webm") || str_eq(ext, "mkv") || str_eq(ext, "mov")
        || str_eq(ext, "avi") || str_eq(ext, "gif") {
        ViewerContentType::Video
    } else {
        ViewerContentType::Invalid
    }
}

/// Name of the viewer stack page that shows a content type, if any.
pub open spec fn stack_page_of(content_type: ViewerContentType) -> Option<Seq<char>> {
    match content_type {
        ViewerContentType::VectorGraphics => Some("image"@),
        ViewerContentType::Image => Some("image"@),
        ViewerContentType::Video => Some("video"@),
        ViewerContentType::Invalid => None,
    }
}

impl ViewerContentType {
    /// Returns the content type that matches the file extension given,
    /// compared in lower case.
    pub fn from_ext(extension: &str) -> (r: ViewerContentType)
        ensures
            r == content_type_of(lowercase(extension@)),
    {
        let ext_str = to_lowercase(extension);
        content_type_of_lowercase(ext_str.as_str())
    }

    /// Name of the viewer stack page that shows this content type, or
    /// `None` for an invalid content type.
    pub fn stack_page_name(&self) -> (r: Option<&'static str>)
        ensures
            match r {
                Some(name) => stack_page_of(*self) == Some(name@),
                None => stack_page_of(*self) is None,
            },
    {
        match *self {
            ViewerContentType::VectorGraphics => Some("image"),
            ViewerContentType::Image => Some("image"),
            ViewerContentType::Video => Some("video"),
            ViewerContentType::Invalid => None,
        }
    }
}

/// How a file is put into the viewer, given the page that is visible.
#[derive(Debug, Clone, Copy, PartialEq, Eq, Structural)]
pub enum ContentFileAction {
    /// Hand the file to the picture widget.
    SetPictureFile,
    /// Load the image with the image loader and show its first frame.
    LoadImage,
    /// Hand the file to the video widget.
    SetVideoFile,
}

/// How a file is put into the viewer when the page named `page` is visible.
pub open spec fn content_file_action_of(page: Seq<char>) -> Option<ContentFileAction> {
    if page == "render"@ {
        Some(ContentFileAction::SetPictureFile)
    } else if page == "image"@ {
        Some(ContentFileAction::LoadImage)
    } else if page == "video"@ {
        Some(ContentFileAction::SetVideoFile)
    } else {
        None
    }
}

/// What the media viewer shows: its visible stack page, whether its
/// properties side bar and bottom sheet are open, and the state of its
/// properties action.
#[derive(Debug, Clone)]
pub struct MemoriesMediaViewer {
    pub visible_child_name: Option<String>,
    pub shows_sidebar: bool,
    pub bottom_sheet_open: bool,
    pub properties_action_state: bool,
}

impl MemoriesMediaViewer {
    /// A viewer showing the page `visible_child_name` (the stack's first
    /// page, when it has one), with its side bar and bottom sheet closed.
    pub fn new(visible_child_name: Option<String>) -> (v: Self)
        ensures
            v.visible_child_name == visible_child_name,
            !v.shows_sidebar,
            !v.bottom_sheet_open,
            !v.properties_action_state,
    {
        MemoriesMediaViewer {
            visible_child_name,
            shows_sidebar: false,
            bottom_sheet_open: false,
            properties_action_state: false,
        }
    }

    /// Shows the stack page of the content type; an invalid content type
    /// leaves the visible page as it is.
    pub fn set_content_type(&mut self, content_type: &ViewerContentType)
        ensures
            match stack_page_of(*content_type) {
                Some(name) => final(self).visible_child_name matches Some(v) && v@ == name,
                None => final(self).visible_child_name == old(self).visible_child_name,
            },
            final(self).shows_sidebar == old(self).shows_sidebar,
            final(self).bottom_sheet_open == old(self).bottom_sheet_open,
            final(self).properties_action_state == old(self).properties_action_state,
    {
        match content_type.stack_page_name() {
            Some(name) => {
                self.visible_child_name = Some(String::from_str(name));
            },
            None => {},
        }
    }

    /// How a file is put into the viewer given its visible page; `None`
    /// for a page that no content type has.
    pub fn set_content_file(&self) -> (r: Option<ContentFileAction>)
        requires
            self.visible_child_name is Some,
        ensures
            r == content_file_action_of(self.visible_child_name->0@),
    {
        let page: &str = match &self.visible_child_name {
            Some(name) => name.as_str(),
            None => "",
        };
        if str_eq(page, "render") {
            Some(ContentFileAction::SetPictureFile)
        } else if str_eq(page, "image") {
            Some(ContentFileAction::LoadImage)
        } else if str_eq(page, "video") {
            Some(ContentFileAction::SetVideoFile)
        } else {
            None
        }
    }

    /// Activates the properties action: the side bar is toggled, the
    /// bottom sheet is opened along with it when it was closed, and the
    /// action takes the side bar's new state.
    pub fn activate_properties(&mut self)
        ensures
            final(self).shows_sidebar == !old(self).shows_sidebar,
            final(self).bottom_sheet_open == (old(self).bottom_sheet_open || !old(self).shows_sidebar),
            final(self).properties_action_state == !old(self).shows_sidebar,
            final(self).visible_child_name == old(self).visible_child_name,
    {
        let new_state: bool = !self.shows_sidebar;
        self.shows_sidebar = new_state;
        if !self.bottom_sheet_open {
            self.bottom_sheet_open = new_state;
        }
        self.properties_action_state = new_state;
    }

    /// Records that the bottom sheet opened or closed. Returns whether the
    /// properties action is to be activated, which it is when the sheet closed.
    pub fn bottom_sheet_open_changed(&mut self, open: bool) -> (activate: bool)
        ensures
            activate == !open,
            final(self).bottom_sheet_open == open,
            final(self).shows_sidebar == old(self).shows_sidebar,
            final(self).properties_action_state == old(self).properties_action_state,
            final(self).visible_child_name == old(self).visible_child_name,
    {
        self.bottom_sheet_open = open;
        !open
    }
}

/// Seconds the viewer's overlay controls stay revealed after the last
/// pointer motion or touch.
pub const OVERLAY_TIMEOUT_SECS: u64 = 3;

/// The viewer's overlay controls (navigation and zoom): whether they are
/// revealed, and whether a timeout that hides them is pending.
#[derive(Debug, Clone, Copy, PartialEq, Eq, Structural)]
pub struct OverlayControls {
    pub revealed: bool,
    pub timeout_pending: bool,
}

impl OverlayControls {
    /// Hidden controls with no pending timeout.
    pub fn new() -> (o: Self)
        ensures
            !o.revealed,
            !o.timeout_pending,
    {
        OverlayControls { revealed: false, timeout_pending: false }
    }

    /// Reveals the controls and starts a new hiding timeout of
    /// `OVERLAY_TIMEOUT_SECS`. Returns whether a pending timeout has to be
    /// removed first.
    pub fn reveal_controls(&mut self) -> (remove_pending: bool)
        ensures
            remove_pending == old(self).timeout_pending,
            final(self).revealed,
            final(self).timeout_pending,
    {
        let remove_pending: bool = self.timeout_pending;
        self.revealed = true;
        self.timeout_pending = true;
        remove_pending
    }

    /// The hiding timeout elapsed: the controls are hidden and the timeout
    /// is no longer pending. It only elapses while it is pending.
    pub fn timeout_elapsed(&mut self)
        requires
            old(self).timeout_pending,
        ensures
            !final(self).revealed,
            !final(self).timeout_pending,
    {
        self.revealed = false;
        self.timeout_pending = false;
    }
}

} // verus!
