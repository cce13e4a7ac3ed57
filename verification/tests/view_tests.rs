use memories::globals::{grid_desktop_zoom_levels, grid_mobile_zoom_levels, DEFAULT_GRID_WIDGET_HEIGHT};
use memories::library::media_cell::{bind_cell, opens_viewer, ThumbnailSource};
use memories::library::media_grid::{grid_cell_plan, grid_cell_plan_lowercase, MemoriesMediaGridView};
use memories::library::media_viewer::{
    content_type_of_lowercase, str_eq, ContentFileAction, MemoriesMediaViewer, OverlayControls, ViewerContentType,
    OVERLAY_TIMEOUT_SECS,
};
use memories::library::properties::{ContentDetails, MemoriesProperties, PictureDetails, VideoDetails};
use memories::library::{binary_check_description, LibraryViewMode, MemoriesLibraryView};
use memories::library_view::{
    items_label, library_directory, models_loaded_page, thumbnail_source, thumbnail_source_lowercase,
};
use memories::util::io_kind::IoErrorKind;

#[test]
fn zoom_levels_tables() {
    assert_eq!(grid_mobile_zoom_levels(), vec![(5, 66), (3, 114), (2, 173)]);
    assert_eq!(grid_desktop_zoom_levels(), vec![(10, 112), (5, 234)]);
}

#[test]
fn grid_starts_at_least_zoomed_in_mobile_level() {
    let v = MemoriesMediaGridView::new(true);
    assert!(v.hardware_accel);
    assert!(!v.grid_desktop_zoom);
    assert_eq!(v.grid_widget_height, DEFAULT_GRID_WIDGET_HEIGHT);
    assert_eq!((v.min_columns, v.max_columns), (5, 5));
    assert!(v.zoom_in_sensitive);
    assert!(!v.zoom_out_sensitive);
    assert_eq!(v.get_zoom_levels(), grid_mobile_zoom_levels());
}

#[test]
fn grid_zooms_in_level_by_level() {
    let mut v = MemoriesMediaGridView::new(false);
    v.zoom_in_callback();
    assert_eq!((v.min_columns, v.max_columns, v.grid_widget_height), (3, 3, 114));
    assert!(v.zoom_in_sensitive && v.zoom_out_sensitive);
    v.zoom_in_callback();
    assert_eq!((v.min_columns, v.max_columns, v.grid_widget_height), (2, 2, 173));
    assert!(!v.zoom_in_sensitive && v.zoom_out_sensitive);
    let at_last = v;
    v.zoom_in_callback();
    assert_eq!(v, at_last);
}

#[test]
fn grid_zoom_in_then_out_restores_level() {
    let start = MemoriesMediaGridView::new(false);
    let mut v = start;
    v.zoom_in_callback();
    v.zoom_out_callback();
    assert_eq!(v, start);
    let mut w = start;
    w.set_grid_zoom_level(1);
    let middle = w;
    w.zoom_out_callback();
    w.zoom_in_callback();
    assert_eq!(w, middle);
}

#[test]
fn grid_zoom_out_at_first_level_changes_nothing() {
    let start = MemoriesMediaGridView::new(false);
    let mut v = start;
    v.zoom_out_callback();
    assert_eq!(v, start);
}

#[test]
fn grid_desktop_levels() {
    let mut v = MemoriesMediaGridView::new(false);
    v.set_grid_zoom_level(1);
    v.set_grid_desktop_zoom(true);
    assert!(v.grid_desktop_zoom);
    assert!(v.zoom_in_sensitive && !v.zoom_out_sensitive);
    assert_eq!((v.min_columns, v.max_columns, v.grid_widget_height), (3, 3, 114));
    assert_eq!(v.get_zoom_levels(), grid_desktop_zoom_levels());
    v.set_grid_zoom_level(1);
    assert_eq!((v.min_columns, v.max_columns, v.grid_widget_height), (5, 5, 234));
    assert!(!v.zoom_in_sensitive && v.zoom_out_sensitive);
    v.gallery_grid_zoom(false);
    assert_eq!((v.min_columns, v.max_columns, v.grid_widget_height), (10, 10, 112));
    assert!(v.zoom_in_sensitive && !v.zoom_out_sensitive);
}

#[test]
fn grid_cell_plans() {
    let svg = grid_cell_plan("svg");
    assert_eq!(svg.thumbnail, ThumbnailSource::OriginalFile);
    assert_eq!(svg.content_type, ViewerContentType::VectorGraphics);
    assert!(svg.load_picture_details);
    let mp4 = grid_cell_plan("mp4");
    assert_eq!(mp4.thumbnail, ThumbnailSource::Generated);
    assert_eq!(mp4.content_type, ViewerContentType::Video);
    assert!(!mp4.load_picture_details);
    let gif = grid_cell_plan("gif");
    assert_eq!(gif.content_type, ViewerContentType::Video);
    assert!(!gif.load_picture_details);
    assert!(!grid_cell_plan("webm").load_picture_details);
    assert!(!grid_cell_plan("mkv").load_picture_details);
    assert!(!grid_cell_plan("avi").load_picture_details);
    assert!(grid_cell_plan("png").load_picture_details);
    assert_eq!(grid_cell_plan("txt").content_type, ViewerContentType::Invalid);
}

#[test]
fn grid_cell_plans_compare_lower_case() {
    let svg = grid_cell_plan("SVG");
    assert_eq!(svg.thumbnail, ThumbnailSource::OriginalFile);
    assert_eq!(svg.content_type, ViewerContentType::VectorGraphics);
    let mov = grid_cell_plan("MOV");
    assert_eq!(mov.content_type, ViewerContentType::Video);
    assert!(!mov.load_picture_details);
    let exact = grid_cell_plan_lowercase("MOV");
    assert_eq!(exact.content_type, ViewerContentType::Invalid);
    assert!(exact.load_picture_details);
    assert_eq!(grid_cell_plan_lowercase("png").content_type, ViewerContentType::Image);
}

#[test]
fn content_type_from_extension_ignores_case() {
    assert_eq!(ViewerContentType::from_ext("PNG"), ViewerContentType::Image);
    assert_eq!(ViewerContentType::from_ext("Jpeg"), ViewerContentType::Image);
    assert_eq!(ViewerContentType::from_ext("SVG"), ViewerContentType::VectorGraphics);
    assert_eq!(ViewerContentType::from_ext("Mp4"), ViewerContentType::Video);
    assert_eq!(ViewerContentType::from_ext("heif"), ViewerContentType::Image);
    assert_eq!(ViewerContentType::from_ext("txt"), ViewerContentType::Invalid);
    assert_eq!(ViewerContentType::from_ext(""), ViewerContentType::Invalid);
}

#[test]
fn lowercase_content_type_is_exact() {
    assert_eq!(content_type_of_lowercase("webm"), ViewerContentType::Video);
    assert_eq!(content_type_of_lowercase("PNG"), ViewerContentType::Invalid);
    assert!(str_eq("abc", "abc"));
    assert!(!str_eq("abc", "abd"));
}

#[test]
fn stack_pages_of_content_types() {
    assert_eq!(ViewerContentType::VectorGraphics.stack_page_name(), Some("image"));
    assert_eq!(ViewerContentType::Image.stack_page_name(), Some("image"));
    assert_eq!(ViewerContentType::Video.stack_page_name(), Some("video"));
    assert_eq!(ViewerContentType::Invalid.stack_page_name(), None);
}

#[test]
fn viewer_switches_pages_by_content_type() {
    let mut v = MemoriesMediaViewer::new(Some(String::from("render")));
    assert_eq!(v.set_content_file(), Some(ContentFileAction::SetPictureFile));
    v.set_content_type(&ViewerContentType::Video);
    assert_eq!(v.visible_child_name.as_deref(), Some("video"));
    assert_eq!(v.set_content_file(), Some(ContentFileAction::SetVideoFile));
    v.set_content_type(&ViewerContentType::Invalid);
    assert_eq!(v.visible_child_name.as_deref(), Some("video"));
    v.set_content_type(&ViewerContentType::Image);
    assert_eq!(v.set_content_file(), Some(ContentFileAction::LoadImage));
    let other = MemoriesMediaViewer::new(Some(String::from("other")));
    assert_eq!(other.set_content_file(), None);
}

#[test]
fn viewer_properties_toggle_sidebar_and_sheet() {
    let mut v = MemoriesMediaViewer::new(None);
    assert!(!v.shows_sidebar && !v.bottom_sheet_open && !v.properties_action_state);
    v.activate_properties();
    assert!(v.shows_sidebar && v.bottom_sheet_open && v.properties_action_state);
    v.activate_properties();
    assert!(!v.shows_sidebar && !v.properties_action_state);
    assert!(v.bottom_sheet_open);
    assert!(v.bottom_sheet_open_changed(false));
    assert!(!v.bottom_sheet_open);
    assert!(!v.bottom_sheet_open_changed(true));
    assert!(v.bottom_sheet_open);
}

#[test]
fn cell_bind_plans() {
    let vector = bind_cell(ViewerContentType::VectorGraphics).unwrap();
    assert_eq!(vector.thumbnail, ThumbnailSource::OriginalFile);
    assert!(vector.load_picture_details);
    let image = bind_cell(ViewerContentType::Image).unwrap();
    assert_eq!(image.thumbnail, ThumbnailSource::Generated);
    assert!(image.load_picture_details);
    let video = bind_cell(ViewerContentType::Video).unwrap();
    assert_eq!(video.thumbnail, ThumbnailSource::Generated);
    assert!(!video.load_picture_details);
    assert_eq!(bind_cell(ViewerContentType::Invalid), None);
}

#[test]
fn cell_press_opens_viewer_only_from_window() {
    assert!(opens_viewer(true, "window"));
    assert!(!opens_viewer(true, "viewer"));
    assert!(!opens_viewer(false, "window"));
}

#[test]
fn picture_dimensions_height_first() {
    let d = PictureDetails { width: 1920, height: 1080 };
    assert_eq!(d.pretty_print_dimensions(), "1080 x 1920");
    assert_eq!(PictureDetails { width: 0, height: 7 }.pretty_print_dimensions(), "7 x 0");
}

#[test]
fn properties_rows_for_picture() {
    let mut p = MemoriesProperties::new();
    p.folder = Some(String::from("old"));
    let details = ContentDetails::Picture(PictureDetails { width: 640, height: 480 });
    p.update_details("jpg", &details, Some(String::from("2.1 MB")));
    assert_eq!(p.format.as_deref(), Some("JPG"));
    assert_eq!(p.dimensions.as_deref(), Some("480 x 640"));
    assert_eq!(p.size.as_deref(), Some("2.1 MB"));
    assert_eq!(p.folder, None);
    assert_eq!(p.iso, None);
}

#[test]
fn properties_rows_for_video_and_missing_details() {
    let mut p = MemoriesProperties::new();
    p.dimensions = Some(String::from("1 x 1"));
    p.update_details("mp4", &ContentDetails::Video(VideoDetails), None);
    assert_eq!(p.format.as_deref(), Some("MP4"));
    assert_eq!(p.dimensions, None);
    assert_eq!(p.size, None);
    p.update_details("webm", &ContentDetails::default(), None);
    assert_eq!(p.format.as_deref(), Some("WEBM"));
    assert_eq!(ContentDetails::default(), ContentDetails::Missing);
}

#[test]
fn properties_rows_clear_and_update() {
    let mut p = MemoriesProperties::new();
    assert!(MemoriesProperties::update_row(&mut p.make_model, Some(String::from("Camera"))));
    assert_eq!(p.make_model.as_deref(), Some("Camera"));
    p.update_fileinfo("heic");
    assert_eq!(p.format.as_deref(), Some("HEIC"));
    assert_eq!(p.make_model.as_deref(), Some("Camera"));
    assert!(!MemoriesProperties::update_row(&mut p.make_model, None));
    assert_eq!(p.make_model, None);
    p.clear_rows();
    assert_eq!(p.format, None);
}

#[test]
fn library_view_placeholder_pages() {
    let mut v = MemoriesLibraryView::new();
    assert_eq!(v.view_mode, LibraryViewMode::Library);
    assert_eq!(LibraryViewMode::default(), LibraryViewMode::Library);
    assert_eq!(v.placeholder_page(), "placeholder_page");
    v.set_view_mode(LibraryViewMode::Album);
    assert_eq!(v.placeholder_page(), "album_placeholder_page");
    v.set_view_mode(LibraryViewMode::Favorites);
    assert_eq!(v.placeholder_page(), "favorites_placeholder_page");
}

#[test]
fn library_view_after_models_loaded() {
    let mut v = MemoriesLibraryView::new();
    v.set_view_mode(LibraryViewMode::Album);
    let empty = v.models_loaded(0, true);
    assert_eq!(empty.page, "album_placeholder_page");
    assert!(!empty.stop_spinner);
    assert!(!empty.announce_fresh_cache);
    let full = v.models_loaded(12, true);
    assert_eq!(full.page, "gallery_page");
    assert!(full.stop_spinner);
    assert!(full.announce_fresh_cache);
    assert!(!v.models_loaded(12, false).announce_fresh_cache);
}

#[test]
fn older_library_view_decisions() {
    assert_eq!(models_loaded_page(0), ("placeholder_page", false));
    assert_eq!(models_loaded_page(3), ("gallery_page", true));
    assert_eq!(items_label(12, "items"), "12 items");
    assert_eq!(items_label(0, "items"), "0 items");
    assert_eq!(library_directory(Some(String::from("/home/u")), "Pictures"), Some(String::from("/home/u/Pictures")));
    assert_eq!(library_directory(None, "Pictures"), None);
    assert_eq!(thumbnail_source("svg"), ThumbnailSource::OriginalFile);
    assert_eq!(thumbnail_source("png"), ThumbnailSource::Generated);
    assert_eq!(thumbnail_source("Svg"), ThumbnailSource::OriginalFile);
    assert_eq!(thumbnail_source_lowercase("Svg"), ThumbnailSource::Generated);
}

#[test]
fn ffmpeg_check_descriptions() {
    assert_eq!(
        binary_check_description(IoErrorKind::NotFound),
        Some("{BIN} was not found on your system. {APP} requires {BIN} to run.")
    );
    assert_eq!(
        binary_check_description(IoErrorKind::PermissionDenied),
        Some("{APP} does not have the sufficient permissions to run {BIN}.")
    );
    assert_eq!(binary_check_description(IoErrorKind::Other), None);
}

#[test]
fn overlay_controls_hide_after_timeout() {
    assert_eq!(OVERLAY_TIMEOUT_SECS, 3);
    let mut o = OverlayControls::new();
    assert!(!o.revealed && !o.timeout_pending);
    assert!(!o.reveal_controls());
    assert!(o.revealed && o.timeout_pending);
    assert!(o.reveal_controls());
    o.timeout_elapsed();
    assert!(!o.revealed && !o.timeout_pending);
}
