//! Verified core of the Memories photo and video gallery.

pub mod application;
pub mod globals;
pub mod library;
pub mod library_view;
pub mod startup;
pub mod util;
pub mod utils;
pub mod window;
