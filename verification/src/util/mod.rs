pub mod enums;
pub mod format;
pub mod io_kind;
pub mod listing;
pub mod seq;
