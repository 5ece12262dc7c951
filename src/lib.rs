//! Building requests for icons, cursors and bitmaps: resource names are
//! resolved and checked, options validated, and one request handed to the
//! platform's loader; the outcome comes back to be logged. Beside it: a
//! window-class builder, a leveled in-memory logger and the calendar
//! arithmetic that stamps its lines.
pub mod logger;
pub mod time;
pub mod text;
pub mod resource;
pub mod builder;
pub mod lemmas;
pub mod window_manager;
