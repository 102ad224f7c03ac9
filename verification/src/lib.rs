//! The annotation model of a PDF coordinate picker: rectangular input fields
//! drawn over rendered pages, resized by dragging their edges, selected by
//! clicking, and replaced as a whole when another document is loaded.
//!
//! The model is free of any user interface. A front end paints what the
//! model holds, hands it what the pointer did in each frame, and runs the
//! load job; the model decides what changes. All coordinates are whole
//! render pixels: a front end that works with fractions rounds them.
//!
//! - [`geometry`]: positions, rectangles, and the transform from screen
//!   space to a page's own space.
//! - [`export_scale`]: positions as they would be on a page of another size.
//! - [`pdf_text_input`]: one field and the state machine that resizes it.
//! - [`field_arena`]: the fields of a page under ids that are never reused.
//! - [`page`]: one page, and what a click or a hover on its canvas does.
//! - [`pdf_load`]: what a load job can end in.
//! - [`app`]: the whole state: pages, selection, and the load job.

pub mod app;
pub mod export_scale;
pub mod field_arena;
pub mod geometry;
pub mod page;
pub mod pdf_load;
pub mod pdf_text_input;

pub use app::PdfCoordPickerApp;
