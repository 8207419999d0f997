//! The document model and link-navigation engine of a terminal hypertext
//! viewer widget.
//!
//! A rendering strategy — any implementation of [`Renderer`] — turns raw
//! content into a [`RenderedDocument`]: lines of styled text in which every
//! hyperlink is registered, in reading order, with its position and width.
//! The document's [`LinkHandler`] implements two-dimensional keyboard
//! navigation between those links: horizontal moves stay within a row,
//! vertical moves scan the insertion order for the first link on another row.
//! [`MarkupView`] caches the rendered document keyed by the available width,
//! re-rendering only when the width changes, and preserves the focused link
//! across re-renders whenever its index is still valid.

pub mod document;
pub mod geom;
pub mod html;
pub mod nav;
pub mod style;
pub mod view;

pub use document::{Element, RenderedDocument, RenderedElement};
pub use geom::{Rect, Vec2};
pub use nav::{Absolute, Direction, Link, LinkHandler, Relative};
pub use style::Style;
pub use view::{EventOutcome, Key, MarkupView, Renderer};
