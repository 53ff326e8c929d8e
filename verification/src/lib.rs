//! The decision logic of a small set of `iced` components: a right-click
//! context menu, a text input that offers Cut / Copy / Paste / Select All
//! through that menu, a selectable piece of text, and a scrollable that
//! animates wheel scrolling.
//!
//! Each module holds the state machine of one component as plain values, with
//! its contract. The geometry, the drawing and the `iced` widget traits live
//! around it and hand it the events it decides on.

use vstd::prelude::*;

pub mod context_menu;
pub mod keyboard;
mod label;
pub mod selectable_text;
pub mod smooth_scrollable;
pub mod text_input;

pub use context_menu::Entry;
pub use smooth_scrollable::ScrollMode;

verus! {

/// `iced_core::Point`, a position in window coordinates. The menu state only
/// carries it from the place where a menu was opened to the place where it is
/// laid out.
#[verifier::external_type_specification]
#[verifier::external_body]
#[verifier::reject_recursive_types(T)]
pub struct ExPoint<T>(iced_core::Point<T>);

} // verus!
