//! Desktop-layer window embedding for a single-window shell application.
//!
//! The core of this crate is the attachment technique that turns the
//! application's top-level window into a wallpaper-like widget: locating the
//! OS shell's root container, asking it to materialize a background layer,
//! picking the right background container out of a Z-order enumeration, and
//! stripping the window's taskbar presence.  Every step is modelled as plain
//! data so that the selection rule, the style arithmetic and the orchestration
//! state machine are fully verified; the thread-affine OS calls themselves are
//! performed by the embedding application, which feeds their outcomes back in
//! as events.

pub mod attach;
pub mod deep_link;
pub mod error;
pub mod finder;
pub mod handle;
pub mod style;

pub use crate::error::AttachError;
