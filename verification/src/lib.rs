//! Core of an image-annotation editor: the shape model, exact geometric
//! queries (hit-testing, bounds, handles), the pointer-driven interaction
//! state machine, and a linear undo/redo history over annotation snapshots.
//!
//! All stored geometry lives in a bounded integer image space (see
//! [`geom::COORD_LIMIT`]); rendering layers convert to and from their own
//! floating-point screen space at the boundary.

pub mod annotation;
pub mod geom;
pub mod history;
pub mod interact;
pub mod layout;
pub mod platform;
pub mod state;
pub mod watcher;

pub use geom::Point;
pub use geom::RectData;
