//! A scrollable, selectable list of track labels: the state behind a playlist
//! widget.
//!
//! The widget shows a fixed-size window over an ordered list of entries. It
//! keeps track of the entry that is playing, of the entry under the pointer,
//! and of how far the window has been scrolled, and it maps pointer positions
//! to entries. Rendering is left to the caller: `GraphicPlayList::draw` hands
//! back what has to be painted.

pub mod entry;
pub mod frame;
pub mod geometry;
pub mod model;
pub mod laws;
pub mod playlist;
