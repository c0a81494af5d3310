//! Frame-ownership handoff for a real-time media transport engine.
//!
//! The library mediates zero-copy exchange of fixed-size media frames between
//! an application thread and the transport engine's pacer thread.  Each
//! session owns a bounded ring of frame slots with a tri-state ownership tag
//! per slot (`Free`, `Ready`, `InUse`), two independently owned cursors that
//! advance modulo the ring depth, and a wake gate that lets the application
//! block with a bounded timeout while the pacer side never blocks at all.

pub mod audio;
mod bytes;
pub mod convert;
pub mod error;
pub mod mtl;
pub mod netdev;
pub mod session;
pub mod version;
pub mod video;
pub mod wake;
