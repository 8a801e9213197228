//! Locate a folder with a given name relative to a starting directory by
//! searching a bounded number of levels up through ancestor directories,
//! down through descendant directories, or both in a chosen order.
//!
//! The search itself runs over a plain-value picture of the relevant part of
//! the filesystem: the listings of the starting directory's ancestors and a
//! bounded tree of its descendants. Callers (for instance a thin binary
//! adapter) gather that picture from the live filesystem and hand it in, so
//! every decision the search makes is verified.

pub mod laws;
pub mod model;
pub mod search;

pub use model::Error;
pub use model::FsTree;
pub use model::IoError;
pub use model::KidEntry;
pub use model::KidsDepth;
pub use model::Listing;
pub use model::ParentsDepth;
pub use model::Search;
pub use search::check_dir;
pub use search::check_kids;
pub use search::check_parents;
