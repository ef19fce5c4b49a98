//! An in-memory, undoable annotation store for screenplay productions.
//!
//! The core is a set of keyed entity collections (shots, tags, tagged
//! text regions) mutated through reversible commands, with a bounded
//! undo/redo history and lazy repair of dangling tag references.

/// The keyed entity collection that guarantees identity uniqueness,
/// and the error taxonomy shared by every store operation.
pub mod store;

mod ids;

/// Structs and Methods for storing types of media that may be linked
/// or embedded into the ShotLiner document.
pub mod multimedia;

/// Structs for exportable data, like Shot Lists.
pub mod reports;

/// Structs to represent Production specific things,
/// such as Shots, ShotSetups, and Departments.
pub mod production;

/// The ShotLiner document itself: the screenplay, the annotation map
/// and the tag-reference resolver.
pub mod shotliner_document;

/// Reversible commands and the cursor-addressed command history.
pub mod commands;
