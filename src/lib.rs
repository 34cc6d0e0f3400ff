//! Carving of objects embedded in binary blobs: structural recognition of executables,
//! a sandboxed carving surface whose files never leave their root, and the dispatch and
//! recursion rules that decide which extractor runs and what is scanned again.
pub mod chroot;
pub mod dispatch;
pub mod extractor;
pub mod pe;
pub mod pe_extractor;
pub mod progress;
pub mod survey;
