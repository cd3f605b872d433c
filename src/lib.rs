//! Runtime-version manager for Neovim: the selection state kept in three
//! slots, the release and asset resolution, and the decisions of the shim
//! that stands in for the real executable.

pub mod text;
pub mod shim;
pub mod launch;
pub mod github;
