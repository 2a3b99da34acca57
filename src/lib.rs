//! Locating a workspace's primary package and planning how its release
//! binaries are copied into a versioned publish tree.
pub mod metadata;
pub mod publish;
