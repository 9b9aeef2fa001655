use vstd::prelude::*;

verus! {

/// Options of the `auth` command.
#[derive(Debug, Clone, Copy, PartialEq, Eq, Structural)]
pub struct AuthOptions {
    /// Show the full key.
    pub show: bool,
}

/// Options of the `overview` command.
#[derive(Debug, Clone, Copy, PartialEq, Eq, Structural)]
pub struct OverviewOptions {}

/// Options of the `upload` command.
#[derive(Debug, Clone, Copy, PartialEq, Eq, Structural)]
pub struct UploadOptions {}

/// Options of the `init` command.
#[derive(Debug, Clone, Copy, PartialEq, Eq, Structural)]
pub struct InitOptions {}

/// Options of bucket deletion.
#[derive(Debug, Clone, Copy, PartialEq, Eq, Structural)]
pub struct DeleteOptions {}

} // verus!
