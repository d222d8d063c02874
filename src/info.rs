//! Information about a project and its components.

use vstd::prelude::*;

verus! {

/// Information shared by all the components of a project.
#[derive(Clone, Copy, Debug)]
pub struct ProjectInformation {
    /// Project name.
    pub name: &'static str,
    /// Version.
    pub version: &'static str,
    /// Banner shown at startup.
    pub banner: &'static str,
}

/// Information about one component of a project.
#[derive(Clone, Copy, Debug)]
pub struct ComponentInformation {
    /// The project the component belongs to.
    pub project: &'static ProjectInformation,
    /// Component name.
    pub name: &'static str,
    /// Version.
    pub version: &'static str,
    /// Description.
    pub description: &'static str,
}

} // verus!
