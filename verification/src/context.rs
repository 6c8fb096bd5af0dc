//! Where the generator finds the API registry and where the tables go,
//! seen from the directory it is started in.

use crate::names::same_text;
use vstd::prelude::*;

verus! {

/// The directory of the generator inside the repository.
pub const GENERATOR_DIRECTORY: &'static str = "generator";

/// The file that receives the size table, inside the source directory.
pub const SIZE_TABLE_FILE: &'static str = "type_sizes.rs";

/// The file that receives the name table, inside the source directory.
pub const NAME_TABLE_FILE: &'static str = "type_names.rs";

/// The directory that the generator is started in.
#[derive(Debug, Clone, Copy, PartialEq, Eq)]
pub enum InvocationContext {
    /// The root of the repository.
    RepositoryRoot,
    /// The generator's own directory, one level below the root.
    GeneratorDirectory,
}

/// The context for a working directory whose last component is
/// `last_component`: the generator's directory where that component is its
/// name, the root of the repository in every other case.
pub open spec fn context_of(last_component: Option<Seq<char>>) -> InvocationContext {
    if last_component == Some(GENERATOR_DIRECTORY@) {
        InvocationContext::GeneratorDirectory
    } else {
        InvocationContext::RepositoryRoot
    }
}

/// The path of the registry file, relative to the working directory.
pub open spec fn registry_path_of(context: InvocationContext) -> Seq<char> {
    match context {
        InvocationContext::RepositoryRoot => "generator/Vulkan-Headers/registry/vk.xml"@,
        InvocationContext::GeneratorDirectory => "Vulkan-Headers/registry/vk.xml"@,
    }
}

/// The path of the directory that receives the tables, relative to the
/// working directory.
pub open spec fn source_directory_of(context: InvocationContext) -> Seq<char> {
    match context {
        InvocationContext::RepositoryRoot => "ash-structure-utils/src"@,
        InvocationContext::GeneratorDirectory => "../ash-structure-utils/src"@,
    }
}

impl InvocationContext {
    /// Tells the context from the last component of the working directory,
    /// where it has one.
    pub fn detect(last_component: Option<&str>) -> (context: InvocationContext)
        ensures
            context == context_of(
                match last_component {
                    Some(name) => Some(name@),
                    None => None,
                },
            ),
    {
        match last_component {
            Some(name) => {
                if same_text(name, GENERATOR_DIRECTORY) {
                    InvocationContext::GeneratorDirectory
                } else {
                    InvocationContext::RepositoryRoot
                }
            },
            None => InvocationContext::RepositoryRoot,
        }
    }

    /// The path of the registry file, relative to the working directory.
    pub fn registry_path(&self) -> (path: &'static str)
        ensures
            path@ == registry_path_of(*self),
    {
        match self {
            InvocationContext::RepositoryRoot => "generator/Vulkan-Headers/registry/vk.xml",
            InvocationContext::GeneratorDirectory => "Vulkan-Headers/registry/vk.xml",
        }
    }

    /// The path of the directory that receives the tables, relative to the
    /// working directory.
    pub fn source_directory(&self) -> (path: &'static str)
        ensures
            path@ == source_directory_of(*self),
    {
        match self {
            InvocationContext::RepositoryRoot => "ash-structure-utils/src",
            InvocationContext::GeneratorDirectory => "../ash-structure-utils/src",
        }
    }
}

} // verus!
