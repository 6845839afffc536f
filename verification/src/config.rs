//! The configuration the core is given, already parsed.
use crate::walker::FilterRules;
use vstd::prelude::*;

verus! {

/// The exclusion rules of a configuration.
#[derive(Clone, Debug)]
pub struct ExclusionConfiguration {
    pub excluded_files: Vec<String>,
    pub excluded_directories: Vec<String>,
    pub excluded_extensions: Vec<String>,
}

/// The inclusion rules of a configuration.
#[derive(Clone, Debug)]
pub struct InclusionConfiguration {
    pub included_files: Vec<String>,
    pub included_directories: Vec<String>,
    pub included_extensions: Vec<String>,
}

/// What to index: the root directories and the rules that filter their entries.
#[derive(Clone, Debug)]
pub struct IndexingConfiguration {
    pub directories: Vec<String>,
    pub exclusions: ExclusionConfiguration,
    pub inclusions: InclusionConfiguration,
}

/// A whole configuration document.
#[derive(Clone, Debug)]
pub struct VectaConfiguration {
    pub main: IndexingConfiguration,
}

impl IndexingConfiguration {
    /// Splits the configuration into the directories to index and the rules
    /// the traversal filters by. Nothing is added or dropped.
    pub fn into_parts(self) -> (parts: (Vec<String>, FilterRules))
        ensures
            parts.0 == self.directories,
            parts.1.included_files == self.inclusions.included_files,
            parts.1.included_directories == self.inclusions.included_directories,
            parts.1.included_extensions == self.inclusions.included_extensions,
            parts.1.excluded_files == self.exclusions.excluded_files,
            parts.1.excluded_directories == self.exclusions.excluded_directories,
            parts.1.excluded_extensions == self.exclusions.excluded_extensions,
    {
        let rules = FilterRules {
            included_files: self.inclusions.included_files,
            included_directories: self.inclusions.included_directories,
            included_extensions: self.inclusions.included_extensions,
            excluded_files: self.exclusions.excluded_files,
            excluded_directories: self.exclusions.excluded_directories,
            excluded_extensions: self.exclusions.excluded_extensions,
        };
        (self.directories, rules)
    }
}

} // verus!
