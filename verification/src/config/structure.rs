//! Descriptive metadata about the project structure kinds.
use vstd::prelude::*;

use crate::cli::StructureType;

verus! {

/// A structure kind's display name and a one-line description.
pub struct StructureInfo {
    pub name: &'static str,
    pub description: &'static str,
}

pub fn get_structure_info(structure: StructureType) -> (r: StructureInfo)
    ensures
        structure == StructureType::Maven ==> r.name@ == "Maven"@,
        structure == StructureType::SameFile ==> r.name@ == "Same File"@,
        structure == StructureType::Gradle ==> r.name@ == "Gradle"@,
        structure == StructureType::Flat ==> r.name@ == "Flat"@,
{
    match structure {
        StructureType::Maven => StructureInfo {
            name: "Maven",
            description: "Standard Maven structure with src/main and src/test directories",
        },
        StructureType::SameFile => StructureInfo {
            name: "Same File",
            description: "Tests in same file as source (e.g., Rust test modules)",
        },
        StructureType::Gradle => StructureInfo {
            name: "Gradle",
            description: "Gradle project structure (similar to Maven)",
        },
        StructureType::Flat => StructureInfo {
            name: "Flat",
            description: "Flat structure with src/ and tests/ directories",
        },
    }
}

} // verus!
