//! Reflection over a decoded SPIR-V module: symbol names, type descriptors,
//! capability requirements and entry point interfaces.
use vstd::prelude::*;

pub mod capability;
pub mod entry_point;
pub mod module;
pub mod names;
pub mod types;

verus! {

/// What can go wrong while reflecting over a module.
#[derive(Clone, Copy, Debug, PartialEq, Eq, Structural)]
pub enum Error {
    /// A referenced id (a type, a constant) has no matching instruction.
    MalformedModule(u32),
    /// A declared capability or an execution model outside the supported set.
    UnsupportedConstruct,
    /// Resolution kept going past this id: the type graph has a cycle.
    CyclicType(u32),
}

} // verus!
