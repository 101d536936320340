//! The signature configuration: which byte patterns to look for in which
//! module, and how to turn the place found into an address.
use vstd::prelude::*;

verus! {

/// How to find one address by signature.
#[derive(Debug)]
pub struct Signature {
    /// The name the result is stored under.
    pub name: String,
    /// Added to the address at the end.
    pub extra: isize,
    /// Whether the result stays relative to the module base.
    pub relative: bool,
    /// The module whose bytes are searched.
    pub module: String,
    /// For each entry, a pointer is read at the current address plus the
    /// entry, and becomes the new (module-relative) address.
    pub offsets: Vec<isize>,
    /// The byte pattern (see `findpattern`).
    pub pattern: String,
    /// Whether the address holds a 32-bit displacement relative to the
    /// instruction that follows it.
    pub rip_relative: bool,
    /// Added before the displacement is read.
    pub rip_offset: isize,
}

/// A network variable to look up in the receive tables.
#[derive(Debug)]
pub struct Netvar {
    pub name: String,
    pub prop: String,
    pub table: String,
    pub offset: isize,
}

/// The whole signature configuration.
#[derive(Debug)]
pub struct HConfig {
    pub executable: String,
    pub filename: String,
    pub signatures: Vec<Signature>,
    pub netvars: Vec<Netvar>,
}

} // verus!
