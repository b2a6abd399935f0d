//! The import/export dispatch table.
//!
//! Built once from the interface-description world when the component is
//! initialized, and immutable afterwards: an ordered list of function
//! descriptors on each side of the boundary. Indices are stable — the
//! generated shim code and the host both address functions by position —
//! so the table offers lookups and nothing that could move an entry.

use vstd::prelude::*;

use crate::error::ProtocolError;

verus! {

/// One function crossing the boundary, as the interface description
/// declares it.
#[derive(Debug)]
pub struct FuncDesc {
    /// The owning interface's name, or none for a bare world-level
    /// function.
    pub interface: Option<String>,
    /// The function's name within its interface.
    pub name: String,
    /// The declared parameter count.
    pub param_count: u32,
    /// Whether the function uses the asynchronous calling convention.
    pub is_async: bool,
    /// Whether the function declares a result value.
    pub has_result: bool,
}

/// The owning-interface name of the descriptor at position `i`, as a
/// character sequence.
pub open spec fn interface_key(funcs: Seq<FuncDesc>, i: int) -> Option<Seq<char>> {
    match funcs[i].interface {
        Some(s) => Some(s@),
        None => None,
    }
}

/// The function descriptors of one component world, imports and exports,
/// in declaration order. Immutable once constructed.
#[derive(Debug)]
pub struct DispatchTable {
    imports: Vec<FuncDesc>,
    exports: Vec<FuncDesc>,
}

impl DispatchTable {
    /// The imported functions, in declaration order.
    pub closed spec fn imports(&self) -> Seq<FuncDesc> {
        self.imports@
    }

    /// The exported functions, in declaration order.
    pub closed spec fn exports(&self) -> Seq<FuncDesc> {
        self.exports@
    }

    /// Build the table, fixing both orders for the component's lifetime.
    pub fn new(imports: Vec<FuncDesc>, exports: Vec<FuncDesc>) -> (t: DispatchTable)
        ensures
            t.imports() == imports@,
            t.exports() == exports@,
    {
        DispatchTable { imports, exports }
    }

    /// All import descriptors, for walking the table as a whole.
    pub fn import_descs(&self) -> (v: &Vec<FuncDesc>)
        ensures
            v@ == self.imports(),
    {
        &self.imports
    }

    /// All export descriptors, for walking the table as a whole.
    pub fn export_descs(&self) -> (v: &Vec<FuncDesc>)
        ensures
            v@ == self.exports(),
    {
        &self.exports
    }

    /// How many functions the world imports.
    pub fn import_count(&self) -> (n: usize)
        ensures
            n == self.imports().len(),
    {
        self.imports.len()
    }

    /// How many functions the world exports.
    pub fn export_count(&self) -> (n: usize)
        ensures
            n == self.exports().len(),
    {
        self.exports.len()
    }

    /// The import descriptor at `index`. An index outside the table is a
    /// protocol violation: the shims only ever name indices the table was
    /// generated with.
    pub fn import_func(&self, index: usize) -> (r: Result<&FuncDesc, ProtocolError>)
        ensures
            match r {
                Ok(d) => index < self.imports().len() && *d == self.imports()[index as int],
                Err(e) => {
                    &&& e == ProtocolError::UnknownImport
                    &&& index >= self.imports().len()
                },
            },
    {
        if index < self.imports.len() {
            Ok(&self.imports[index])
        } else {
            Err(ProtocolError::UnknownImport)
        }
    }

    /// The export descriptor at `index`. An index outside the table is a
    /// protocol violation.
    pub fn export_func(&self, index: usize) -> (r: Result<&FuncDesc, ProtocolError>)
        ensures
            match r {
                Ok(d) => index < self.exports().len() && *d == self.exports()[index as int],
                Err(e) => {
                    &&& e == ProtocolError::UnknownExport
                    &&& index >= self.exports().len()
                },
            },
    {
        if index < self.exports.len() {
            Ok(&self.exports[index])
        } else {
            Err(ProtocolError::UnknownExport)
        }
    }
}

} // verus!
