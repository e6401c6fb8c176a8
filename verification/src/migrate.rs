//! Storage-schema migration for the embedding contract's own state.
//!
//! The embedding contract keeps a small piece of state of its own beside the
//! ledger. When its stored schema changes shape, the old value is read under
//! the old schema and rewritten under the new one.

use vstd::prelude::*;

verus! {

/// The contract state under the old schema: one narrow counter.
#[derive(Clone, Copy, Debug, PartialEq, Eq, Structural)]
pub struct ContractOld {
    /// The stored counter.
    pub foo: u32,
}

/// The contract state under the new schema: the counter, widened.
#[derive(Clone, Copy, Debug, PartialEq, Eq, Structural)]
pub struct ContractNew {
    /// The stored counter.
    pub bar: u64,
}

impl ContractNew {
    /// A fresh contract state, with the counter at zero.
    pub fn new() -> (r: Self)
        ensures
            r.bar == 0,
    {
        ContractNew { bar: 0 }
    }

    /// Read the stored counter.
    pub fn get_bar(&self) -> (r: u64)
        ensures
            r == self.bar,
    {
        self.bar
    }

    /// Rewrite a value stored under the old schema into the new one,
    /// preserving the counter.
    pub fn on_migrate(old_schema: ContractOld) -> (r: Self)
        ensures
            r.bar == old_schema.foo,
    {
        ContractNew { bar: old_schema.foo as u64 }
    }
}

} // verus!
