//! Errors of the memory layer.

use vstd::prelude::*;
use crate::text::{decimal, push_decimal, push_text};

verus! {

/// An allocation of `size` bytes at alignment `align` failed.
#[derive(Clone, Copy, Debug, PartialEq, Eq, Structural)]
pub struct AllocError {
    /// The number of bytes that were asked for.
    pub size: usize,
    /// The alignment that was asked for.
    pub align: usize,
}

/// The message of an [`AllocError`] for `size` bytes.
pub open spec fn alloc_error_text(size: nat) -> Seq<char> {
    "Failed to allocate "@ + decimal(size) + " bytes of memory"@
}

impl AllocError {
    /// The message of the error.
    pub fn to_string(&self) -> (s: String)
        ensures
            s@ == alloc_error_text(self.size as nat),
    {
        let mut s = String::new();
        push_text(&mut s, "Failed to allocate ");
        push_decimal(&mut s, self.size as u64);
        push_text(&mut s, " bytes of memory");
        assert(s@ =~= alloc_error_text(self.size as nat));
        s
    }
}

/// Why an operation of the memory layer failed.
#[derive(Clone, Copy, Debug, PartialEq, Eq, Structural)]
pub enum Error {
    /// A capacity would not fit the address space.
    CapacityOverflow,
    /// A layout could not be described.
    LayoutError,
    /// A value could not be formatted.
    FormatError,
    /// The allocator failed.
    AllocError {
        /// The failure of the allocator.
        error: AllocError,
    },
}

} // verus!
