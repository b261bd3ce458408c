//! Instructions of the virtual machine and the kinds of function entries.

use vstd::prelude::*;

verus! {

/// How a function is called.
#[derive(Clone, Copy, Debug, PartialEq, Eq, Structural)]
pub enum Call {
    /// The function runs to completion.
    Immediate,
    /// The function produces a generator.
    Generator,
    /// The function produces a stream.
    Stream,
    /// The function produces a future.
    Async,
}

/// One instruction of the final instruction stream. Jumps hold absolute
/// offsets into that stream.
#[derive(Clone, Copy, Debug, PartialEq, Eq, Structural)]
pub enum Inst {
    /// Negate the value on top of the stack.
    Not,
    /// Pop the value on top of the stack.
    Pop,
    /// Pop the given number of values.
    PopN { count: usize },
    /// Copy the value at the given stack offset to the top.
    Copy { offset: usize },
    /// Push an integer.
    Integer { number: i64 },
    /// Push a boolean.
    Bool { value: bool },
    /// Push the static string in the given slot.
    String { slot: usize },
    /// Push the static byte string in the given slot.
    Bytes { slot: usize },
    /// Return the value on top of the stack.
    Return,
    /// Return the unit value.
    ReturnUnit,
    /// Jump to the given offset.
    Jump { jump: usize },
    /// Jump if the value on top of the stack is true.
    JumpIf { jump: usize },
    /// Jump if the value on top of the stack is true, else pop it.
    JumpIfOrPop { jump: usize },
    /// Jump if the value on top of the stack is false, else pop it.
    JumpIfNotOrPop { jump: usize },
    /// Jump if the branch on top of the stack is the given one.
    JumpIfBranch { branch: i64, jump: usize },
    /// Pop the given number of values and jump if the condition is false.
    PopAndJumpIfNot { count: usize, jump: usize },
    /// Advance the iterator at `offset`; jump when it is exhausted.
    IterNext { offset: usize, jump: usize },
    /// Call the function with the given fingerprint, looked up at run time.
    Call { hash: crate::hash::Hash, args: usize },
    /// Call the function at the given offset of this unit.
    CallOffset { offset: usize, call: Call, args: usize },
}

/// An entry of the function table.
#[derive(Clone, Copy, Debug, PartialEq, Eq, Structural)]
pub enum UnitFn {
    /// A function at an offset of the instruction stream.
    Offset { offset: usize, call: Call, args: usize },
    /// The constructor of an empty struct.
    EmptyStruct { hash: crate::hash::Hash },
    /// The constructor of a tuple struct with `args` fields.
    TupleStruct { hash: crate::hash::Hash, args: usize },
    /// The constructor of an empty variant.
    UnitVariant { hash: crate::hash::Hash },
    /// The constructor of a tuple variant with `args` fields.
    TupleVariant { hash: crate::hash::Hash, args: usize },
}

/// The instruction that a call lowers to: a call by offset where the table
/// holds the callee at an offset, else the call itself.
pub open spec fn lowered_call(
    functions: Map<u64, UnitFn>,
    hash: crate::hash::Hash,
    args: usize,
) -> Inst {
    if functions.contains_key(hash.0) {
        match functions[hash.0] {
            UnitFn::Offset { offset, call, args: _ } => Inst::CallOffset { offset, call, args },
            _ => Inst::Call { hash, args },
        }
    } else {
        Inst::Call { hash, args }
    }
}

/// The instruction that a raw instruction lowers to. Only calls change.
pub open spec fn lowered_raw(functions: Map<u64, UnitFn>, raw: Inst) -> Inst {
    match raw {
        Inst::Call { hash, args } => lowered_call(functions, hash, args),
        _ => raw,
    }
}

} // verus!
