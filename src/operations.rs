use vstd::prelude::*;
use crate::felt::Felt;
use crate::memory::mem_read;
use vstd::arithmetic::power::pow;

verus! {

/// The closed set of instructions the processor dispatches on.
#[derive(Clone, Copy, Debug, PartialEq, Eq, Structural)]
pub enum Operation {
    /// Consumes the top element, which must equal ONE.
    Assert,
    /// Pushes the given element onto the stack.
    Push(Felt),
    /// Removes the top element.
    Drop,
    /// Pushes a copy of the top element.
    Dup,
    /// Exchanges the two top elements.
    Swap,
    /// Replaces the two top elements with their sum.
    Add,
    /// Replaces the two top elements with their product.
    Mul,
    /// Replaces the top element with its additive inverse.
    Neg,
    /// Replaces the top element with its multiplicative inverse.
    Inv,
    /// Replaces the two top elements with ONE if they are equal, ZERO otherwise.
    Eq,
    /// Replaces the address on top with the element stored at it.
    MemLoad,
    /// Stores the second element at the address on top, consuming both.
    MemStore,
}

/// The largest address a memory operation accepts.
pub const MAX_ADDRESS: u64 = 0xFFFF_FFFF;

/// A failure of one execution run, tagged with the step at which it happened.
#[derive(Clone, Copy, Debug, PartialEq, Eq, Structural)]
pub enum ExecutionError {
    /// The operation needed more stack elements than were present.
    StackUnderflow(Operation, usize),
    /// An `Assert` found a top element other than ONE.
    FailedAssertion(usize),
    /// An `Inv` found ZERO on top.
    DivideByZero(usize),
    /// A memory operation found an address above `MAX_ADDRESS` on top.
    InvalidMemoryAddress(Felt, usize),
}

/// How many elements an operation reads from the top of the stack.
pub open spec fn required_depth(op: Operation) -> nat {
    match op {
        Operation::Assert => 1,
        Operation::Push(_) => 0,
        Operation::Drop => 1,
        Operation::Dup => 1,
        Operation::Swap => 2,
        Operation::Add => 2,
        Operation::Mul => 2,
        Operation::Neg => 1,
        Operation::Inv => 1,
        Operation::Eq => 2,
        Operation::MemLoad => 1,
        Operation::MemStore => 2,
    }
}

/// How many elements an operation leaves in place of the ones it reads.
pub open spec fn produced_depth(op: Operation) -> nat {
    match op {
        Operation::Assert => 0,
        Operation::Push(_) => 1,
        Operation::Drop => 0,
        Operation::Dup => 2,
        Operation::Swap => 2,
        Operation::Add => 1,
        Operation::Mul => 1,
        Operation::Neg => 1,
        Operation::Inv => 1,
        Operation::Eq => 1,
        Operation::MemLoad => 1,
        Operation::MemStore => 0,
    }
}

/// The element with the given canonical value.
pub open spec fn felt_of(v: nat) -> Felt {
    choose|f: Felt| f@ == v
}

/// The effect of one operation, executed as step `step`, on a stack given
/// top first and on memory `mem`: the new stack with the memory write the
/// operation makes, if any; or the error the operation fails with.
pub open spec fn op_result(op: Operation, s: Seq<Felt>, mem: Map<u64, Felt>, step: nat) -> Result<
    (Seq<Felt>, Option<(u64, Felt)>),
    ExecutionError,
> {
    let m = crate::felt::MODULUS;
    if s.len() < required_depth(op) {
        Err(ExecutionError::StackUnderflow(op, step as usize))
    } else {
        match op {
            Operation::Assert => if s[0] == Felt::spec_one() {
                Ok((s.drop_first(), None))
            } else {
                Err(ExecutionError::FailedAssertion(step as usize))
            },
            Operation::Push(v) => Ok((seq![v] + s, None)),
            Operation::Drop => Ok((s.drop_first(), None)),
            Operation::Dup => Ok((seq![s[0]] + s, None)),
            Operation::Swap => Ok((s.update(0, s[1]).update(1, s[0]), None)),
            Operation::Add => Ok(
                (seq![felt_of((s[0]@ + s[1]@) % (m as nat))] + s.skip(2), None),
            ),
            Operation::Mul => Ok(
                (seq![felt_of((s[0]@ * s[1]@) % (m as nat))] + s.skip(2), None),
            ),
            Operation::Neg => Ok(
                (s.update(0, felt_of(((m - s[0]@) % (m as int)) as nat)), None),
            ),
            Operation::Inv => if s[0] == Felt::spec_zero() {
                Err(ExecutionError::DivideByZero(step as usize))
            } else {
                Ok((s.update(0, felt_of((pow(s[0]@ as int, (m - 2) as nat) % (m as int)) as nat)), None))
            },
            Operation::Eq => Ok(
                (
                    seq![if s[0] == s[1] { Felt::spec_one() } else { Felt::spec_zero() }]
                        + s.skip(2),
                    None,
                ),
            ),
            Operation::MemLoad => if s[0]@ > MAX_ADDRESS {
                Err(ExecutionError::InvalidMemoryAddress(s[0], step as usize))
            } else {
                Ok((s.update(0, mem_read(mem, s[0]@ as u64)), None))
            },
            Operation::MemStore => if s[0]@ > MAX_ADDRESS {
                Err(ExecutionError::InvalidMemoryAddress(s[0], step as usize))
            } else {
                Ok((s.skip(2), Some((s[0]@ as u64, s[1]))))
            },
        }
    }
}

} // verus!
