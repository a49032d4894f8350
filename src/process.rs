use vstd::prelude::*;
use crate::felt::{lemma_felt_eq, Felt};
use crate::memory::{apply_write, Memory};
use crate::operations::{op_result, felt_of, ExecutionError, Operation, MAX_ADDRESS};
use crate::stack::OperandStack;

verus! {

/// The machine state that one run mutates, one operation per step.
pub struct Process {
    pub stack: OperandStack,
    pub memory: Memory,
    /// The number of operations dispatched so far.
    pub step: usize,
}

/// `after` and `r` are what executing `op` as step `step` from `before`
/// gives: on success the new stack, with the memory write made (which `r`
/// reports); on failure the error, with stack and memory left as they were.
pub open spec fn effect(
    op: Operation,
    step: nat,
    before: Process,
    after: Process,
    r: Result<Option<(u64, Felt)>, ExecutionError>,
) -> bool {
    match op_result(op, before.stack@, before.memory@, step) {
        Ok((s, w)) => r == Ok::<Option<(u64, Felt)>, ExecutionError>(w) && after.stack@ == s
            && after.memory@ == apply_write(before.memory@, w),
        Err(e) => r == Err::<Option<(u64, Felt)>, ExecutionError>(e) && after.stack@
            == before.stack@ && after.memory@ == before.memory@,
    }
}

/// `r` read as the outcome of a step that writes no memory.
pub open spec fn unit_result(r: Result<(), ExecutionError>) -> Result<
    Option<(u64, Felt)>,
    ExecutionError,
> {
    match r {
        Ok(()) => Ok(None),
        Err(e) => Err(e),
    }
}

impl Process {
    /// A process at step 0 whose stack holds `inputs`, the first on top.
    pub fn new(inputs: &Vec<Felt>) -> (r: Process)
        ensures
            r.stack@ == inputs@,
            r.memory@ == Map::<u64, Felt>::empty(),
            r.step == 0,
    {
        Process { stack: OperandStack::new(inputs), memory: Memory::new(), step: 0 }
    }

    /// Consumes the top element if it equals ONE; fails with an assertion
    /// failure at the current step otherwise, and with a stack underflow on
    /// an empty stack.
    pub fn op_assert(&mut self) -> (r: Result<(), ExecutionError>)
        ensures
            final(self).step == old(self).step,
            effect(Operation::Assert, old(self).step as nat, *old(self), *final(self), unit_result(r)),
    {
        self.stack.check_depth(1, Operation::Assert, self.step)?;
        if self.stack.get(0).unwrap() != Felt::one() {
            return Err(ExecutionError::FailedAssertion(self.step));
        }
        self.stack.shift_left(1);
        Ok(())
    }

    fn op_push(&mut self, value: Felt) -> (r: Result<Option<(u64, Felt)>, ExecutionError>)
        ensures
            final(self).step == old(self).step,
            effect(Operation::Push(value), old(self).step as nat, *old(self), *final(self), r),
    {
        self.stack.shift_right(0);
        self.stack.set(0, value);
        assert(self.stack@ =~= seq![value] + old(self).stack@);
        Ok(None)
    }

    fn op_drop(&mut self) -> (r: Result<Option<(u64, Felt)>, ExecutionError>)
        ensures
            final(self).step == old(self).step,
            effect(Operation::Drop, old(self).step as nat, *old(self), *final(self), r),
    {
        self.stack.check_depth(1, Operation::Drop, self.step)?;
        self.stack.shift_left(1);
        Ok(None)
    }

    fn op_dup(&mut self) -> (r: Result<Option<(u64, Felt)>, ExecutionError>)
        ensures
            final(self).step == old(self).step,
            effect(Operation::Dup, old(self).step as nat, *old(self), *final(self), r),
    {
        self.stack.check_depth(1, Operation::Dup, self.step)?;
        let a = self.stack.get(0).unwrap();
        self.stack.shift_right(0);
        self.stack.set(0, a);
        assert(self.stack@ =~= seq![a] + old(self).stack@);
        Ok(None)
    }

    fn op_swap(&mut self) -> (r: Result<Option<(u64, Felt)>, ExecutionError>)
        ensures
            final(self).step == old(self).step,
            effect(Operation::Swap, old(self).step as nat, *old(self), *final(self), r),
    {
        self.stack.check_depth(2, Operation::Swap, self.step)?;
        let a = self.stack.get(0).unwrap();
        let b = self.stack.get(1).unwrap();
        self.stack.set(0, b);
        self.stack.set(1, a);
        Ok(None)
    }

    fn op_add(&mut self) -> (r: Result<Option<(u64, Felt)>, ExecutionError>)
        ensures
            final(self).step == old(self).step,
            effect(Operation::Add, old(self).step as nat, *old(self), *final(self), r),
    {
        self.stack.check_depth(2, Operation::Add, self.step)?;
        let a = self.stack.get(0).unwrap();
        let b = self.stack.get(1).unwrap();
        let c = a.add(b);
        proof {
            lemma_felt_eq(c, felt_of(c@));
        }
        self.stack.set(0, c);
        self.stack.shift_left(2);
        assert(self.stack@ =~= seq![c] + old(self).stack@.skip(2));
        Ok(None)
    }

    fn op_mul(&mut self) -> (r: Result<Option<(u64, Felt)>, ExecutionError>)
        ensures
            final(self).step == old(self).step,
            effect(Operation::Mul, old(self).step as nat, *old(self), *final(self), r),
    {
        self.stack.check_depth(2, Operation::Mul, self.step)?;
        let a = self.stack.get(0).unwrap();
        let b = self.stack.get(1).unwrap();
        let c = a.mul(b);
        proof {
            lemma_felt_eq(c, felt_of(c@));
        }
        self.stack.set(0, c);
        self.stack.shift_left(2);
        assert(self.stack@ =~= seq![c] + old(self).stack@.skip(2));
        Ok(None)
    }

    fn op_neg(&mut self) -> (r: Result<Option<(u64, Felt)>, ExecutionError>)
        ensures
            final(self).step == old(self).step,
            effect(Operation::Neg, old(self).step as nat, *old(self), *final(self), r),
    {
        self.stack.check_depth(1, Operation::Neg, self.step)?;
        let a = self.stack.get(0).unwrap();
        let c = a.neg();
        proof {
            lemma_felt_eq(c, felt_of(c@));
        }
        self.stack.set(0, c);
        Ok(None)
    }

    fn op_inv(&mut self) -> (r: Result<Option<(u64, Felt)>, ExecutionError>)
        ensures
            final(self).step == old(self).step,
            effect(Operation::Inv, old(self).step as nat, *old(self), *final(self), r),
    {
        self.stack.check_depth(1, Operation::Inv, self.step)?;
        let a = self.stack.get(0).unwrap();
        if a == Felt::zero() {
            return Err(ExecutionError::DivideByZero(self.step));
        }
        let c = a.inv();
        proof {
            lemma_felt_eq(c, felt_of(c@));
        }
        self.stack.set(0, c);
        Ok(None)
    }

    fn op_eq(&mut self) -> (r: Result<Option<(u64, Felt)>, ExecutionError>)
        ensures
            final(self).step == old(self).step,
            effect(Operation::Eq, old(self).step as nat, *old(self), *final(self), r),
    {
        self.stack.check_depth(2, Operation::Eq, self.step)?;
        let a = self.stack.get(0).unwrap();
        let b = self.stack.get(1).unwrap();
        let c = if a == b {
            Felt::one()
        } else {
            Felt::zero()
        };
        self.stack.set(0, c);
        self.stack.shift_left(2);
        assert(self.stack@ =~= seq![c] + old(self).stack@.skip(2));
        Ok(None)
    }

    fn op_mem_load(&mut self) -> (r: Result<Option<(u64, Felt)>, ExecutionError>)
        ensures
            final(self).step == old(self).step,
            effect(Operation::MemLoad, old(self).step as nat, *old(self), *final(self), r),
    {
        self.stack.check_depth(1, Operation::MemLoad, self.step)?;
        let a = self.stack.get(0).unwrap();
        let addr = a.as_int();
        if addr > MAX_ADDRESS {
            return Err(ExecutionError::InvalidMemoryAddress(a, self.step));
        }
        let v = self.memory.read(addr);
        self.stack.set(0, v);
        Ok(None)
    }

    fn op_mem_store(&mut self) -> (r: Result<Option<(u64, Felt)>, ExecutionError>)
        ensures
            final(self).step == old(self).step,
            effect(Operation::MemStore, old(self).step as nat, *old(self), *final(self), r),
    {
        self.stack.check_depth(2, Operation::MemStore, self.step)?;
        let a = self.stack.get(0).unwrap();
        let v = self.stack.get(1).unwrap();
        let addr = a.as_int();
        if addr > MAX_ADDRESS {
            return Err(ExecutionError::InvalidMemoryAddress(a, self.step));
        }
        self.memory.write(addr, v);
        self.stack.shift_left(1);
        self.stack.shift_left(1);
        assert(self.stack@ =~= old(self).stack@.skip(2));
        Ok(Some((addr, v)))
    }

    /// Dispatches `op` as the next step: the step counter advances by one
    /// whether or not the operation succeeds, and a failing operation leaves
    /// the stack unchanged.
    pub fn execute_op(&mut self, op: Operation) -> (r: Result<
        Option<(u64, Felt)>,
        ExecutionError,
    >)
        requires
            old(self).step < usize::MAX,
        ensures
            final(self).step == old(self).step + 1,
            effect(op, final(self).step as nat, *old(self), *final(self), r),
    {
        self.step = self.step + 1;
        match op {
            Operation::Assert => match self.op_assert() {
                Ok(()) => Ok(None),
                Err(e) => Err(e),
            },
            Operation::Push(v) => self.op_push(v),
            Operation::Drop => self.op_drop(),
            Operation::Dup => self.op_dup(),
            Operation::Swap => self.op_swap(),
            Operation::Add => self.op_add(),
            Operation::Mul => self.op_mul(),
            Operation::Neg => self.op_neg(),
            Operation::Inv => self.op_inv(),
            Operation::Eq => self.op_eq(),
            Operation::MemLoad => self.op_mem_load(),
            Operation::MemStore => self.op_mem_store(),
        }
    }
}

} // verus!
