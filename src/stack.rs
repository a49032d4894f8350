use vstd::prelude::*;
use crate::felt::Felt;
use crate::operations::{ExecutionError, Operation};

verus! {

/// The operand stack: a sequence of field elements read and written at the
/// top. Its view lists the elements top first.
pub struct OperandStack {
    items: Vec<Felt>,
}

impl View for OperandStack {
    type V = Seq<Felt>;

    closed spec fn view(&self) -> Seq<Felt> {
        self.items@
    }
}

/// The top `n` elements of `s`, top first, padded with ZERO past its end.
pub open spec fn padded_top(s: Seq<Felt>, n: nat) -> Seq<Felt> {
    Seq::new(n, |i: int| if i < s.len() { s[i] } else { Felt::spec_zero() })
}

/// Copies the top `n` elements of `s`, zero-padded.
pub fn top_elements(s: &Vec<Felt>, n: usize) -> (r: Vec<Felt>)
    ensures
        r@ == padded_top(s@, n as nat),
{
    let mut r: Vec<Felt> = Vec::new();
    let mut i: usize = 0;
    while i < n
        invariant
            i <= n,
            r@ == padded_top(s@, i as nat),
        decreases n - i,
    {
        if i < s.len() {
            r.push(s[i]);
        } else {
            r.push(Felt::zero());
        }
        i = i + 1;
        assert(r@ =~= padded_top(s@, i as nat));
    }
    r
}

impl OperandStack {
    /// A stack holding `inputs`, the first of them on top.
    pub fn new(inputs: &Vec<Felt>) -> (r: OperandStack)
        ensures
            r@ == inputs@,
    {
        OperandStack { items: inputs.clone() }
    }

    /// The number of elements on the stack.
    pub fn depth(&self) -> (r: usize)
        ensures
            r == self@.len(),
    {
        self.items.len()
    }

    /// The element at `index` (0 is the top), or `None` past the bottom.
    pub fn get(&self, index: usize) -> (r: Option<Felt>)
        ensures
            r == (if index < self@.len() {
                Some(self@[index as int])
            } else {
                None
            }),
    {
        if index < self.items.len() {
            Some(self.items[index])
        } else {
            None
        }
    }

    /// Fails with a stack underflow naming `op` and `step` when fewer than
    /// `required` elements are present. Never changes the stack.
    pub fn check_depth(&self, required: usize, op: Operation, step: usize) -> (r: Result<
        (),
        ExecutionError,
    >)
        ensures
            r == (if self@.len() >= required {
                Ok::<(), ExecutionError>(())
            } else {
                Err(ExecutionError::StackUnderflow(op, step))
            }),
    {
        if self.items.len() >= required {
            Ok(())
        } else {
            Err(ExecutionError::StackUnderflow(op, step))
        }
    }

    /// Overwrites the element at `index`.
    pub fn set(&mut self, index: usize, value: Felt)
        requires
            index < old(self)@.len(),
        ensures
            final(self)@ == old(self)@.update(index as int, value),
    {
        self.items.set(index, value);
    }

    /// Removes the element at `start - 1`; the elements from `start` on move
    /// one place toward the top, those above keep their places.
    pub fn shift_left(&mut self, start: usize)
        requires
            1 <= start <= old(self)@.len(),
        ensures
            final(self)@ == old(self)@.remove(start - 1),
    {
        self.items.remove(start - 1);
    }

    /// Opens a ZERO slot at `start`; the elements from `start` on move one
    /// place away from the top, those above keep their places.
    pub fn shift_right(&mut self, start: usize)
        requires
            start <= old(self)@.len(),
        ensures
            final(self)@ == old(self)@.insert(start as int, Felt::spec_zero()),
    {
        self.items.insert(start, Felt::zero());
    }

    /// A copy of the whole stack, top first.
    pub fn snapshot(&self) -> (r: Vec<Felt>)
        ensures
            r@ == self@,
    {
        let r = top_elements(&self.items, self.items.len());
        assert(r@ =~= self@);
        r
    }
}

} // verus!
