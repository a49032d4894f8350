use vstd::prelude::*;
use crate::felt::Felt;
use crate::operations::{op_result, produced_depth, required_depth, ExecutionError, Operation};
use crate::trace::{last_stack, memory_after, run_prefix, run_program};

verus! {

/// A successful operation found at least the depth it requires, and leaves
/// the stack deeper by what it produces less what it consumes; so no step
/// ever takes the stack below empty.
pub proof fn lemma_step_depth(op: Operation, s: Seq<Felt>, mem: Map<u64, Felt>, step: nat)
    ensures
        op_result(op, s, mem, step) is Ok ==> s.len() >= required_depth(op) && op_result(
            op,
            s,
            mem,
            step,
        )->Ok_0.0.len() == s.len() - required_depth(op) + produced_depth(op),
{
    if op_result(op, s, mem, step) is Ok {
        match op {
            Operation::Add | Operation::Mul | Operation::Eq | Operation::MemStore => {
                assert(s.skip(2).len() == s.len() - 2);
            },
            _ => {},
        }
    }
}

/// Every stack of a successful run was reached from the one before it by an
/// operation that found the depth it requires on the stack.
pub proof fn lemma_run_depth(ops: Seq<Operation>, init: Seq<Felt>, k: nat)
    requires
        k <= ops.len(),
        run_prefix(ops, init, k) is Ok,
    ensures
        ({
            let rows = run_prefix(ops, init, k)->Ok_0;
            &&& rows.len() == k
            &&& forall|i: int|
                0 <= i < k ==> {
                    let before = last_stack(init, rows.take(i));
                    &&& before.len() >= required_depth(#[trigger] ops[i])
                    &&& rows[i].0.len() == before.len() - required_depth(ops[i]) + produced_depth(
                        ops[i],
                    )
                }
        }),
    decreases k,
{
    if k > 0 {
        let k1 = (k - 1) as nat;
        lemma_run_depth(ops, init, k1);
        let prev = run_prefix(ops, init, k1)->Ok_0;
        let rows = run_prefix(ops, init, k)->Ok_0;
        lemma_step_depth(ops[k1 as int], last_stack(init, prev), memory_after(prev), k);
        assert forall|i: int| 0 <= i < k implies {
            let before = last_stack(init, rows.take(i));
            &&& before.len() >= required_depth(#[trigger] ops[i])
            &&& rows[i].0.len() == before.len() - required_depth(ops[i]) + produced_depth(ops[i])
        } by {
            assert(rows.take(i) =~= prev.take(i) || i == k1);
            if i == k1 {
                assert(rows.take(i) =~= prev);
            }
        }
    }
}

/// An operation fails with a stack underflow, naming itself and its step,
/// exactly when the stack holds fewer elements than it requires.
pub proof fn lemma_underflow_exactly_when_short(
    op: Operation,
    s: Seq<Felt>,
    mem: Map<u64, Felt>,
    step: nat,
)
    ensures
        (s.len() < required_depth(op)) <==> op_result(op, s, mem, step) == Err::<
            (Seq<Felt>, Option<(u64, Felt)>),
            ExecutionError,
        >(ExecutionError::StackUnderflow(op, step as usize)),
{
}

/// `Assert` on a stack whose top is ONE consumes the top and moves every
/// other element up one place; on a non-empty stack whose top is anything
/// else it fails with an assertion failure at its step.
pub proof fn lemma_assert_semantics(s: Seq<Felt>, mem: Map<u64, Felt>, step: nat)
    ensures
        s.len() >= 1 && s[0] == Felt::spec_one() ==> {
            let r = op_result(Operation::Assert, s, mem, step);
            &&& r is Ok
            &&& r->Ok_0.1 is None
            &&& r->Ok_0.0.len() == s.len() - 1
            &&& forall|i: int| 0 <= i < s.len() - 1 ==> r->Ok_0.0[i] == #[trigger] s[i + 1]
        },
        s.len() >= 1 && s[0] != Felt::spec_one() ==> op_result(Operation::Assert, s, mem, step)
            == Err::<(Seq<Felt>, Option<(u64, Felt)>), ExecutionError>(
            ExecutionError::FailedAssertion(step as usize),
        ),
{
}

/// Running the same program on the same inputs gives the same outcome:
/// the same rows step by step, or the same error at the same step.
pub proof fn lemma_execution_deterministic(
    program1: Seq<Operation>,
    inputs1: Seq<Felt>,
    program2: Seq<Operation>,
    inputs2: Seq<Felt>,
)
    requires
        program1 == program2,
        inputs1 == inputs2,
    ensures
        run_program(program1, inputs1) == run_program(program2, inputs2),
{
}

} // verus!
