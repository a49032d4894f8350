use vstd::prelude::*;
use crate::felt::Felt;
use crate::memory::apply_write;
use crate::operations::{op_result, ExecutionError, Operation};
use crate::process::Process;
use crate::stack::{padded_top, top_elements};

verus! {

/// One row of the trace: the machine state as a successful step left it.
pub struct TraceRow {
    /// The step this row records, counting from 1.
    pub step: usize,
    /// The stack after the step, top first.
    pub stack: Vec<Felt>,
    /// The memory write the step made, if any.
    pub memory_write: Option<(u64, Felt)>,
}

/// What a row records: the stack after the step and its memory write.
pub type RowView = (Seq<Felt>, Option<(u64, Felt)>);

/// The record of a successful run: the initial stack and one row per step.
pub struct ExecutionTrace {
    pub init_stack: Vec<Felt>,
    pub rows: Vec<TraceRow>,
}

/// The values a caller reads off the final stack.
pub struct ProgramOutputs {
    stack: Vec<Felt>,
}

/// The stack that stands last: the final row, or `init` when there is none.
pub open spec fn last_stack(init: Seq<Felt>, rows: Seq<RowView>) -> Seq<Felt> {
    if rows.len() == 0 {
        init
    } else {
        rows.last().0
    }
}

/// The memory after the writes of `rows`, in order, on an empty memory.
pub open spec fn memory_after(rows: Seq<RowView>) -> Map<u64, Felt>
    decreases rows.len(),
{
    if rows.len() == 0 {
        Map::empty()
    } else {
        apply_write(memory_after(rows.drop_last()), rows.last().1)
    }
}

/// The row of each of the first `k` operations of `ops`, run from the
/// stack `init` and an empty memory; or the error of the first of them that fails.
pub open spec fn run_prefix(ops: Seq<Operation>, init: Seq<Felt>, k: nat) -> Result<
    Seq<RowView>,
    ExecutionError,
>
    decreases k,
{
    if k == 0 {
        Ok(Seq::empty())
    } else {
        match run_prefix(ops, init, (k - 1) as nat) {
            Err(e) => Err(e),
            Ok(rows) => match op_result(ops[k - 1], last_stack(init, rows), memory_after(rows), k) {
                Err(e) => Err(e),
                Ok(s) => Ok(rows.push(s)),
            },
        }
    }
}

/// The outcome of running the whole of `ops` from the stack `init`.
pub open spec fn run_program(ops: Seq<Operation>, init: Seq<Felt>) -> Result<
    Seq<RowView>,
    ExecutionError,
> {
    run_prefix(ops, init, ops.len())
}

/// Once a prefix fails, every longer prefix fails with the same error.
pub proof fn lemma_failure_persists(ops: Seq<Operation>, init: Seq<Felt>, k: nat, j: nat)
    requires
        k <= j,
        run_prefix(ops, init, k) is Err,
    ensures
        run_prefix(ops, init, j) == run_prefix(ops, init, k),
    decreases j - k,
{
    if k < j {
        lemma_failure_persists(ops, init, k, (j - 1) as nat);
    }
}

impl ExecutionTrace {
    /// What each row records, in order.
    pub open spec fn row_views(self) -> Seq<RowView> {
        self.rows@.map_values(|row: TraceRow| (row.stack@, row.memory_write))
    }

    /// The rows are numbered 1, 2, ... in order.
    pub open spec fn rows_numbered(self) -> bool {
        forall|i: int| 0 <= i < self.rows@.len() ==> #[trigger] self.rows@[i].step == i + 1
    }

    /// The outputs of the run: the final stack.
    pub fn program_outputs(&self) -> (r: ProgramOutputs)
        ensures
            r@ == last_stack(self.init_stack@, self.row_views()),
    {
        let n = self.rows.len();
        if n == 0 {
            ProgramOutputs { stack: top_elements(&self.init_stack, self.init_stack.len()) }
        } else {
            let last = &self.rows[n - 1].stack;
            let r = ProgramOutputs { stack: top_elements(last, last.len()) };
            assert(r.stack@ =~= last@);
            r
        }
    }
}

impl View for ProgramOutputs {
    type V = Seq<Felt>;

    closed spec fn view(&self) -> Seq<Felt> {
        self.stack@
    }
}

impl ProgramOutputs {
    /// The top `n` elements of the final stack, top first; past its bottom
    /// the result is padded with ZERO.
    pub fn stack_outputs(&self, n: usize) -> (r: Vec<Felt>)
        ensures
            r@ == padded_top(self@, n as nat),
            r@.len() == n,
            forall|i: int| 0 <= i < n && i < self@.len() ==> r@[i] == self@[i],
            forall|i: int| self@.len() <= i < n ==> r@[i] == Felt::spec_zero(),
    {
        top_elements(&self.stack, n)
    }
}

/// Runs `program` on a stack that starts as `inputs` (the first on top),
/// one operation per step, and stops at the first failure.
pub fn execute(program: &Vec<Operation>, inputs: &Vec<Felt>) -> (r: Result<
    ExecutionTrace,
    ExecutionError,
>)
    ensures
        match run_program(program@, inputs@) {
            Ok(rows) => r is Ok && r->Ok_0.init_stack@ == inputs@ && r->Ok_0.row_views() == rows
                && r->Ok_0.rows_numbered(),
            Err(e) => r == Err::<ExecutionTrace, ExecutionError>(e),
        },
{
    let mut process = Process::new(inputs);
    let mut rows: Vec<TraceRow> = Vec::new();
    let ghost ops = program@;
    let mut i: usize = 0;
    assert(rows@.map_values(|row: TraceRow| (row.stack@, row.memory_write)) =~= Seq::<RowView>::empty());
    while i < program.len()
        invariant
            i <= program@.len(),
            ops == program@,
            process.step == i,
            rows@.len() == i,
            run_prefix(ops, inputs@, i as nat) == Ok::<Seq<RowView>, ExecutionError>(
                rows@.map_values(|row: TraceRow| (row.stack@, row.memory_write)),
            ),
            process.stack@ == last_stack(inputs@, rows@.map_values(|row: TraceRow| (row.stack@, row.memory_write))),
            process.memory@ == memory_after(rows@.map_values(|row: TraceRow| (row.stack@, row.memory_write))),
            forall|j: int| 0 <= j < rows@.len() ==> #[trigger] rows@[j].step == j + 1,
        decreases program@.len() - i,
    {
        let ghost before = rows@.map_values(|row: TraceRow| (row.stack@, row.memory_write));
        let write = match process.execute_op(program[i]) {
            Err(e) => {
                proof {
                    lemma_failure_persists(ops, inputs@, (i + 1) as nat, ops.len());
                }
                return Err(e);
            },
            Ok(w) => w,
        };
        let snapshot = process.stack.snapshot();
        rows.push(TraceRow { step: process.step, stack: snapshot, memory_write: write });
        i = i + 1;
        let ghost after = rows@.map_values(|row: TraceRow| (row.stack@, row.memory_write));
        assert(after =~= before.push((process.stack@, write)));
        assert(after.drop_last() =~= before);
    }
    assert(ops.len() == i);
    Ok(ExecutionTrace { init_stack: inputs.clone(), rows })
}

} // verus!
