use vstd::prelude::*;
use crate::felt::Felt;
use crate::operations::{ExecutionError, Operation};
use crate::stack::padded_top;
use crate::trace::{execute, last_stack, run_program};

verus! {

/// The settings of one run of a program: where it and its inputs come from,
/// how many outputs to show, and where to write them.
pub struct RunCmd {
    /// Path to the assembly file.
    pub assembly_file: String,
    /// Path to the input file, if any.
    pub input_file: Option<String>,
    /// Number of outputs to show.
    pub num_outputs: usize,
    /// Path to the output file, if any.
    pub output_file: Option<String>,
}

impl RunCmd {
    /// Executes `program` on `inputs` and reads `num_outputs` values off
    /// the top of the final stack, zero-padded; or the run's error.
    pub fn run(&self, program: &Vec<Operation>, inputs: &Vec<Felt>) -> (r: Result<
        Vec<Felt>,
        ExecutionError,
    >)
        ensures
            match run_program(program@, inputs@) {
                Ok(rows) => r is Ok && r->Ok_0@ == padded_top(
                    last_stack(inputs@, rows),
                    self.num_outputs as nat,
                ),
                Err(e) => r == Err::<Vec<Felt>, ExecutionError>(e),
            },
    {
        let trace = execute(program, inputs)?;
        Ok(trace.program_outputs().stack_outputs(self.num_outputs))
    }
}

} // verus!
