use miden_run::felt::{Felt, MODULUS};
use miden_run::label::hash_label;
use miden_run::operations::{ExecutionError, Operation};
use miden_run::process::Process;
use miden_run::run::RunCmd;
use miden_run::stack::OperandStack;
use miden_run::trace::execute;

fn f(v: u64) -> Felt {
    Felt::new(v)
}

fn stack_of(p: &Process) -> Vec<Felt> {
    p.stack.snapshot()
}

#[test]
fn felt_reduces_and_computes() {
    assert_eq!(Felt::new(MODULUS).as_int(), 0);
    assert_eq!(Felt::new(MODULUS + 5).as_int(), 5);
    assert_eq!(f(MODULUS - 1).add(f(2)).as_int(), 1);
    assert_eq!(f(3).sub(f(5)).as_int(), MODULUS - 2);
    assert_eq!(f(7).neg().as_int(), MODULUS - 7);
    assert_eq!(f(0).neg().as_int(), 0);
    assert_eq!(f(6).mul(f(7)).as_int(), 42);
    assert_eq!(f(MODULUS - 1).mul(f(MODULUS - 1)).as_int(), 1);
    assert_eq!(f(1u64 << 40).mul(f(1u64 << 40)).as_int(), ((1u128 << 80) % (MODULUS as u128)) as u64);
}

#[test]
fn check_depth_fails_without_touching_the_stack() {
    let s = OperandStack::new(&vec![f(1), f(2)]);
    assert_eq!(s.check_depth(2, Operation::Add, 4), Ok(()));
    assert_eq!(
        s.check_depth(3, Operation::Add, 4),
        Err(ExecutionError::StackUnderflow(Operation::Add, 4))
    );
    assert_eq!(s.snapshot(), vec![f(1), f(2)]);
}

#[test]
fn stack_get_and_shifts() {
    let mut s = OperandStack::new(&vec![f(1), f(2), f(3)]);
    assert_eq!(s.get(2), Some(f(3)));
    assert_eq!(s.get(3), None);
    s.shift_left(2);
    assert_eq!(s.snapshot(), vec![f(1), f(3)]);
    s.shift_right(1);
    assert_eq!(s.snapshot(), vec![f(1), Felt::zero(), f(3)]);
    s.set(1, f(9));
    assert_eq!(s.snapshot(), vec![f(1), f(9), f(3)]);
    assert_eq!(s.depth(), 3);
}

#[test]
fn assert_consumes_one() {
    let mut p = Process::new(&vec![Felt::one(), f(5), f(6)]);
    assert_eq!(p.op_assert(), Ok(()));
    assert_eq!(stack_of(&p), vec![f(5), f(6)]);
}

#[test]
fn assert_fails_on_other_values_and_keeps_stack() {
    let mut p = Process::new(&vec![f(2), f(5)]);
    p.step = 7;
    assert_eq!(p.op_assert(), Err(ExecutionError::FailedAssertion(7)));
    assert_eq!(stack_of(&p), vec![f(2), f(5)]);
    assert_eq!(p.step, 7);
}

#[test]
fn run_single_assert_on_one() {
    let trace = execute(&vec![Operation::Assert], &vec![Felt::one(), f(42)]).unwrap();
    assert_eq!(trace.rows.len(), 1);
    assert_eq!(trace.rows[0].step, 1);
    assert_eq!(trace.program_outputs().stack_outputs(1), vec![f(42)]);
}

#[test]
fn run_single_assert_on_zero() {
    let r = execute(&vec![Operation::Assert], &vec![Felt::zero()]);
    assert_eq!(r.err(), Some(ExecutionError::FailedAssertion(1)));
}

#[test]
fn run_assert_on_empty_stack() {
    let r = execute(&vec![Operation::Assert], &vec![]);
    assert_eq!(r.err(), Some(ExecutionError::StackUnderflow(Operation::Assert, 1)));
}

#[test]
fn failure_is_tagged_with_its_step() {
    let prog = vec![Operation::Push(f(3)), Operation::Drop, Operation::Drop];
    let r = execute(&prog, &vec![]);
    assert_eq!(r.err(), Some(ExecutionError::StackUnderflow(Operation::Drop, 3)));
}

#[test]
fn outputs_are_zero_padded() {
    let trace = execute(&vec![], &vec![f(1), f(2), f(3)]).unwrap();
    let out = trace.program_outputs();
    assert_eq!(out.stack_outputs(2), vec![f(1), f(2)]);
    assert_eq!(out.stack_outputs(3), vec![f(1), f(2), f(3)]);
    assert_eq!(out.stack_outputs(5), vec![f(1), f(2), f(3), Felt::zero(), Felt::zero()]);
    assert_eq!(out.stack_outputs(0), vec![]);
}

#[test]
fn arithmetic_program() {
    let prog = vec![
        Operation::Push(f(4)),
        Operation::Push(f(5)),
        Operation::Add,
        Operation::Dup,
        Operation::Mul,
        Operation::Push(f(81)),
        Operation::Eq,
        Operation::Assert,
        Operation::Push(f(1)),
        Operation::Neg,
        Operation::Push(f(2)),
        Operation::Swap,
    ];
    let trace = execute(&prog, &vec![f(10)]).unwrap();
    assert_eq!(trace.rows.len(), prog.len());
    for (i, row) in trace.rows.iter().enumerate() {
        assert_eq!(row.step, i + 1);
    }
    assert_eq!(trace.rows[2].stack, vec![f(9), f(10)]);
    assert_eq!(trace.rows[4].stack, vec![f(81), f(10)]);
    assert_eq!(
        trace.program_outputs().stack_outputs(4),
        vec![f(MODULUS - 1), f(2), f(10), Felt::zero()]
    );
}

#[test]
fn execution_is_deterministic() {
    let prog = vec![Operation::Push(f(2)), Operation::Mul, Operation::Assert];
    let a = execute(&prog, &vec![f(3)]);
    let b = execute(&prog, &vec![f(3)]);
    assert_eq!(a.err(), Some(ExecutionError::FailedAssertion(3)));
    assert_eq!(b.err(), Some(ExecutionError::FailedAssertion(3)));
    let prog = vec![Operation::Push(f(2)), Operation::Add];
    let a = execute(&prog, &vec![f(3)]).unwrap();
    let b = execute(&prog, &vec![f(3)]).unwrap();
    assert_eq!(a.rows.len(), b.rows.len());
    for i in 0..a.rows.len() {
        assert_eq!(a.rows[i].step, b.rows[i].step);
        assert_eq!(a.rows[i].stack, b.rows[i].stack);
    }
}

#[test]
fn hash_label_is_lower_hex() {
    assert_eq!(hash_label(&vec![0x00, 0xab, 0x1f, 0xff]), "00ab1fff");
    assert_eq!(hash_label(&vec![]), "");
    assert_eq!(hash_label(&vec![7u8; 32]).len(), 64);
}

#[test]
fn run_cmd_reads_outputs() {
    let cmd = RunCmd {
        assembly_file: "prog.masm".to_string(),
        input_file: None,
        num_outputs: 3,
        output_file: None,
    };
    assert_eq!(
        cmd.run(&vec![Operation::Assert], &vec![Felt::one(), f(8)]),
        Ok(vec![f(8), Felt::zero(), Felt::zero()])
    );
    assert_eq!(
        cmd.run(&vec![Operation::Assert], &vec![f(8)]),
        Err(ExecutionError::FailedAssertion(1))
    );
}

#[test]
fn memory_reads_zero_then_written_value() {
    let mut m = miden_run::memory::Memory::new();
    assert_eq!(m.read(17), Felt::zero());
    m.write(17, f(5));
    m.write(18, f(6));
    m.write(17, f(7));
    assert_eq!(m.read(17), f(7));
    assert_eq!(m.read(18), f(6));
    assert_eq!(m.read(19), Felt::zero());
}

#[test]
fn memory_operations_in_a_program() {
    let prog = vec![
        Operation::Push(f(99)),
        Operation::Push(f(4)),
        Operation::MemStore,
        Operation::Push(f(4)),
        Operation::MemLoad,
        Operation::Push(f(5)),
        Operation::MemLoad,
    ];
    let trace = execute(&prog, &vec![]).unwrap();
    assert_eq!(trace.rows[2].memory_write, Some((4, f(99))));
    assert_eq!(trace.rows[2].stack, vec![]);
    assert_eq!(trace.rows[4].memory_write, None);
    assert_eq!(trace.program_outputs().stack_outputs(2), vec![Felt::zero(), f(99)]);
}

#[test]
fn memory_address_out_of_range() {
    let big = f(miden_run::operations::MAX_ADDRESS + 1);
    let r = execute(&vec![Operation::Push(big), Operation::MemLoad], &vec![]);
    assert_eq!(r.err(), Some(ExecutionError::InvalidMemoryAddress(big, 2)));
    let r = execute(&vec![Operation::MemStore], &vec![big, f(1)]);
    assert_eq!(r.err(), Some(ExecutionError::InvalidMemoryAddress(big, 1)));
    let r = execute(&vec![Operation::MemStore], &vec![f(1)]);
    assert_eq!(r.err(), Some(ExecutionError::StackUnderflow(Operation::MemStore, 1)));
}

#[test]
fn felt_exp_and_inverse() {
    assert_eq!(f(3).exp(0), Felt::one());
    assert_eq!(f(3).exp(5).as_int(), 243);
    assert_eq!(f(2).exp(62).as_int(), ((1u128 << 62) % (MODULUS as u128)) as u64);
    for v in [1u64, 2, 3, 12345, MODULUS - 1, 1u64 << 40] {
        assert_eq!(f(v).inv().mul(f(v)), Felt::one());
    }
    assert_eq!(f(2).inv().as_int(), (MODULUS + 1) / 2);
    assert_eq!(Felt::zero().inv(), Felt::zero());
}

#[test]
fn inv_operation() {
    let trace = execute(&vec![Operation::Inv, Operation::Mul], &vec![f(7), f(7)]).unwrap();
    assert_eq!(trace.program_outputs().stack_outputs(1), vec![Felt::one()]);
    let r = execute(&vec![Operation::Push(f(0)), Operation::Inv], &vec![]);
    assert_eq!(r.err(), Some(ExecutionError::DivideByZero(2)));
}
