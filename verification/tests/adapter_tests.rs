use r1cs_fold::adapter::{
    allocate_variables, check_constraint, designated_output, eval_linear_combination,
    synthesize_step, SynthesisError,
};
use r1cs_fold::model::{Constraint, R1cs, Term, ValidationError};
use r1cs_fold::partition::{step_public_inputs, step_witness};

const M: u64 = 97;

fn term(variable: usize, coefficient: u64) -> Term {
    Term { variable, coefficient }
}

fn trace_only_r1cs(
    num_public_inputs: usize,
    scheme_length: usize,
    public_inputs: Vec<u64>,
    witness: Vec<u64>,
) -> R1cs {
    // io_size 0 and exactly one witness variable per step.
    R1cs {
        modulus: M,
        num_variables: num_public_inputs + 1,
        num_public_inputs,
        io_size: 0,
        scheme_length,
        constraints: vec![],
        public_inputs,
        witness,
    }
}

#[test]
fn allocation_order_is_state_then_public_then_witness() {
    let vars = allocate_variables(&vec![1, 2], &vec![3], &vec![4, 5]);
    assert_eq!(vars, vec![1, 2, 3, 4, 5]);
}

#[test]
fn designated_output_is_last_io_size_variables() {
    let vars = vec![1, 2, 3, 4, 5];
    assert_eq!(designated_output(&vars, 2), vec![4, 5]);
    assert_eq!(designated_output(&vars, 0), Vec::<u64>::new());
}

#[test]
fn linear_combination_exact_value() {
    // 2*5 + 3*7 == 31 (mod 97).
    let terms = vec![term(0, 2), term(1, 3)];
    assert_eq!(eval_linear_combination(&terms, &vec![5, 7], M), Ok(31));
    // Reduction: 50*2 == 100 == 3 (mod 97).
    let terms = vec![term(0, 50)];
    assert_eq!(eval_linear_combination(&terms, &vec![2], M), Ok(3));
    // The empty combination sums to zero.
    assert_eq!(eval_linear_combination(&vec![], &vec![5], M), Ok(0));
}

#[test]
fn linear_combination_rejects_out_of_range_term() {
    let terms = vec![term(0, 2), term(9, 3)];
    assert_eq!(eval_linear_combination(&terms, &vec![5, 7], M), Err(1));
}

#[test]
fn constraint_check_exact() {
    // (v0) * (v1) = (v2) under [3, 5, 15]: holds.
    let c = Constraint { a: vec![term(0, 1)], b: vec![term(1, 1)], c: vec![term(2, 1)] };
    assert_eq!(check_constraint(&c, 0, &vec![3, 5, 15], M), Ok(true));
    // Under [3, 5, 14]: violated.
    assert_eq!(check_constraint(&c, 0, &vec![3, 5, 14], M), Ok(false));
}

#[test]
fn constraint_check_reports_out_of_range() {
    let c = Constraint { a: vec![term(7, 1)], b: vec![], c: vec![] };
    assert_eq!(
        check_constraint(&c, 4, &vec![3, 5], M),
        Err(SynthesisError::VariableOutOfRange { constraint: 4 })
    );
}

#[test]
fn synthesize_returns_full_allocation() {
    let c = Constraint { a: vec![term(0, 1)], b: vec![term(1, 1)], c: vec![term(2, 1)] };
    let vars = synthesize_step(&vec![c], &vec![9], &vec![8], &vec![7]).unwrap();
    assert_eq!(vars, vec![9, 8, 7]);
}

#[test]
fn synthesize_rejects_out_of_range_term() {
    let good = Constraint { a: vec![term(0, 1)], b: vec![], c: vec![] };
    let bad = Constraint { a: vec![], b: vec![term(3, 1)], c: vec![] };
    assert_eq!(
        synthesize_step(&vec![good, bad], &vec![9], &vec![8], &vec![7]),
        Err(SynthesisError::VariableOutOfRange { constraint: 1 })
    );
}

#[test]
fn arity_is_io_size() {
    let r = trace_only_r1cs(0, 1, vec![], vec![4]);
    assert_eq!(r.arity(), 0);
}

#[test]
fn public_windows_are_contiguous_equal_slices() {
    let r = trace_only_r1cs(2, 3, vec![1, 2, 3, 4, 5, 6], vec![0, 0, 0]);
    assert_eq!(step_public_inputs(&r, 0).unwrap(), vec![1, 2]);
    assert_eq!(step_public_inputs(&r, 1).unwrap(), vec![3, 4]);
    assert_eq!(step_public_inputs(&r, 2).unwrap(), vec![5, 6]);
}

#[test]
fn witness_windows_are_contiguous_equal_slices() {
    let r = trace_only_r1cs(0, 3, vec![], vec![10, 20, 30]);
    assert_eq!(step_witness(&r, 0).unwrap(), vec![10]);
    assert_eq!(step_witness(&r, 2).unwrap(), vec![30]);
}

#[test]
fn window_bounds_are_rechecked_at_slicing() {
    let r = trace_only_r1cs(2, 3, vec![1, 2, 3, 4, 5, 6], vec![0, 0, 0]);
    assert_eq!(
        step_public_inputs(&r, 3),
        Err(ValidationError::PublicWindowOutOfRange { step: 3 })
    );
    assert_eq!(step_witness(&r, 5), Err(ValidationError::WitnessWindowOutOfRange { step: 5 }));
}
