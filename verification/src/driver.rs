//! The driver: the sequential proving loop over all steps and the final
//! verification, modelled over the validated constraint system.
//!
//! The running state starts as `io_size` zero elements. Step `i` allocates
//! its variables from the running state and its two windows, checks every
//! constraint, and hands the last `io_size` allocated variables to step
//! `i + 1` as its input state. The run aborts on the first failing step.
//! Verification compares the produced final state against the all-zero
//! vector, the expected final state this driver always supplies.
use vstd::prelude::*;
use vstd::arithmetic::mul::{
    lemma_mul_inequality, lemma_mul_is_distributive_add_other_way, lemma_mul_nonnegative,
};
use crate::adapter::{
    check_constraint, constraint_satisfied, constraints_satisfied, designated_output,
    synthesize_step, SynthesisError,
};
use crate::model::{constraints_in_range, well_formed, witness_inputs, R1cs, ValidationError};
use crate::partition::{
    public_window, step_public_inputs, step_witness, windows_in_bounds, witness_window,
};

verus! {

/// Why one step of the proving loop failed.
#[derive(Clone, Copy, Debug, PartialEq, Eq, Structural)]
pub enum StepError {
    /// The step's trace window could not be sliced.
    Validation(ValidationError),
    /// Variable allocation or constraint enforcement could not proceed.
    Synthesis(SynthesisError),
    /// The named constraint does not hold under the step's allocated
    /// assignment.
    Unsatisfied { constraint: usize },
}

/// An engine-level failure of the run: a failing step, or a final state that
/// does not match the expected one.
#[derive(Clone, Copy, Debug, PartialEq, Eq, Structural)]
pub enum ProofError {
    Step { step: usize, error: StepError },
    VerificationFailed,
}

/// `n` zero field elements.
pub open spec fn zero_elems(n: int) -> Seq<u64> {
    Seq::new(n as nat, |i: int| 0u64)
}

/// Step `i`'s full allocation, in the mandatory order, given the running
/// state `z` it is fed.
pub open spec fn step_assignment(r: R1cs, i: int, z: Seq<u64>) -> Seq<u64> {
    z + public_window(r, i) + witness_window(r, i)
}

/// The designated output of an allocation: its last `io` entries.
pub open spec fn step_output_of(assign: Seq<u64>, io: int) -> Seq<u64> {
    assign.subrange(assign.len() - io, assign.len() as int)
}

/// The running state fed into step `i`: all zeros for step 0, and the
/// designated output of step `i - 1` afterwards.
pub open spec fn chain_state(r: R1cs, i: int) -> Seq<u64>
    decreases i,
{
    if i <= 0 {
        zero_elems(r.io_size as int)
    } else {
        step_output_of(step_assignment(r, i - 1, chain_state(r, i - 1)), r.io_size as int)
    }
}

/// Every constraint holds under step `i`'s allocated assignment.
pub open spec fn step_satisfied(r: R1cs, i: int) -> bool {
    constraints_satisfied(
        r.constraints@,
        step_assignment(r, i, chain_state(r, i)),
        r.modulus as int,
    )
}

pub open spec fn all_steps_satisfied(r: R1cs) -> bool {
    forall|i: int| 0 <= i < r.scheme_length ==> step_satisfied(r, i)
}

/// Chaining: the state fed into step `i` is the designated output — by
/// position, the last `io_size` allocated variables — of step `i - 1`.
pub proof fn lemma_state_chaining(r: R1cs, i: int)
    requires
        0 < i,
    ensures
        chain_state(r, i) == step_output_of(
            step_assignment(r, i - 1, chain_state(r, i - 1)),
            r.io_size as int,
        ),
{
}

/// On a well-formed model, every step's windows lie in bounds and its
/// assignment allocates exactly `num_variables` variables.
pub proof fn lemma_step_shape(r: R1cs, i: int, z: Seq<u64>)
    requires
        well_formed(r),
        0 <= i < r.scheme_length,
    ensures
        windows_in_bounds(r, i),
        public_window(r, i).len() == r.num_public_inputs,
        witness_window(r, i).len() == witness_inputs(r),
        z.len() == r.io_size ==> step_assignment(r, i, z).len() == r.num_variables,
{
    lemma_mul_inequality(i + 1, r.scheme_length as int, r.num_public_inputs as int);
    lemma_mul_inequality(i + 1, r.scheme_length as int, witness_inputs(r));
    lemma_mul_is_distributive_add_other_way(r.num_public_inputs as int, i, 1);
    lemma_mul_is_distributive_add_other_way(witness_inputs(r), i, 1);
    lemma_mul_nonnegative(i, r.num_public_inputs as int);
    lemma_mul_nonnegative(i, witness_inputs(r));
}

/// On a well-formed model, the running state fed into any step of the run has
/// the circuit's arity.
pub proof fn lemma_chain_state_length(r: R1cs, i: int)
    requires
        well_formed(r),
        0 <= i <= r.scheme_length,
    ensures
        chain_state(r, i).len() == r.io_size,
    decreases i,
{
    if i > 0 {
        lemma_chain_state_length(r, i - 1);
        lemma_step_shape(r, i - 1, chain_state(r, i - 1));
    }
}

/// The all-zero running state of the given width: the initial state of a run,
/// and the expected final state the verifier is given.
pub fn zero_state(io_size: usize) -> (z: Vec<u64>)
    ensures
        z@ == zero_elems(io_size as int),
{
    let mut z: Vec<u64> = Vec::new();
    let mut i: usize = 0;
    while i < io_size
        invariant
            i <= io_size,
            z@.len() == i,
            forall|j: int| 0 <= j < i ==> z@[j] == 0u64,
        decreases io_size - i,
    {
        z.push(0u64);
        i = i + 1;
    }
    proof {
        assert(z@ =~= zero_elems(io_size as int));
    }
    z
}

/// One incremental step: slice the step's windows, allocate the variables in
/// the mandatory order, check every constraint under the allocation, and
/// return the designated output state. Fails on an unsliceable window, an
/// out-of-range term, or the first unsatisfied constraint.
#[verifier::loop_isolation(false)]
pub fn prove_step(r: &R1cs, step: usize, z_in: &Vec<u64>) -> (res: Result<Vec<u64>, StepError>)
    requires
        r.modulus >= 2,
        r.io_size + r.num_public_inputs <= r.num_variables,
    ensures
        ({
            let assign = step_assignment(*r, step as int, z_in@);
            &&& (res is Ok <==> windows_in_bounds(*r, step as int) && constraints_in_range(
                r.constraints@,
                assign.len() as int,
            ) && constraints_satisfied(r.constraints@, assign, r.modulus as int))
            &&& (res is Ok ==> res->Ok_0@ == step_output_of(assign, z_in@.len() as int))
            &&& (res is Err ==> match res->Err_0 {
                StepError::Validation(error) => {
                    &&& !windows_in_bounds(*r, step as int)
                    &&& (error == (ValidationError::PublicWindowOutOfRange { step }) || error
                        == (ValidationError::WitnessWindowOutOfRange { step }))
                },
                StepError::Synthesis(error) => {
                    &&& windows_in_bounds(*r, step as int)
                    &&& !constraints_in_range(r.constraints@, assign.len() as int)
                },
                StepError::Unsatisfied { constraint } => {
                    &&& windows_in_bounds(*r, step as int)
                    &&& constraints_in_range(r.constraints@, assign.len() as int)
                    &&& constraint < r.constraints@.len()
                    &&& !constraint_satisfied(
                        r.constraints@[constraint as int],
                        assign,
                        r.modulus as int,
                    )
                    &&& forall|k: int|
                        0 <= k < constraint ==> constraint_satisfied(
                            #[trigger] r.constraints@[k],
                            assign,
                            r.modulus as int,
                        )
                },
            })
        }),
{
    let step_public = match step_public_inputs(r, step) {
        Ok(v) => v,
        Err(error) => {
            return Err(StepError::Validation(error));
        },
    };
    let step_wit = match step_witness(r, step) {
        Ok(v) => v,
        Err(error) => {
            return Err(StepError::Validation(error));
        },
    };
    let vars = match synthesize_step(&r.constraints, z_in, &step_public, &step_wit) {
        Ok(v) => v,
        Err(error) => {
            return Err(StepError::Synthesis(error));
        },
    };
    let mut i: usize = 0;
    while i < r.constraints.len()
        invariant
            0 <= i <= r.constraints@.len(),
            forall|k: int|
                0 <= k < i ==> constraint_satisfied(
                    #[trigger] r.constraints@[k],
                    vars@,
                    r.modulus as int,
                ),
        decreases r.constraints@.len() - i,
    {
        let holds = match check_constraint(&r.constraints[i], i, &vars, r.modulus) {
            Ok(b) => b,
            Err(_) => {
                // Unreachable: synthesize_step succeeded, so every term of
                // every constraint is in range.
                proof {
                    assert(false);
                }
                false
            },
        };
        if !holds {
            return Err(StepError::Unsatisfied { constraint: i });
        }
        i = i + 1;
    }
    Ok(designated_output(&vars, z_in.len()))
}

/// The sequential proving loop: run every step in order from the all-zero
/// initial state, aborting on the first failing step, and return the final
/// running state. On a well-formed model the run succeeds if and only if
/// every step's constraints hold under its allocated assignment; a failure
/// names the first unsatisfied step, and no later step is executed.
#[verifier::loop_isolation(false)]
pub fn run_chain(r: &R1cs) -> (res: Result<Vec<u64>, ProofError>)
    requires
        well_formed(*r),
    ensures
        res is Ok <==> all_steps_satisfied(*r),
        res is Ok ==> res->Ok_0@ == chain_state(*r, r.scheme_length as int),
        res is Err ==> (res->Err_0 matches ProofError::Step { step, error } && {
            &&& step < r.scheme_length
            &&& !step_satisfied(*r, step as int)
            &&& forall|j: int| 0 <= j < step ==> step_satisfied(*r, j)
            &&& (error matches StepError::Unsatisfied { constraint } && {
                &&& constraint < r.constraints@.len()
                &&& !constraint_satisfied(
                    r.constraints@[constraint as int],
                    step_assignment(*r, step as int, chain_state(*r, step as int)),
                    r.modulus as int,
                )
            })
        }),
{
    let mut z = zero_state(r.io_size);
    let mut i: usize = 0;
    proof {
        lemma_chain_state_length(*r, 0);
    }
    while i < r.scheme_length
        invariant
            0 <= i <= r.scheme_length,
            z@ == chain_state(*r, i as int),
            z@.len() == r.io_size,
            forall|j: int| 0 <= j < i ==> step_satisfied(*r, j),
        decreases r.scheme_length - i,
    {
        proof {
            lemma_step_shape(*r, i as int, z@);
        }
        match prove_step(r, i, &z) {
            Ok(z_next) => {
                z = z_next;
                proof {
                    lemma_chain_state_length(*r, i + 1);
                }
            },
            Err(e) => {
                proof {
                    assert(constraints_in_range(
                        r.constraints@,
                        step_assignment(*r, i as int, z@).len() as int,
                    ));
                    assert(!step_satisfied(*r, i as int));
                }
                let error = match e {
                    StepError::Unsatisfied { constraint } => StepError::Unsatisfied { constraint },
                    _ => {
                        // Unreachable: on a well-formed model the windows are
                        // in bounds and every term is in range, so a step can
                        // only fail on an unsatisfied constraint.
                        proof {
                            assert(false);
                        }
                        e
                    },
                };
                return Err(ProofError::Step { step: i, error });
            },
        }
        i = i + 1;
    }
    Ok(z)
}

/// The verification-time final-state check: the state the run produced equals
/// the claimed expected final state.
pub fn verify_final_state(produced: &Vec<u64>, expected: &Vec<u64>) -> (ok: bool)
    ensures
        ok <==> produced@ == expected@,
{
    let n = produced.len();
    if n != expected.len() {
        proof {
            assert(produced@ !~= expected@);
        }
        return false;
    }
    let mut k: usize = 0;
    while k < n
        invariant
            0 <= k <= n,
            n == produced@.len() == expected@.len(),
            forall|j: int| 0 <= j < k ==> produced@[j] == expected@[j],
        decreases n - k,
    {
        if produced[k] != expected[k] {
            proof {
                assert(produced@ !~= expected@);
            }
            return false;
        }
        k = k + 1;
    }
    proof {
        assert(produced@ =~= expected@);
    }
    true
}

/// The whole run: prove every step in order, then verify the produced final
/// state against the expected final state, which this driver always supplies
/// as the all-zero vector. Succeeds if and only if every step's constraints
/// hold and the chain's final state is all zeros.
pub fn prove_and_verify(r: &R1cs) -> (res: Result<(), ProofError>)
    requires
        well_formed(*r),
    ensures
        res is Ok <==> all_steps_satisfied(*r) && chain_state(*r, r.scheme_length as int)
            == zero_elems(r.io_size as int),
        res is Err ==> match res->Err_0 {
            ProofError::VerificationFailed => all_steps_satisfied(*r) && chain_state(
                *r,
                r.scheme_length as int,
            ) != zero_elems(r.io_size as int),
            ProofError::Step { step, error } => {
                &&& step < r.scheme_length
                &&& !step_satisfied(*r, step as int)
                &&& forall|j: int| 0 <= j < step ==> step_satisfied(*r, j)
            },
        },
{
    let z = match run_chain(r) {
        Ok(z) => z,
        Err(e) => {
            return Err(e);
        },
    };
    let expected = zero_state(r.io_size);
    if verify_final_state(&z, &expected) {
        Ok(())
    } else {
        Err(ProofError::VerificationFailed)
    }
}

} // verus!
