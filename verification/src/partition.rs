//! The step partitioner: slices the two concatenated trace arrays into
//! `scheme_length` contiguous, equal-size, non-overlapping windows, one per
//! step. Bounds are re-checked defensively at the point of slicing.
use vstd::prelude::*;
use vstd::arithmetic::mul::lemma_mul_is_distributive_add_other_way;
use crate::model::{witness_inputs, R1cs, ValidationError};

verus! {

/// Step `i`'s public-input window: `[i * num_public_inputs, (i + 1) *
/// num_public_inputs)` of the concatenated `public_inputs` array.
pub open spec fn public_window(r: R1cs, i: int) -> Seq<u64> {
    r.public_inputs@.subrange(i * r.num_public_inputs, (i + 1) * r.num_public_inputs)
}

/// Step `i`'s witness window: `[i * witness_inputs, (i + 1) *
/// witness_inputs)` of the concatenated `witness` array.
pub open spec fn witness_window(r: R1cs, i: int) -> Seq<u64> {
    r.witness@.subrange(i * witness_inputs(r), (i + 1) * witness_inputs(r))
}

/// Both of step `i`'s windows lie within their trace arrays.
pub open spec fn windows_in_bounds(r: R1cs, i: int) -> bool {
    &&& (i + 1) * r.num_public_inputs <= r.public_inputs@.len()
    &&& (i + 1) * witness_inputs(r) <= r.witness@.len()
}

fn copy_window(source: &Vec<u64>, width: usize, step: usize) -> (res: Option<Vec<u64>>)
    ensures
        res is Some <==> (step + 1) * width <= source@.len(),
        res is Some ==> res->0@ == source@.subrange(
            step as int * width,
            (step + 1) * width as int,
        ),
{
    let source_len = source.len();
    if width == 0 {
        proof {
            assert(source@.subrange(step as int * width, (step + 1) * width as int)
                =~= Seq::<u64>::empty());
        }
        return Some(Vec::new());
    }
    let next = match step.checked_add(1) {
        Some(s) => s,
        None => {
            proof {
                assert((step + 1) * width >= (step + 1) * 1) by (nonlinear_arith)
                    requires
                        width >= 1,
                        step >= 0,
                ;
            }
            return None;
        },
    };
    let end = match next.checked_mul(width) {
        Some(e) => e,
        None => {
            return None;
        },
    };
    if end > source_len {
        return None;
    }
    proof {
        lemma_mul_is_distributive_add_other_way(width as int, step as int, 1);
    }
    let start = end - width;
    let mut out: Vec<u64> = Vec::new();
    let mut k: usize = start;
    while k < end
        invariant
            start <= k <= end <= source@.len(),
            out@ =~= source@.subrange(start as int, k as int),
        decreases end - k,
    {
        out.push(source[k]);
        proof {
            assert(out@ =~= source@.subrange(start as int, k + 1 as int));
        }
        k = k + 1;
    }
    Some(out)
}

/// Step `step`'s slice of the concatenated public-input array. Fails exactly
/// when the window's upper bound exceeds the array.
pub fn step_public_inputs(r: &R1cs, step: usize) -> (res: Result<Vec<u64>, ValidationError>)
    ensures
        res is Ok <==> (step + 1) * r.num_public_inputs <= r.public_inputs@.len(),
        res is Ok ==> res->Ok_0@ == public_window(*r, step as int),
        res is Err ==> res->Err_0 == (ValidationError::PublicWindowOutOfRange { step }),
{
    match copy_window(&r.public_inputs, r.num_public_inputs, step) {
        Some(v) => Ok(v),
        None => Err(ValidationError::PublicWindowOutOfRange { step }),
    }
}

/// Step `step`'s slice of the concatenated witness array. Fails exactly when
/// the window's upper bound exceeds the array.
pub fn step_witness(r: &R1cs, step: usize) -> (res: Result<Vec<u64>, ValidationError>)
    requires
        r.io_size + r.num_public_inputs <= r.num_variables,
    ensures
        res is Ok <==> (step + 1) * witness_inputs(*r) <= r.witness@.len(),
        res is Ok ==> res->Ok_0@ == witness_window(*r, step as int),
        res is Err ==> res->Err_0 == (ValidationError::WitnessWindowOutOfRange { step }),
{
    let width = r.num_variables - r.num_public_inputs - r.io_size;
    match copy_window(&r.witness, width, step) {
        Some(v) => Ok(v),
        None => Err(ValidationError::WitnessWindowOutOfRange { step }),
    }
}

} // verus!
