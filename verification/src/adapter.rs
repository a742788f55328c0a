//! The step-circuit adapter: variable allocation in the mandatory order,
//! linear-combination evaluation, and bilinear-constraint checking.
//!
//! Allocation order is fixed and significant: first the `io_size` state
//! elements verbatim, then the step's public-input slice, then the step's
//! witness slice. The designated output of a step is, by position, the last
//! `io_size` allocated variables.
use vstd::prelude::*;
use vstd::arithmetic::div_mod::{lemma_mod_bound, lemma_small_mod};
use vstd::arithmetic::mul::lemma_mul_upper_bound;
use crate::model::{constraint_in_range, constraints_in_range, terms_in_range, Constraint, R1cs, Term};

verus! {

/// Allocation or enforcement within a step cannot proceed.
#[derive(Clone, Copy, Debug, PartialEq, Eq, Structural)]
pub enum SynthesisError {
    /// A term of the named constraint references a variable index not below
    /// the number of allocated variables.
    VariableOutOfRange { constraint: usize },
}

/// The value of a weighted linear combination over an assignment, reduced
/// modulo `m` after each term, in term order.
pub open spec fn lc_value(terms: Seq<Term>, assign: Seq<u64>, m: int) -> int
    decreases terms.len(),
{
    if terms.len() == 0 {
        0
    } else {
        (lc_value(terms.drop_last(), assign, m) + terms.last().coefficient * assign[terms.last().variable as int]) % m
    }
}

/// The bilinear constraint holds under the assignment: `(sum a) * (sum b) =
/// (sum c)` modulo `m`.
pub open spec fn constraint_satisfied(c: Constraint, assign: Seq<u64>, m: int) -> bool {
    (lc_value(c.a@, assign, m) * lc_value(c.b@, assign, m)) % m == lc_value(c.c@, assign, m) % m
}

pub open spec fn constraints_satisfied(cs: Seq<Constraint>, assign: Seq<u64>, m: int) -> bool {
    forall|i: int| 0 <= i < cs.len() ==> constraint_satisfied(#[trigger] cs[i], assign, m)
}

/// Evaluate a weighted linear combination over the allocated variables.
/// Fails exactly when a term references an index outside the assignment; the
/// error is the index of the first such term.
pub fn eval_linear_combination(terms: &Vec<Term>, assign: &Vec<u64>, m: u64) -> (r: Result<
    u64,
    usize,
>)
    requires
        m >= 2,
    ensures
        r is Ok <==> terms_in_range(terms@, assign@.len() as int),
        r is Ok ==> r->Ok_0 == lc_value(terms@, assign@, m as int) && r->Ok_0 < m,
        r is Err ==> {
            &&& r->Err_0 < terms@.len()
            &&& terms@[r->Err_0 as int].variable >= assign@.len()
            &&& forall|k: int|
                0 <= k < r->Err_0 ==> (#[trigger] terms@[k].variable) < assign@.len()
        },
{
    let mut acc: u64 = 0;
    let mut j: usize = 0;
    proof {
        assert(terms@.take(0) =~= Seq::<Term>::empty());
        lemma_small_mod(0, m as nat);
    }
    while j < terms.len()
        invariant
            m >= 2,
            0 <= j <= terms@.len(),
            acc < m,
            acc == lc_value(terms@.take(j as int), assign@, m as int),
            forall|k: int| 0 <= k < j ==> (#[trigger] terms@[k].variable) < assign@.len(),
        decreases terms@.len() - j,
    {
        let t = &terms[j];
        if t.variable >= assign.len() {
            return Err(j);
        }
        let v = assign[t.variable];
        proof {
            lemma_mul_upper_bound(t.coefficient as int, u64::MAX as int, v as int, u64::MAX as int);
        }
        let wide: u128 = ((acc as u128) + (t.coefficient as u128) * (v as u128)) % (m as u128);
        proof {
            let prefix = terms@.take(j as int);
            let ext = terms@.take(j as int + 1);
            assert(ext.drop_last() =~= prefix);
            assert(ext.last() == terms@[j as int]);
            lemma_mod_bound(
                acc + terms@[j as int].coefficient * assign@[terms@[j as int].variable as int],
                m as int,
            );
        }
        acc = wide as u64;
        j = j + 1;
    }
    proof {
        assert(terms@.take(terms@.len() as int) =~= terms@);
    }
    Ok(acc)
}

/// Check one bilinear constraint, named `index` for diagnostics, against the
/// allocated variables. Fails exactly when some term is out of range.
pub fn check_constraint(c: &Constraint, index: usize, assign: &Vec<u64>, m: u64) -> (r: Result<
    bool,
    SynthesisError,
>)
    requires
        m >= 2,
    ensures
        r is Ok <==> constraint_in_range(*c, assign@.len() as int),
        r is Ok ==> r->Ok_0 == constraint_satisfied(*c, assign@, m as int),
        r is Err ==> r->Err_0 == (SynthesisError::VariableOutOfRange { constraint: index }),
{
    let va = match eval_linear_combination(&c.a, assign, m) {
        Ok(v) => v,
        Err(_) => {
            return Err(SynthesisError::VariableOutOfRange { constraint: index });
        },
    };
    let vb = match eval_linear_combination(&c.b, assign, m) {
        Ok(v) => v,
        Err(_) => {
            return Err(SynthesisError::VariableOutOfRange { constraint: index });
        },
    };
    let vc = match eval_linear_combination(&c.c, assign, m) {
        Ok(v) => v,
        Err(_) => {
            return Err(SynthesisError::VariableOutOfRange { constraint: index });
        },
    };
    proof {
        lemma_mul_upper_bound(va as int, u64::MAX as int, vb as int, u64::MAX as int);
    }
    let lhs: u128 = ((va as u128) * (vb as u128)) % (m as u128);
    let rhs: u128 = (vc as u128) % (m as u128);
    Ok(lhs == rhs)
}

/// Allocate one step's variables in the mandatory order: the state elements
/// verbatim, then the public-input slice, then the witness slice.
pub fn allocate_variables(z_in: &Vec<u64>, step_public: &Vec<u64>, step_witness: &Vec<u64>) -> (vars: Vec<u64>)
    ensures
        vars@ == z_in@ + step_public@ + step_witness@,
{
    let mut vars: Vec<u64> = Vec::new();
    let mut i: usize = 0;
    while i < z_in.len()
        invariant
            0 <= i <= z_in@.len(),
            vars@ =~= z_in@.take(i as int),
        decreases z_in@.len() - i,
    {
        vars.push(z_in[i]);
        proof {
            assert(vars@ =~= z_in@.take(i + 1 as int));
        }
        i = i + 1;
    }
    let mut i: usize = 0;
    while i < step_public.len()
        invariant
            0 <= i <= step_public@.len(),
            vars@ =~= z_in@ + step_public@.take(i as int),
        decreases step_public@.len() - i,
    {
        vars.push(step_public[i]);
        proof {
            assert(vars@ =~= z_in@ + step_public@.take(i + 1 as int));
        }
        i = i + 1;
    }
    let mut i: usize = 0;
    while i < step_witness.len()
        invariant
            0 <= i <= step_witness@.len(),
            vars@ =~= z_in@ + step_public@ + step_witness@.take(i as int),
        decreases step_witness@.len() - i,
    {
        vars.push(step_witness[i]);
        proof {
            assert(vars@ =~= z_in@ + step_public@ + step_witness@.take(i + 1 as int));
        }
        i = i + 1;
    }
    proof {
        assert(z_in@.take(z_in@.len() as int) =~= z_in@);
        assert(step_public@.take(step_public@.len() as int) =~= step_public@);
        assert(step_witness@.take(step_witness@.len() as int) =~= step_witness@);
        assert(vars@ =~= z_in@ + step_public@ + step_witness@);
    }
    vars
}

/// The designated output of a step: by position, the last `io_size` allocated
/// variables.
pub fn designated_output(vars: &Vec<u64>, io_size: usize) -> (z: Vec<u64>)
    requires
        io_size <= vars@.len(),
    ensures
        z@ == vars@.subrange(vars@.len() - io_size, vars@.len() as int),
{
    let total = vars.len();
    let start = total - io_size;
    let mut z: Vec<u64> = Vec::new();
    let mut k: usize = start;
    while k < total
        invariant
            start <= k <= total,
            total == vars@.len(),
            z@ =~= vars@.subrange(start as int, k as int),
        decreases total - k,
    {
        z.push(vars[k]);
        proof {
            assert(z@ =~= vars@.subrange(start as int, k + 1 as int));
        }
        k = k + 1;
    }
    proof {
        assert(z@ =~= vars@.subrange(vars@.len() - io_size, vars@.len() as int));
    }
    z
}

/// Allocate one step's variables and check that every constraint term refers
/// to an allocated variable, returning the full allocation vector. Fails
/// exactly when some constraint holds an out-of-range term; the error names
/// the first such constraint.
#[verifier::loop_isolation(false)]
pub fn synthesize_step(
    constraints: &Vec<Constraint>,
    z_in: &Vec<u64>,
    step_public: &Vec<u64>,
    step_witness: &Vec<u64>,
) -> (r: Result<Vec<u64>, SynthesisError>)
    ensures
        ({
            let assign = z_in@ + step_public@ + step_witness@;
            &&& (r is Ok <==> constraints_in_range(constraints@, assign.len() as int))
            &&& (r is Ok ==> r->Ok_0@ == assign)
            &&& (r is Err ==> (r->Err_0 matches SynthesisError::VariableOutOfRange {
                constraint,
            } && {
                &&& constraint < constraints@.len()
                &&& !constraint_in_range(constraints@[constraint as int], assign.len() as int)
                &&& forall|k: int|
                    0 <= k < constraint ==> constraint_in_range(
                        #[trigger] constraints@[k],
                        assign.len() as int,
                    )
            }))
        }),
{
    let vars = allocate_variables(z_in, step_public, step_witness);
    let n = vars.len();
    let mut i: usize = 0;
    while i < constraints.len()
        invariant
            0 <= i <= constraints@.len(),
            forall|k: int|
                0 <= k < i ==> constraint_in_range(#[trigger] constraints@[k], n as int),
        decreases constraints@.len() - i,
    {
        let c = &constraints[i];
        let a_ok = terms_range_check(&c.a, n);
        let b_ok = terms_range_check(&c.b, n);
        let c_ok = terms_range_check(&c.c, n);
        if !(a_ok && b_ok && c_ok) {
            return Err(SynthesisError::VariableOutOfRange { constraint: i });
        }
        i = i + 1;
    }
    Ok(vars)
}

fn terms_range_check(ts: &Vec<Term>, n: usize) -> (ok: bool)
    ensures
        ok == terms_in_range(ts@, n as int),
{
    let mut j: usize = 0;
    while j < ts.len()
        invariant
            0 <= j <= ts@.len(),
            forall|k: int| 0 <= k < j ==> (#[trigger] ts@[k].variable) < n,
        decreases ts@.len() - j,
    {
        if ts[j].variable >= n {
            return false;
        }
        j = j + 1;
    }
    true
}

impl R1cs {
    /// The step circuit's arity: the width of the running state each step
    /// consumes and produces. Uniform across every step of a run.
    pub fn arity(&self) -> (n: usize)
        ensures
            n == self.io_size,
    {
        self.io_size
    }
}

} // verus!
