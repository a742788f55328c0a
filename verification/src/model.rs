//! The R1CS model and its builder.
//!
//! `RawR1cs` is the decoded structural input: counts, constraints whose
//! coefficients are decimal literals, and the two concatenated trace arrays.
//! `build_r1cs` parses every literal through the field codec and validates the
//! structural invariants, producing an immutable `R1cs` value or the error
//! naming the first fault found.
use vstd::prelude::*;
use vstd::arithmetic::div_mod::lemma_mod_bound;
use crate::codec::{dec_value, is_dec_literal, parse_field_element, ParseError};

verus! {

/// One weighted reference to an allocated variable, as decoded input.
pub struct RawTerm {
    pub variable: usize,
    pub coefficient: String,
}

/// One bilinear constraint `(sum a) * (sum b) = (sum c)`, as decoded input.
pub struct RawConstraint {
    pub a: Vec<RawTerm>,
    pub b: Vec<RawTerm>,
    pub c: Vec<RawTerm>,
}

/// The decoded structural input. `num_constraints` is documentary only and is
/// never cross-checked against `constraints.len()`.
pub struct RawR1cs {
    pub num_variables: usize,
    pub num_public_inputs: usize,
    pub num_constraints: usize,
    pub io_size: usize,
    pub scheme_length: usize,
    pub constraints: Vec<RawConstraint>,
    pub public_inputs: Vec<String>,
    pub witness: Vec<String>,
}

/// One weighted reference to an allocated variable; the coefficient is a
/// reduced field element.
#[derive(Clone, Copy, Debug, PartialEq, Eq, Structural)]
pub struct Term {
    pub variable: usize,
    pub coefficient: u64,
}

/// One bilinear constraint `(sum a) * (sum b) = (sum c)` over allocated
/// variables.
#[derive(Clone, Debug)]
pub struct Constraint {
    pub a: Vec<Term>,
    pub b: Vec<Term>,
    pub c: Vec<Term>,
}

/// The validated constraint system together with the full trace.
///
/// The variable index space is partitioned into three contiguous regions:
/// `[0, io_size)` holds the running state, `[io_size, io_size +
/// num_public_inputs)` the step's public inputs, and the rest of
/// `[0, num_variables)` the step's witness. `public_inputs` and `witness` are
/// concatenations across all `scheme_length` steps.
#[derive(Clone, Debug)]
pub struct R1cs {
    pub modulus: u64,
    pub num_variables: usize,
    pub num_public_inputs: usize,
    pub io_size: usize,
    pub scheme_length: usize,
    pub constraints: Vec<Constraint>,
    pub public_inputs: Vec<u64>,
    pub witness: Vec<u64>,
}

/// A structural invariant of the model does not hold.
#[derive(Clone, Copy, Debug, PartialEq, Eq, Structural)]
pub enum ValidationError {
    /// A term of the named constraint references a variable index that is not
    /// below `num_variables`.
    VariableOutOfRange { constraint: usize },
    /// `public_inputs.len() != scheme_length * num_public_inputs`.
    PublicInputsLength,
    /// `witness.len() != scheme_length * witness_inputs`.
    WitnessLength,
    /// `io_size + num_public_inputs > num_variables`: the state and
    /// public-input regions do not fit into the variable index space.
    StateRegionTooLarge,
    /// The named step's public-input window exceeds the trace array.
    PublicWindowOutOfRange { step: usize },
    /// The named step's witness window exceeds the trace array.
    WitnessWindowOutOfRange { step: usize },
}

/// Why `build_r1cs` rejected its input: a malformed decimal literal at the
/// named place, or a structural invariant that does not hold.
#[derive(Clone, Copy, Debug, PartialEq, Eq, Structural)]
pub enum BuildError {
    /// A coefficient of the named constraint is not a valid decimal literal.
    InvalidCoefficient { constraint: usize },
    /// The public input at the named position is not a valid decimal literal.
    InvalidPublicInput { position: usize },
    /// The witness entry at the named position is not a valid decimal literal.
    InvalidWitness { position: usize },
    Validation { error: ValidationError },
}

pub open spec fn raw_terms_valid(ts: Seq<RawTerm>) -> bool {
    forall|j: int| 0 <= j < ts.len() ==> is_dec_literal(ts[j].coefficient@)
}

pub open spec fn raw_constraint_valid(c: RawConstraint) -> bool {
    &&& raw_terms_valid(c.a@)
    &&& raw_terms_valid(c.b@)
    &&& raw_terms_valid(c.c@)
}

pub open spec fn raw_constraints_valid(cs: Seq<RawConstraint>) -> bool {
    forall|i: int| 0 <= i < cs.len() ==> raw_constraint_valid(#[trigger] cs[i])
}

pub open spec fn raw_values_valid(vs: Seq<String>) -> bool {
    forall|i: int| 0 <= i < vs.len() ==> is_dec_literal(#[trigger] vs[i]@)
}

pub open spec fn raw_terms_in_range(ts: Seq<RawTerm>, n: int) -> bool {
    forall|j: int| 0 <= j < ts.len() ==> (#[trigger] ts[j].variable) < n
}

pub open spec fn raw_constraint_in_range(c: RawConstraint, n: int) -> bool {
    &&& raw_terms_in_range(c.a@, n)
    &&& raw_terms_in_range(c.b@, n)
    &&& raw_terms_in_range(c.c@, n)
}

pub open spec fn raw_constraints_in_range(cs: Seq<RawConstraint>, n: int) -> bool {
    forall|i: int| 0 <= i < cs.len() ==> raw_constraint_in_range(#[trigger] cs[i], n)
}

pub open spec fn raw_regions_ok(raw: RawR1cs) -> bool {
    raw.io_size + raw.num_public_inputs <= raw.num_variables
}

pub open spec fn raw_witness_inputs(raw: RawR1cs) -> int {
    raw.num_variables - raw.num_public_inputs - raw.io_size
}

pub open spec fn raw_public_len_ok(raw: RawR1cs) -> bool {
    raw.public_inputs@.len() == raw.scheme_length * raw.num_public_inputs
}

pub open spec fn raw_witness_len_ok(raw: RawR1cs) -> bool {
    raw.witness@.len() == raw.scheme_length * raw_witness_inputs(raw)
}

pub open spec fn raw_strings_valid(raw: RawR1cs) -> bool {
    &&& raw_constraints_valid(raw.constraints@)
    &&& raw_values_valid(raw.public_inputs@)
    &&& raw_values_valid(raw.witness@)
}

/// Every check `build_r1cs` makes: all literals parse, the three variable
/// regions fit, every term index is in range, and both trace arrays have
/// exactly one window per step.
pub open spec fn raw_valid(raw: RawR1cs) -> bool {
    &&& raw_strings_valid(raw)
    &&& raw_regions_ok(raw)
    &&& raw_constraints_in_range(raw.constraints@, raw.num_variables as int)
    &&& raw_public_len_ok(raw)
    &&& raw_witness_len_ok(raw)
}

/// The term a raw term parses to: the variable index verbatim, the
/// coefficient's decimal value reduced modulo `m`.
pub open spec fn term_of(t: RawTerm, m: int) -> Term {
    Term { variable: t.variable, coefficient: (dec_value(t.coefficient@) % m) as u64 }
}

pub open spec fn parsed_terms(raw: Seq<RawTerm>, ts: Seq<Term>, m: int) -> bool {
    &&& ts.len() == raw.len()
    &&& forall|j: int| 0 <= j < raw.len() ==> ts[j] == term_of(#[trigger] raw[j], m)
}

pub open spec fn parsed_constraint(raw: RawConstraint, c: Constraint, m: int) -> bool {
    &&& parsed_terms(raw.a@, c.a@, m)
    &&& parsed_terms(raw.b@, c.b@, m)
    &&& parsed_terms(raw.c@, c.c@, m)
}

pub open spec fn parsed_constraints(raw: Seq<RawConstraint>, cs: Seq<Constraint>, m: int) -> bool {
    &&& cs.len() == raw.len()
    &&& forall|i: int| 0 <= i < raw.len() ==> parsed_constraint(#[trigger] raw[i], #[trigger] cs[i], m)
}

pub open spec fn parsed_values(raw: Seq<String>, vs: Seq<u64>, m: int) -> bool {
    &&& vs.len() == raw.len()
    &&& forall|j: int| 0 <= j < raw.len() ==> vs[j] == dec_value(#[trigger] raw[j]@) % m
}

pub open spec fn terms_in_range(ts: Seq<Term>, n: int) -> bool {
    forall|j: int| 0 <= j < ts.len() ==> (#[trigger] ts[j].variable) < n
}

pub open spec fn constraint_in_range(c: Constraint, n: int) -> bool {
    &&& terms_in_range(c.a@, n)
    &&& terms_in_range(c.b@, n)
    &&& terms_in_range(c.c@, n)
}

pub open spec fn constraints_in_range(cs: Seq<Constraint>, n: int) -> bool {
    forall|i: int| 0 <= i < cs.len() ==> constraint_in_range(#[trigger] cs[i], n)
}

/// Witness variables per step: what remains of the index space after the
/// state and public-input regions.
pub open spec fn witness_inputs(r: R1cs) -> int {
    r.num_variables - r.num_public_inputs - r.io_size
}

/// The invariant every built model satisfies.
pub open spec fn well_formed(r: R1cs) -> bool {
    &&& r.modulus >= 2
    &&& r.io_size + r.num_public_inputs <= r.num_variables
    &&& constraints_in_range(r.constraints@, r.num_variables as int)
    &&& r.public_inputs@.len() == r.scheme_length * r.num_public_inputs
    &&& r.witness@.len() == r.scheme_length * witness_inputs(r)
}

/// The model `build_r1cs` returns for valid input: counts copied verbatim,
/// every literal parsed through the codec and reduced modulo `m`.
pub open spec fn built_from(raw: RawR1cs, r: R1cs, m: u64) -> bool {
    &&& r.modulus == m
    &&& r.num_variables == raw.num_variables
    &&& r.num_public_inputs == raw.num_public_inputs
    &&& r.io_size == raw.io_size
    &&& r.scheme_length == raw.scheme_length
    &&& parsed_constraints(raw.constraints@, r.constraints@, m as int)
    &&& parsed_values(raw.public_inputs@, r.public_inputs@, m as int)
    &&& parsed_values(raw.witness@, r.witness@, m as int)
}

/// Which fault each `build_r1cs` error names, under the builder's scan order:
/// coefficients constraint by constraint, then public inputs, then witness
/// entries, then the region bound, the per-constraint index bounds, and the
/// two trace lengths.
pub open spec fn build_error_witnessed(raw: RawR1cs, e: BuildError) -> bool {
    match e {
        BuildError::InvalidCoefficient { constraint } => {
            &&& constraint < raw.constraints@.len()
            &&& !raw_constraint_valid(raw.constraints@[constraint as int])
            &&& forall|j: int|
                0 <= j < constraint ==> raw_constraint_valid(#[trigger] raw.constraints@[j])
        },
        BuildError::InvalidPublicInput { position } => {
            &&& raw_constraints_valid(raw.constraints@)
            &&& position < raw.public_inputs@.len()
            &&& !is_dec_literal(raw.public_inputs@[position as int]@)
            &&& forall|q: int|
                0 <= q < position ==> is_dec_literal(#[trigger] raw.public_inputs@[q]@)
        },
        BuildError::InvalidWitness { position } => {
            &&& raw_constraints_valid(raw.constraints@)
            &&& raw_values_valid(raw.public_inputs@)
            &&& position < raw.witness@.len()
            &&& !is_dec_literal(raw.witness@[position as int]@)
            &&& forall|q: int| 0 <= q < position ==> is_dec_literal(#[trigger] raw.witness@[q]@)
        },
        BuildError::Validation { error } => {
            &&& raw_strings_valid(raw)
            &&& match error {
                ValidationError::StateRegionTooLarge => !raw_regions_ok(raw),
                ValidationError::VariableOutOfRange { constraint } => {
                    &&& raw_regions_ok(raw)
                    &&& constraint < raw.constraints@.len()
                    &&& !raw_constraint_in_range(
                        raw.constraints@[constraint as int],
                        raw.num_variables as int,
                    )
                    &&& forall|j: int|
                        0 <= j < constraint ==> raw_constraint_in_range(
                            #[trigger] raw.constraints@[j],
                            raw.num_variables as int,
                        )
                },
                ValidationError::PublicInputsLength => {
                    &&& raw_regions_ok(raw)
                    &&& raw_constraints_in_range(raw.constraints@, raw.num_variables as int)
                    &&& !raw_public_len_ok(raw)
                },
                ValidationError::WitnessLength => {
                    &&& raw_regions_ok(raw)
                    &&& raw_constraints_in_range(raw.constraints@, raw.num_variables as int)
                    &&& raw_public_len_ok(raw)
                    &&& !raw_witness_len_ok(raw)
                },
                _ => false,
            }
        },
    }
}

fn parse_term_list(ts: &Vec<RawTerm>, m: u64) -> (r: Result<Vec<Term>, ParseError>)
    requires
        m >= 2,
    ensures
        r is Ok <==> raw_terms_valid(ts@),
        r is Ok ==> parsed_terms(ts@, r->Ok_0@, m as int),
{
    let mut out: Vec<Term> = Vec::new();
    let mut j: usize = 0;
    while j < ts.len()
        invariant
            m >= 2,
            0 <= j <= ts@.len(),
            out@.len() == j,
            forall|k: int| 0 <= k < j ==> out@[k] == term_of(#[trigger] ts@[k], m as int),
            forall|k: int| 0 <= k < j ==> is_dec_literal(#[trigger] ts@[k].coefficient@),
        decreases ts@.len() - j,
    {
        let t = &ts[j];
        match parse_field_element(t.coefficient.as_str(), m) {
            Ok(v) => {
                proof {
                    lemma_mod_bound(dec_value(ts@[j as int].coefficient@), m as int);
                }
                out.push(Term { variable: t.variable, coefficient: v });
            },
            Err(_) => {
                return Err(ParseError);
            },
        }
        j = j + 1;
    }
    Ok(out)
}

fn parse_constraint(c: &RawConstraint, m: u64) -> (r: Result<Constraint, ParseError>)
    requires
        m >= 2,
    ensures
        r is Ok <==> raw_constraint_valid(*c),
        r is Ok ==> parsed_constraint(*c, r->Ok_0, m as int),
{
    let a = match parse_term_list(&c.a, m) {
        Ok(v) => v,
        Err(_) => {
            return Err(ParseError);
        },
    };
    let b = match parse_term_list(&c.b, m) {
        Ok(v) => v,
        Err(_) => {
            return Err(ParseError);
        },
    };
    let cc = match parse_term_list(&c.c, m) {
        Ok(v) => v,
        Err(_) => {
            return Err(ParseError);
        },
    };
    Ok(Constraint { a, b, c: cc })
}

fn parse_value_list(vs: &Vec<String>, m: u64) -> (r: Result<Vec<u64>, usize>)
    requires
        m >= 2,
    ensures
        r is Ok <==> raw_values_valid(vs@),
        r is Ok ==> parsed_values(vs@, r->Ok_0@, m as int),
        r is Err ==> {
            &&& r->Err_0 < vs@.len()
            &&& !is_dec_literal(vs@[r->Err_0 as int]@)
            &&& forall|q: int| 0 <= q < r->Err_0 ==> is_dec_literal(#[trigger] vs@[q]@)
        },
{
    let mut out: Vec<u64> = Vec::new();
    let mut j: usize = 0;
    while j < vs.len()
        invariant
            m >= 2,
            0 <= j <= vs@.len(),
            out@.len() == j,
            forall|k: int| 0 <= k < j ==> out@[k] == dec_value(#[trigger] vs@[k]@) % (m as int),
            forall|k: int| 0 <= k < j ==> is_dec_literal(#[trigger] vs@[k]@),
        decreases vs@.len() - j,
    {
        match parse_field_element(vs[j].as_str(), m) {
            Ok(v) => {
                out.push(v);
            },
            Err(_) => {
                return Err(j);
            },
        }
        j = j + 1;
    }
    Ok(out)
}

fn raw_terms_range_check(ts: &Vec<RawTerm>, n: usize) -> (ok: bool)
    ensures
        ok == raw_terms_in_range(ts@, n as int),
{
    let mut j: usize = 0;
    while j < ts.len()
        invariant
            0 <= j <= ts@.len(),
            forall|k: int| 0 <= k < j ==> (#[trigger] ts@[k].variable) < n,
        decreases ts@.len() - j,
    {
        if ts[j].variable >= n {
            return false;
        }
        j = j + 1;
    }
    true
}

fn raw_constraint_range_check(c: &RawConstraint, n: usize) -> (ok: bool)
    ensures
        ok == raw_constraint_in_range(*c, n as int),
{
    let a_ok = raw_terms_range_check(&c.a, n);
    if !a_ok {
        return false;
    }
    let b_ok = raw_terms_range_check(&c.b, n);
    if !b_ok {
        return false;
    }
    raw_terms_range_check(&c.c, n)
}

/// Build the validated model from decoded input: parse every decimal literal
/// through the field codec with modulus `modulus`, then check the structural
/// invariants. Succeeds exactly on valid input; the error names the first
/// fault in scan order.
#[verifier::loop_isolation(false)]
pub fn build_r1cs(raw: &RawR1cs, modulus: u64) -> (r: Result<R1cs, BuildError>)
    requires
        modulus >= 2,
    ensures
        r is Ok <==> raw_valid(*raw),
        r is Ok ==> built_from(*raw, r->Ok_0, modulus) && well_formed(r->Ok_0),
        r is Err ==> build_error_witnessed(*raw, r->Err_0),
{
    let nv = raw.num_variables;

    let mut constraints: Vec<Constraint> = Vec::new();
    let mut i: usize = 0;
    while i < raw.constraints.len()
        invariant
            modulus >= 2,
            nv == raw.num_variables,
            0 <= i <= raw.constraints@.len(),
            constraints@.len() == i,
            forall|k: int|
                0 <= k < i ==> parsed_constraint(
                    #[trigger] raw.constraints@[k],
                    #[trigger] constraints@[k],
                    modulus as int,
                ),
            forall|k: int| 0 <= k < i ==> raw_constraint_valid(#[trigger] raw.constraints@[k]),
        decreases raw.constraints@.len() - i,
    {
        match parse_constraint(&raw.constraints[i], modulus) {
            Ok(c) => {
                constraints.push(c);
            },
            Err(_) => {
                return Err(BuildError::InvalidCoefficient { constraint: i });
            },
        }
        i = i + 1;
    }

    let public_inputs = match parse_value_list(&raw.public_inputs, modulus) {
        Ok(v) => v,
        Err(position) => {
            return Err(BuildError::InvalidPublicInput { position });
        },
    };
    let witness = match parse_value_list(&raw.witness, modulus) {
        Ok(v) => v,
        Err(position) => {
            return Err(BuildError::InvalidWitness { position });
        },
    };

    let region = match raw.io_size.checked_add(raw.num_public_inputs) {
        Some(t) => t,
        None => {
            return Err(
                BuildError::Validation { error: ValidationError::StateRegionTooLarge },
            );
        },
    };
    if region > nv {
        return Err(BuildError::Validation { error: ValidationError::StateRegionTooLarge });
    }

    let mut i: usize = 0;
    while i < raw.constraints.len()
        invariant
            nv == raw.num_variables,
            0 <= i <= raw.constraints@.len(),
            forall|k: int|
                0 <= k < i ==> raw_constraint_in_range(#[trigger] raw.constraints@[k], nv as int),
        decreases raw.constraints@.len() - i,
    {
        let in_range = raw_constraint_range_check(&raw.constraints[i], nv);
        if !in_range {
            return Err(
                BuildError::Validation {
                    error: ValidationError::VariableOutOfRange { constraint: i },
                },
            );
        }
        i = i + 1;
    }

    let public_len = raw.public_inputs.len();
    let public_len_ok = match raw.scheme_length.checked_mul(raw.num_public_inputs) {
        Some(p) => p == public_len,
        None => false,
    };
    if !public_len_ok {
        return Err(BuildError::Validation { error: ValidationError::PublicInputsLength });
    }

    let wi = nv - region;
    let witness_len = raw.witness.len();
    let witness_len_ok = match raw.scheme_length.checked_mul(wi) {
        Some(p) => p == witness_len,
        None => false,
    };
    if !witness_len_ok {
        return Err(BuildError::Validation { error: ValidationError::WitnessLength });
    }

    let r = R1cs {
        modulus,
        num_variables: raw.num_variables,
        num_public_inputs: raw.num_public_inputs,
        io_size: raw.io_size,
        scheme_length: raw.scheme_length,
        constraints,
        public_inputs,
        witness,
    };
    proof {
        assert forall|i: int| 0 <= i < r.constraints@.len() implies constraint_in_range(
            #[trigger] r.constraints@[i],
            nv as int,
        ) by {
            let rc = raw.constraints@[i];
            let pc = r.constraints@[i];
            assert(parsed_constraint(rc, pc, modulus as int));
            assert(raw_constraint_in_range(rc, nv as int));
            assert forall|j: int| 0 <= j < pc.a@.len() implies (#[trigger] pc.a@[j].variable)
                < nv as int by {
                assert(pc.a@[j] == term_of(rc.a@[j], modulus as int));
            }
            assert forall|j: int| 0 <= j < pc.b@.len() implies (#[trigger] pc.b@[j].variable)
                < nv as int by {
                assert(pc.b@[j] == term_of(rc.b@[j], modulus as int));
            }
            assert forall|j: int| 0 <= j < pc.c@.len() implies (#[trigger] pc.c@[j].variable)
                < nv as int by {
                assert(pc.c@[j] == term_of(rc.c@[j], modulus as int));
            }
        }
    }
    Ok(r)
}

} // verus!
