//! The boundary to the proof-system crates.
//!
//! Everything a column gadget needs from the outside world crosses this
//! module: the scalar field and packed domain values, allocated witness
//! variables, the constraint-system builders that circuit construction runs
//! against, and the poseidon hash sub-circuit.  Each item below either
//! declares an outside type to the verifier or wraps one outside call behind
//! a contract that states what that crate's source shows.

use vstd::prelude::*;

use bellperson::gadgets::num::AllocatedNum;
use bellperson::gadgets::test::TestConstraintSystem;
use bellperson::util_cs::metric_cs::MetricCS;
use bellperson::ConstraintSystem;
use blstrs::Scalar as Fr;
use filecoin_hashers::poseidon::PoseidonDomain;
use filecoin_hashers::{POSEIDON_CONSTANTS_11, POSEIDON_CONSTANTS_2};
use neptune::circuit2::poseidon_hash_allocated;

verus! {

#[verifier::external_type_specification]
#[verifier::external_body]
pub struct ExFr(Fr);

#[verifier::external_type_specification]
#[verifier::external_body]
pub struct ExSynthesisError(bellperson::SynthesisError);

#[verifier::external_type_specification]
#[verifier::external_body]
pub struct ExPoseidonDomain(PoseidonDomain);

/// One allocated witness variable of the circuit, as bellpepper's
/// `AllocatedNum` hands it out (that type's generic bounds cannot be declared
/// to the verifier, so the variable is held in an opaque struct instead).
/// The spec reads it through `num_value`.
#[verifier::external_body]
pub struct ColumnVariable {
    inner: AllocatedNum<Fr>,
}

/// The field element assigned to an allocated witness variable, if one was
/// supplied: the value that bellpepper's `AllocatedNum::get_value` reads back.
pub uninterp spec fn num_value(n: ColumnVariable) -> Option<Fr>;

/// The field element a packed domain value decodes to: what blstrs's
/// `Scalar::from_repr_vartime` returns on the 32 stored bytes.  `None` means
/// the bytes do not encode a canonical field element.
pub uninterp spec fn domain_fr(d: PoseidonDomain) -> Option<Fr>;

/// The poseidon digest of an ordered sequence of field elements, under the
/// constants that `filecoin_hashers` fixes for that arity.  The digest is a
/// function of the ordered values alone.
pub uninterp spec fn column_digest(vals: Seq<Fr>) -> Fr;

/// Whether a builder runs in blank mode: it fixes the circuit's shape but
/// ignores assignments, so every variable it allocates stays unassigned.
pub uninterp spec fn cs_is_blank(cs: ColumnCS) -> bool;

/// Every variable in the sequence carries an assigned value.
pub open spec fn all_assigned(rows: Seq<ColumnVariable>) -> bool {
    forall|i: int| 0 <= i < rows.len() ==> (#[trigger] num_value(rows[i])) is Some
}

/// The assigned values of the sequence, in order.
pub open spec fn assigned_values(rows: Seq<ColumnVariable>) -> Seq<Fr> {
    Seq::new(rows.len(), |i: int| num_value(rows[i]).unwrap())
}

impl Clone for ColumnVariable {
    /// Relies on bellpepper's hand-written `Clone` for `AllocatedNum`, which
    /// keeps the variable's index and its assigned value.
    #[verifier::external_body]
    fn clone(&self) -> (r: ColumnVariable)
        ensures
            num_value(r) == num_value(*self),
    {
        ColumnVariable { inner: self.inner.clone() }
    }
}

impl ColumnVariable {
    /// Relies on bellpepper's `AllocatedNum::get_value`: it returns the
    /// variable's assigned value, or `None` when none was supplied.
    #[verifier::external_body]
    pub fn value(&self) -> (r: Option<Fr>)
        ensures
            r == num_value(*self),
    {
        self.inner.get_value()
    }
}

/// A failure raised while building the circuit.
#[derive(Debug)]
pub enum SynthesisFailure {
    /// A variable was allocated in a recording (non-blank) builder and no
    /// concrete value was supplied for it.
    AssignmentMissing,
    /// Any other failure of the underlying proof-system crates, carried
    /// through unchanged.
    Delegated(bellperson::SynthesisError),
}

/// Tells the outside error's variants apart: the assignment-missing condition
/// keeps its own variant, and every other failure of the proof-system crates
/// is carried through unchanged.
#[verifier::external_body]
fn wrap_error(e: bellperson::SynthesisError) -> SynthesisFailure {
    match e {
        bellperson::SynthesisError::AssignmentMissing => SynthesisFailure::AssignmentMissing,
        other => SynthesisFailure::Delegated(other),
    }
}

/// A constraint-system builder, borrowed for the duration of one allocation
/// or hash operation.  It wraps one of two builders of `bellperson`:
/// `TestConstraintSystem`, which records every assignment, or `MetricCS`,
/// which ignores assignments and only fixes the circuit's shape (blank mode).
/// `next_label` grows with each operation so that every variable gets a fresh
/// label; both builders abort on a repeated label path, so freshness keeps
/// the wrapped calls total.
#[verifier::external_body]
pub struct ColumnCS {
    concrete: Option<TestConstraintSystem<Fr>>,
    blank: Option<MetricCS<Fr>>,
    next_label: u64,
}

impl ColumnCS {
    /// Relies on bellperson's `TestConstraintSystem::new`: a fresh builder
    /// that evaluates every assignment closure and records the values.
    #[verifier::external_body]
    pub fn new_concrete() -> (r: ColumnCS)
        ensures
            !cs_is_blank(r),
    {
        ColumnCS { concrete: Some(TestConstraintSystem::new()), blank: None, next_label: 0 }
    }

    /// Relies on bellperson's `MetricCS::new`: a fresh builder that ignores
    /// assignment closures, so every variable it hands out is unassigned.
    #[verifier::external_body]
    pub fn new_blank() -> (r: ColumnCS)
        ensures
            cs_is_blank(r),
    {
        ColumnCS { blank: Some(MetricCS::new()), concrete: None, next_label: 0 }
    }
}

/// Relies on `From<PoseidonDomain> for Scalar` of `filecoin_hashers`, which
/// decodes the stored bytes with `Scalar::from_repr_vartime` and aborts when
/// they are not canonical; the precondition rules that out.
#[verifier::external_body]
pub(crate) fn domain_to_fr(d: &PoseidonDomain) -> (r: Fr)
    requires
        domain_fr(*d) is Some,
    ensures
        Some(r) == domain_fr(*d),
{
    Fr::from(*d)
}

/// Relies on bellpepper's `AllocatedNum::alloc` (re-exported by bellperson):
/// it allocates one fresh witness variable, drawing its value from a closure.
/// `TestConstraintSystem::alloc` evaluates the closure, so the variable
/// carries the given value and a missing one surfaces as the assignment-
/// missing failure; `MetricCS::alloc` never runs it and always succeeds with
/// the variable left unassigned.
#[verifier::external_body]
pub(crate) fn alloc_row(cs: &mut ColumnCS, val: &Option<Fr>) -> (r: Result<
    ColumnVariable,
    SynthesisFailure,
>)
    ensures
        cs_is_blank(*final(cs)) == cs_is_blank(*old(cs)),
        cs_is_blank(*old(cs)) ==> r is Ok && num_value(r.unwrap()) is None,
        !cs_is_blank(*old(cs)) && val is Some ==> r is Ok && num_value(r.unwrap()) == *val,
        !cs_is_blank(*old(cs)) && val is None ==> r is Err && r->Err_0 is AssignmentMissing,
{
    let name = format!("column_num_row_{}", cs.next_label);
    cs.next_label = cs.next_label.wrapping_add(1);
    let value = || val.clone().ok_or(bellperson::SynthesisError::AssignmentMissing);
    let out = match cs.concrete.as_mut() {
        Some(tcs) => AllocatedNum::alloc(tcs.namespace(|| name), value),
        None => AllocatedNum::alloc(cs.blank.as_mut().unwrap().namespace(|| name), value),
    };
    out.map(|inner| ColumnVariable { inner }).map_err(wrap_error)
}

/// Relies on neptune's `poseidon_hash_allocated` with the two-element
/// constants of `filecoin_hashers`: it adds the hash sub-circuit and returns
/// one variable whose value, on a recording builder with a fully assigned
/// preimage, is the poseidon digest of the ordered input values; on a blank
/// builder the result stays unassigned.  The preimage length must match the
/// arity of the constants, and on a recording builder every input must carry
/// a value, since the sub-circuit aborts on a missing one.
#[verifier::external_body]
pub(crate) fn hash_rows_two(cs: &mut ColumnCS, rows: &Vec<ColumnVariable>) -> (r: Result<
    ColumnVariable,
    SynthesisFailure,
>)
    requires
        rows@.len() == 2,
        cs_is_blank(*old(cs)) || all_assigned(rows@),
    ensures
        cs_is_blank(*final(cs)) == cs_is_blank(*old(cs)),
        r is Ok,
        cs_is_blank(*old(cs)) ==> num_value(r.unwrap()) is None,
        !cs_is_blank(*old(cs)) ==> num_value(r.unwrap()) == Some(
            column_digest(assigned_values(rows@)),
        ),
{
    let name = format!("column_hash_{}", cs.next_label);
    cs.next_label = cs.next_label.wrapping_add(1);
    let nums: Vec<AllocatedNum<Fr>> = rows.iter().map(|v| v.inner.clone()).collect();
    let out = match cs.concrete.as_mut() {
        Some(tcs) => poseidon_hash_allocated(tcs.namespace(|| name), nums, &*POSEIDON_CONSTANTS_2),
        None => poseidon_hash_allocated(
            cs.blank.as_mut().unwrap().namespace(|| name),
            nums,
            &*POSEIDON_CONSTANTS_2,
        ),
    };
    out.map(|inner| ColumnVariable { inner }).map_err(wrap_error)
}

/// Relies on neptune's `poseidon_hash_allocated` with the eleven-element
/// constants of `filecoin_hashers`; see `hash_rows_two` for what the call
/// does and why the preconditions keep it total.
#[verifier::external_body]
pub(crate) fn hash_rows_eleven(cs: &mut ColumnCS, rows: &Vec<ColumnVariable>) -> (r: Result<
    ColumnVariable,
    SynthesisFailure,
>)
    requires
        rows@.len() == 11,
        cs_is_blank(*old(cs)) || all_assigned(rows@),
    ensures
        cs_is_blank(*final(cs)) == cs_is_blank(*old(cs)),
        r is Ok,
        cs_is_blank(*old(cs)) ==> num_value(r.unwrap()) is None,
        !cs_is_blank(*old(cs)) ==> num_value(r.unwrap()) == Some(
            column_digest(assigned_values(rows@)),
        ),
{
    let name = format!("column_hash_{}", cs.next_label);
    cs.next_label = cs.next_label.wrapping_add(1);
    let nums: Vec<AllocatedNum<Fr>> = rows.iter().map(|v| v.inner.clone()).collect();
    let out = match cs.concrete.as_mut() {
        Some(tcs) => poseidon_hash_allocated(tcs.namespace(|| name), nums, &*POSEIDON_CONSTANTS_11),
        None => poseidon_hash_allocated(
            cs.blank.as_mut().unwrap().namespace(|| name),
            nums,
            &*POSEIDON_CONSTANTS_11,
        ),
    };
    out.map(|inner| ColumnVariable { inner }).map_err(wrap_error)
}

} // verus!
