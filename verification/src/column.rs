//! Witness columns of a layered encoding and their allocation in a circuit.
//!
//! A column is the ordered sequence of per-layer encoded values that a
//! layered encoding produces for one challenged leaf.  `Column` carries those
//! values as optional field elements (absent in a blank, shape-only circuit);
//! `Column::allocate` binds each one to a constraint-system witness variable,
//! and the resulting `AllocatedColumn` offers per-layer lookup and folds its
//! variables into a single digest through the poseidon hash sub-circuit.

use vstd::prelude::*;

use blstrs::Scalar as Fr;
use filecoin_hashers::poseidon::PoseidonDomain;

use crate::system::{
    all_assigned, alloc_row, assigned_values, column_digest, cs_is_blank, domain_fr, domain_to_fr,
    hash_rows_eleven, hash_rows_two, num_value, ColumnCS, ColumnVariable, SynthesisFailure,
};

verus! {

/// The public parameters a column gadget reads: the number of layers of the
/// encoding, which fixes every column's length for one circuit instance.
pub struct PublicParams {
    pub layers: usize,
}

/// A plain ("vanilla") column as the encoding pipeline hands it over: one
/// packed domain value per layer, ordered by layer.
pub struct VanillaColumn {
    pub rows: Vec<PoseidonDomain>,
}

/// Every packed domain value in the sequence decodes to a field element.
pub open spec fn all_in_field(rows: Seq<PoseidonDomain>) -> bool {
    forall|i: int| 0 <= i < rows.len() ==> (#[trigger] domain_fr(rows[i])) is Some
}

/// Every entry of the witness column carries a concrete value.
pub open spec fn all_present(rows: Seq<Option<Fr>>) -> bool {
    forall|i: int| 0 <= i < rows.len() ==> (#[trigger] rows[i]) is Some
}

/// A witness column: one optional field element per layer.  Entry `i`
/// (0-based) belongs to layer `i + 1`.  All entries are present when the
/// column was converted from plain data, and all are absent when it was built
/// as a blank template.
#[derive(Debug, Clone)]
pub struct Column {
    rows: Vec<Option<Fr>>,
}

impl View for Column {
    type V = Seq<Option<Fr>>;

    closed spec fn view(&self) -> Seq<Option<Fr>> {
        self.rows@
    }
}

impl Column {
    /// Convert a plain column into a witness column: every per-layer domain
    /// value is decoded into a field element and every entry is present, in
    /// layer order.  The domain values must be canonical, as the ones the
    /// encoding pipeline produces always are; decoding a non-canonical one
    /// would abort inside the field crate.
    pub fn from_vanilla(other: VanillaColumn) -> (r: Column)
        requires
            all_in_field(other.rows@),
        ensures
            r@.len() == other.rows@.len(),
            forall|i: int|
                0 <= i < r@.len() ==> r@[i] == Some(domain_fr(other.rows@[i]).unwrap()),
    {
        let mut rows: Vec<Option<Fr>> = Vec::new();
        let mut i: usize = 0;
        while i < other.rows.len()
            invariant
                i <= other.rows@.len(),
                all_in_field(other.rows@),
                rows@.len() == i as int,
                forall|j: int|
                    0 <= j < i as int ==> rows@[j] == Some(domain_fr(other.rows@[j]).unwrap()),
            decreases other.rows@.len() - i,
        {
            let fr = domain_to_fr(&other.rows[i]);
            rows.push(Some(fr));
            i += 1;
        }
        Column { rows }
    }

    /// Create an empty witness column of one entry per layer, every entry
    /// absent.  Used to build blank circuits, whose shape must be fixed
    /// without real witness data.
    pub fn empty(params: &PublicParams) -> (r: Column)
        ensures
            r@.len() == params.layers,
            forall|i: int| 0 <= i < r@.len() ==> (#[trigger] r@[i]) is None,
    {
        let mut rows: Vec<Option<Fr>> = Vec::new();
        let mut i: usize = 0;
        while i < params.layers
            invariant
                i <= params.layers,
                rows@.len() == i as int,
                forall|j: int| 0 <= j < i as int ==> (#[trigger] rows@[j]) is None,
            decreases params.layers - i,
        {
            rows.push(None);
            i += 1;
        }
        Column { rows }
    }

    /// Consume this column and allocate its values in the circuit, one fresh
    /// witness variable per layer, in increasing layer order.
    ///
    /// In blank mode the allocation always succeeds and every variable stays
    /// unassigned.  In recording mode it succeeds exactly when every entry is
    /// present, and the variables then carry the column's values in layer
    /// order; a missing entry surfaces as the assignment-missing failure, the
    /// one circuit-construction condition that must fail rather than default.
    #[verifier::loop_isolation(false)]
    pub fn allocate(self, cs: &mut ColumnCS) -> (r: Result<AllocatedColumn, SynthesisFailure>)
        ensures
            cs_is_blank(*final(cs)) == cs_is_blank(*old(cs)),
            r is Ok <==> (cs_is_blank(*old(cs)) || all_present(self@)),
            r is Err ==> r->Err_0 is AssignmentMissing,
            r is Ok ==> r.unwrap()@.len() == self@.len(),
            r is Ok && cs_is_blank(*old(cs)) ==> forall|i: int|
                0 <= i < self@.len() ==> num_value(#[trigger] r.unwrap()@[i]) is None,
            r is Ok && !cs_is_blank(*old(cs)) ==> forall|i: int|
                0 <= i < self@.len() ==> num_value(#[trigger] r.unwrap()@[i]) == self@[i],
    {
        let Column { rows } = self;
        let ghost cs0 = *cs;
        let mut out: Vec<ColumnVariable> = Vec::new();
        let mut i: usize = 0;
        while i < rows.len()
            invariant
                i <= rows@.len(),
                cs_is_blank(*cs) == cs_is_blank(cs0),
                out@.len() == i as int,
                cs_is_blank(cs0) ==> forall|j: int|
                    0 <= j < i as int ==> num_value(#[trigger] out@[j]) is None,
                !cs_is_blank(cs0) ==> forall|j: int|
                    0 <= j < i as int ==> (#[trigger] rows@[j]) is Some,
                !cs_is_blank(cs0) ==> forall|j: int|
                    0 <= j < i as int ==> num_value(#[trigger] out@[j]) == rows@[j],
            decreases rows@.len() - i,
        {
            match alloc_row(cs, &rows[i]) {
                Ok(num) => out.push(num),
                Err(e) => {
                    return Err(e);
                },
            }
            i += 1;
        }
        Ok(AllocatedColumn { rows: out })
    }
}

/// A column whose values are bound into the constraint system: one witness
/// variable per layer, in layer order, never mutated after creation.
#[derive(Clone)]
pub struct AllocatedColumn {
    rows: Vec<ColumnVariable>,
}

impl View for AllocatedColumn {
    type V = Seq<ColumnVariable>;

    closed spec fn view(&self) -> Seq<ColumnVariable> {
        self.rows@
    }
}

impl AllocatedColumn {
    /// The assigned values of this column's variables, in layer order.
    pub open spec fn values(&self) -> Seq<Option<Fr>> {
        Seq::new(self@.len(), |i: int| num_value(self@[i]))
    }

    /// The digest this column's ordered values hash to.
    pub open spec fn digest(&self) -> Fr
        recommends
            all_assigned(self@),
    {
        column_digest(assigned_values(self@))
    }

    /// The number of layers.
    pub fn len(&self) -> (r: usize)
        ensures
            r == self@.len(),
    {
        self.rows.len()
    }

    /// The witness variable of the given layer.  Layers are 1-indexed: layer
    /// `i` is the variable at position `i - 1` in allocation order.  An index
    /// outside `1..=len` is a programmer error, ruled out by precondition
    /// rather than reported at run time.
    pub fn get_value(&self, layer: usize) -> (r: &ColumnVariable)
        requires
            1 <= layer <= self@.len(),
        ensures
            *r == self@[layer - 1],
    {
        &self.rows[layer - 1]
    }

    /// Create the column hash of this column: the hash sub-circuit consumes
    /// the variables in layer order and returns one variable carrying the
    /// digest of the column's values (unassigned in blank mode).  The
    /// sub-circuit's constants exist for the two column shapes the encoding
    /// uses, and on a recording builder every variable must carry a value,
    /// since the sub-circuit aborts on a missing one.
    pub fn hash(&self, cs: &mut ColumnCS) -> (r: Result<ColumnVariable, SynthesisFailure>)
        requires
            self@.len() == 2 || self@.len() == 11,
            cs_is_blank(*old(cs)) || all_assigned(self@),
        ensures
            cs_is_blank(*final(cs)) == cs_is_blank(*old(cs)),
            r is Ok,
            cs_is_blank(*old(cs)) ==> num_value(r.unwrap()) is None,
            !cs_is_blank(*old(cs)) ==> num_value(r.unwrap()) == Some(self.digest()),
    {
        if self.rows.len() == 2 {
            hash_rows_two(cs, &self.rows)
        } else {
            hash_rows_eleven(cs, &self.rows)
        }
    }
}

/// Law: the column digest depends on the ordered sequence of assigned values
/// alone.  Two allocated columns whose variables carry the same values in the
/// same layer order hash to the same digest, whatever circuit each was
/// allocated into.
pub proof fn lemma_digest_deterministic(a: AllocatedColumn, b: AllocatedColumn)
    requires
        all_assigned(a@),
        a.values() =~= b.values(),
    ensures
        a.digest() == b.digest(),
{
    assert(a@.len() == b@.len()) by {
        assert(a.values().len() == b.values().len());
    }
    assert forall|i: int| 0 <= i < a@.len() implies assigned_values(a@)[i] == assigned_values(
        b@,
    )[i] by {
        assert(a.values()[i] == b.values()[i]);
    }
    assert(assigned_values(a@) =~= assigned_values(b@));
}

} // verus!
