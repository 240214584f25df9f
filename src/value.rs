use vstd::prelude::*;

use crate::record::{fields_result, RecordDef};
use crate::synth::{is_expansion_of, Expansion, Factory};

verus! {

/// A value of a generated builder type, seen as one optional slot per field, in the order
/// the fields are declared. `V` stands for the values the fields hold.
pub struct BuilderValue<V> {
    pub slots: Vec<Option<V>>,
}

/// `n` slots, every one absent.
pub open spec fn absent_slots<V>(n: nat) -> Seq<Option<V>> {
    Seq::new(n, |i: int| None::<V>)
}

/// The slots after the setter of field `i` is called with `v`.
pub open spec fn set_slot<V>(slots: Seq<Option<V>>, i: int, v: V) -> Seq<Option<V>> {
    slots.update(i, Some(v))
}

impl Factory {
    /// The builder value the generated factory returns: one absent slot per field.
    pub fn invoke<V>(&self) -> (r: BuilderValue<V>)
        ensures
            r.slots@ == absent_slots::<V>(self.fields@.len()),
    {
        let mut slots: Vec<Option<V>> = Vec::new();
        let mut i: usize = 0;
        while i < self.fields.len()
            invariant
                i <= self.fields@.len(),
                slots@ == absent_slots::<V>(i as nat),
            decreases self.fields@.len() - i,
        {
            slots.push(None);
            assert(slots@ =~= absent_slots::<V>((i + 1) as nat));
            i = i + 1;
        }
        BuilderValue { slots }
    }
}

impl<V> BuilderValue<V> {
    /// The setter of field `i`: stores `v` as present, leaves every other field as it was,
    /// and returns the builder for further calls.
    pub fn set(&mut self, i: usize, v: V) -> (r: &mut Self)
        requires
            i < old(self).slots@.len(),
        ensures
            r.slots@ == set_slot(old(self).slots@, i as int, v),
            *final(self) == *final(r),
    {
        self.slots.set(i, Some(v));
        self
    }

    /// The current content of field `i`.
    pub fn get(&self, i: usize) -> (r: &Option<V>)
        requires
            i < self.slots@.len(),
        ensures
            *r == self.slots@[i as int],
    {
        &self.slots[i]
    }
}

/// For every valid record, the factory initialises each field of the generated builder, in
/// order, and the value it returns holds every field absent.
pub proof fn lemma_factory_complete<V>(rec: RecordDef, e: Expansion)
    requires
        fields_result(rec.data) is Ok,
        is_expansion_of(e, rec.vis@, rec.ident@, fields_result(rec.data)->Ok_0@),
    ensures
        e.factory.fields@.len() == e.builder.fields@.len(),
        forall|i: int|
            0 <= i < e.builder.fields@.len() ==> #[trigger] e.factory.fields@[i]@
                == e.builder.fields@[i].name@,
        absent_slots::<V>(e.factory.fields@.len()).len() == e.builder.fields@.len(),
        forall|i: int|
            0 <= i < e.builder.fields@.len() ==> #[trigger] absent_slots::<V>(
                e.factory.fields@.len(),
            )[i] is None,
{
    let fs = fields_result(rec.data)->Ok_0@;
    assert forall|i: int| 0 <= i < e.builder.fields@.len() implies #[trigger] e.factory.fields@[i]@
        == e.builder.fields@[i].name@ by {
        assert(e.factory.fields@[i]@ == fs[i].name@);
        assert(e.builder.fields@[i].name@ == fs[i].name@);
    }
}

/// Calling the setter of field `i` with `v` makes field `i` hold exactly `v`, and changes no
/// other field.
pub proof fn lemma_set_round_trip<V>(slots: Seq<Option<V>>, i: int, v: V)
    requires
        0 <= i < slots.len(),
    ensures
        set_slot(slots, i, v).len() == slots.len(),
        set_slot(slots, i, v)[i] == Some(v),
        forall|j: int| 0 <= j < slots.len() && j != i ==> #[trigger] set_slot(slots, i, v)[j] == slots[j],
{
}

/// Setters of two distinct fields commute: the order of the calls does not change the result.
pub proof fn lemma_setters_commute<V>(slots: Seq<Option<V>>, i: int, vi: V, j: int, vj: V)
    requires
        0 <= i < slots.len(),
        0 <= j < slots.len(),
        i != j,
    ensures
        set_slot(set_slot(slots, i, vi), j, vj) == set_slot(set_slot(slots, j, vj), i, vi),
{
    assert(set_slot(set_slot(slots, i, vi), j, vj) =~= set_slot(set_slot(slots, j, vj), i, vi));
}

/// Calling the same setter twice keeps only the second value.
pub proof fn lemma_set_overwrites<V>(slots: Seq<Option<V>>, i: int, v1: V, v2: V)
    requires
        0 <= i < slots.len(),
    ensures
        set_slot(set_slot(slots, i, v1), i, v2) == set_slot(slots, i, v2),
{
    assert(set_slot(set_slot(slots, i, v1), i, v2) =~= set_slot(slots, i, v2));
}

} // verus!
