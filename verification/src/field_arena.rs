//! The fields of one page, kept in a dense slot map and addressed by ids
//! that are never handed out twice.

use crate::geometry::Rect;
use crate::pdf_text_input::{FieldModel, PdfInputFieldState};
use slotmap::{DefaultKey, DenseSlotMap, Key, KeyData};
use vstd::prelude::*;

verus! {

/// The number of fields above which an arena takes no more.
pub const FIELD_CAPACITY: usize = 0xFFFF_FFFE;

/// A `slotmap::DenseSlotMap` of fields under `slotmap::DefaultKey`. What
/// it holds is known to the verifier only through [`slot_fields`] and
/// [`slot_order`].
#[verifier::external_body]
pub struct FieldSlots {
    inner: DenseSlotMap<DefaultKey, PdfInputFieldState>,
}

/// The fields that a slot map holds, each under the 64-bit form of its key
/// (`KeyData::as_ffi`).
pub uninterp spec fn slot_fields(slots: FieldSlots) -> Map<u64, PdfInputFieldState>;

/// The keys of a slot map, in 64-bit form, in the order in which the slot
/// map holds them.
pub uninterp spec fn slot_order(slots: FieldSlots) -> Seq<u64>;

/// The 64-bit form of the key that `KeyData::from_ffi` makes of `raw`: the
/// version, held in the upper half, is made odd.
pub open spec fn slot_key(raw: u64) -> u64 {
    raw | 0x1_0000_0000
}

/// `DenseSlotMap::new`: an empty slot map.
#[verifier::external_body]
fn slots_new() -> (slots: FieldSlots)
    ensures
        slot_fields(slots).dom() == Set::<u64>::empty(),
        slot_order(slots) == Seq::<u64>::empty(),
{
    FieldSlots { inner: DenseSlotMap::new() }
}

/// `DenseSlotMap::len`: the number of keys.
#[verifier::external_body]
fn slots_len(slots: &FieldSlots) -> (len: usize)
    ensures
        len == slot_order(*slots).len(),
{
    slots.inner.len()
}

/// `DenseSlotMap::insert`: stores `field` under a key that the slot map
/// does not hold yet and that comes last, and returns the key's 64-bit form,
/// which `KeyData::from_ffi` maps back to the same key. The slot map panics
/// when it holds 2^32 - 2 elements, so fewer are required.
#[verifier::external_body]
fn slots_insert(slots: &mut FieldSlots, field: PdfInputFieldState) -> (raw: u64)
    requires
        slot_order(*old(slots)).len() < FIELD_CAPACITY,
    ensures
        slot_key(raw) == raw,
        !slot_fields(*old(slots)).dom().contains(raw),
        slot_fields(*final(slots)) == slot_fields(*old(slots)).insert(raw, field),
        slot_order(*final(slots)) == slot_order(*old(slots)).push(raw),
{
    slots.inner.insert(field).data().as_ffi()
}

/// `DenseSlotMap::get` with the key that `KeyData::from_ffi` makes of
/// `raw`: the field under that key, if the slot map holds it.
#[verifier::external_body]
fn slots_get(slots: &FieldSlots, raw: u64) -> (field: Option<&PdfInputFieldState>)
    ensures
        match field {
            Some(found) => slot_fields(*slots).dom().contains(slot_key(raw)) && *found
                == slot_fields(*slots)[slot_key(raw)],
            None => !slot_fields(*slots).dom().contains(slot_key(raw)),
        },
{
    slots.inner.get(DefaultKey::from(KeyData::from_ffi(raw)))
}

/// `DenseSlotMap::get_mut` with the key that `KeyData::from_ffi` makes of
/// `raw`: the field under that key for writing, if the slot map holds it.
/// Whatever is written replaces that field; keys and order stay. The
/// lookup has no way to panic.
#[verifier::external_body]
fn slots_get_mut(slots: &mut FieldSlots, raw: u64) -> (field: Option<&mut PdfInputFieldState>)
    ensures
        match field {
            Some(found) => slot_fields(*old(slots)).dom().contains(slot_key(raw)) && *found
                == slot_fields(*old(slots))[slot_key(raw)] && slot_fields(*final(slots))
                == slot_fields(*old(slots)).insert(slot_key(raw), *final(found)) && slot_order(
                *final(slots),
            ) == slot_order(*old(slots)),
            None => !slot_fields(*old(slots)).dom().contains(slot_key(raw)) && *final(slots)
                == *old(slots),
        },
    no_unwind
{
    slots.inner.get_mut(DefaultKey::from(KeyData::from_ffi(raw)))
}

/// `DenseSlotMap::keys_as_slice`, read at `index`: the key that the slot
/// map holds at that place, in its 64-bit form. The index has to be below
/// the number of keys.
#[verifier::external_body]
fn slots_key_at(slots: &FieldSlots, index: usize) -> (raw: u64)
    requires
        index < slot_order(*slots).len(),
    ensures
        raw == slot_order(*slots)[index as int],
{
    slots.inner.keys_as_slice()[index].data().as_ffi()
}

/// Names a field within the arena that issued it. An id of one arena
/// means nothing in another.
#[derive(Clone, Copy, Debug, PartialEq, Eq, Hash, Structural)]
pub struct FieldId {
    raw: u64,
}

impl View for FieldId {
    type V = u64;

    closed spec fn view(&self) -> u64 {
        self.raw
    }
}

impl FieldId {
    /// Holds of every id that exists at run time.
    #[verifier::type_invariant]
    pub closed spec fn well_formed(self) -> bool {
        slot_key(self.raw) == self.raw
    }

    /// The id as a number, for showing it.
    pub fn raw(&self) -> (raw: u64)
        ensures
            raw == self@,
    {
        self.raw
    }
}

/// Two ids are the same id exactly if they are the same number.
pub proof fn lemma_field_id_is_its_number(a: FieldId, b: FieldId)
    ensures
        (a == b) <==> (a@ == b@),
{
}

/// The mathematical content of a [`FieldArena`].
pub struct ArenaModel {
    /// The fields, each under the number of its id.
    pub fields: Map<u64, FieldModel>,
    /// The ids' numbers in the order in which the fields were inserted.
    pub order: Seq<u64>,
}

impl ArenaModel {
    pub open spec fn empty() -> ArenaModel {
        ArenaModel { fields: Map::empty(), order: Seq::empty() }
    }

    /// Every field is listed once in `order`, and nothing else is.
    pub open spec fn is_consistent(self) -> bool {
        &&& self.order.no_duplicates()
        &&& forall|id: u64| self.fields.contains_key(id) <==> self.order.contains(id)
    }

    /// The arena with one more field, under an id it did not hold.
    pub open spec fn with_field(self, id: u64, field: FieldModel) -> ArenaModel {
        ArenaModel { fields: self.fields.insert(id, field), order: self.order.push(id) }
    }

    /// The arena into which the fields `fields` were inserted one after
    /// the other, each under the id at the same place of `ids`.
    pub open spec fn built(ids: Seq<u64>, fields: Seq<FieldModel>) -> ArenaModel
        decreases ids.len(),
    {
        if ids.len() == 0 {
            ArenaModel::empty()
        } else {
            ArenaModel::built(ids.drop_last(), fields.drop_last()).with_field(
                ids.last(),
                fields.last(),
            )
        }
    }

    /// The arena with the field under `id` replaced, if there is one.
    pub open spec fn with_changed(self, id: u64, field: FieldModel) -> ArenaModel {
        if self.fields.contains_key(id) {
            ArenaModel { fields: self.fields.insert(id, field), order: self.order }
        } else {
            self
        }
    }
}

/// The content of each stored field.
pub open spec fn field_models(fields: Map<u64, PdfInputFieldState>) -> Map<u64, FieldModel> {
    fields.map_values(|field: PdfInputFieldState| field@)
}

proof fn lemma_field_models_insert(fields: Map<u64, PdfInputFieldState>, key: u64)
    ensures
        forall|field: PdfInputFieldState| #[trigger]
            field_models(fields.insert(key, field)) == field_models(fields).insert(key, field@),
{
    assert forall|field: PdfInputFieldState| #[trigger]
        field_models(fields.insert(key, field)) == field_models(fields).insert(
            key,
            field@,
        ) by {
        assert(field_models(fields.insert(key, field)) =~= field_models(fields).insert(
            key,
            field@,
        ));
    }
}

/// The fields of one page.
pub struct FieldArena {
    slots: FieldSlots,
}

impl View for FieldArena {
    type V = ArenaModel;

    closed spec fn view(&self) -> ArenaModel {
        ArenaModel {
            fields: field_models(slot_fields(self.slots)),
            order: slot_order(self.slots),
        }
    }
}

impl FieldArena {
    /// Holds of every arena that exists at run time.
    #[verifier::type_invariant]
    pub closed spec fn well_formed(self) -> bool {
        &&& slot_order(self.slots).no_duplicates()
        &&& forall|k: u64| #[trigger]
            slot_fields(self.slots).dom().contains(k) <==> slot_order(self.slots).contains(k)
        &&& forall|k: u64| #[trigger]
            slot_fields(self.slots).dom().contains(k) ==> slot_key(k) == k
    }

    /// An arena without fields.
    pub fn new() -> (arena: Self)
        ensures
            arena@ == ArenaModel::empty(),
            arena@.is_consistent(),
    {
        let slots = slots_new();
        assert(field_models(slot_fields(slots)) =~= Map::<u64, FieldModel>::empty());
        FieldArena { slots }
    }

    /// The number of fields.
    pub fn len(&self) -> (len: usize)
        ensures
            len == self@.order.len(),
            self@.is_consistent(),
    {
        proof {
            use_type_invariant(self);
        }
        slots_len(&self.slots)
    }

    /// Whether the arena takes no more fields.
    pub fn is_full(&self) -> (full: bool)
        ensures
            full == (self@.order.len() >= FIELD_CAPACITY),
    {
        slots_len(&self.slots) >= FIELD_CAPACITY
    }

    /// Adds a field at `rect`, with no text and in the idle state, and
    /// returns its id. The id was not in use before and the fields that were
    /// there stay as they are, so no two fields of an arena ever share an id.
    pub fn insert(&mut self, rect: Rect) -> (id: FieldId)
        requires
            old(self)@.order.len() < FIELD_CAPACITY,
        ensures
            !old(self)@.fields.contains_key(id@),
            !old(self)@.order.contains(id@),
            final(self)@ == old(self)@.with_field(id@, FieldModel::fresh(rect@)),
            final(self)@.is_consistent(),
    {
        proof {
            use_type_invariant(&*self);
        }
        let field = PdfInputFieldState::new(rect);
        let mut slots = slots_new();
        std::mem::swap(&mut slots, &mut self.slots);
        let ghost before = slot_fields(slots);
        let ghost order = slot_order(slots);
        let raw: u64 = slots_insert(&mut slots, field);
        proof {
            lemma_field_models_insert(before, raw);
            assert forall|k: u64| #[trigger]
                slot_fields(slots).dom().contains(k) <==> slot_order(slots).contains(k) by {
                if k != raw {
                    assert(slot_order(slots).contains(k) <==> order.contains(k)) by {
                        if order.contains(k) {
                            let i = choose|i: int| 0 <= i < order.len() && order[i] == k;
                            assert(slot_order(slots)[i] == k);
                        }
                    }
                } else {
                    assert(slot_order(slots)[order.len() as int] == raw);
                }
            }
        }
        self.slots = slots;
        FieldId { raw }
    }

    /// Adds a field as [`FieldArena::insert`] does, unless the arena is
    /// full: then nothing changes and there is no id.
    pub fn try_insert(&mut self, rect: Rect) -> (id: Option<FieldId>)
        ensures
            id is Some <==> old(self)@.order.len() < FIELD_CAPACITY,
            match id {
                Some(id) => !old(self)@.fields.contains_key(id@) && final(self)@ == old(
                    self,
                )@.with_field(id@, FieldModel::fresh(rect@)),
                None => final(self)@ == old(self)@,
            },
            final(self)@.is_consistent(),
    {
        if self.is_full() {
            proof {
                use_type_invariant(&*self);
            }
            None
        } else {
            Some(self.insert(rect))
        }
    }

    /// The field under `id`, or `None` where the arena holds none: an id
    /// that is not, or no longer, in use is an ordinary answer.
    pub fn get(&self, id: FieldId) -> (field: Option<&PdfInputFieldState>)
        ensures
            field is Some <==> self@.fields.contains_key(id@),
            field is Some ==> field->0@ == self@.fields[id@],
    {
        proof {
            use_type_invariant(&id);
        }
        slots_get(&self.slots, id.raw)
    }

    /// The field under `id` for writing, or `None` where the arena holds
    /// none. Only that field can change through the reference.
    pub fn get_mut(&mut self, id: FieldId) -> (field: Option<&mut PdfInputFieldState>)
        ensures
            field is Some <==> old(self)@.fields.contains_key(id@),
            match field {
                Some(found) => found@ == old(self)@.fields[id@] && final(self)@ == old(
                    self,
                )@.with_changed(id@, final(found)@),
                None => final(self)@ == old(self)@,
            },
    {
        proof {
            use_type_invariant(&*self);
            use_type_invariant(&id);
            lemma_field_models_insert(slot_fields(self.slots), id.raw);
        }
        slots_get_mut(&mut self.slots, id.raw)
    }

    /// Whether the arena holds a field under `id`.
    pub fn contains(&self, id: FieldId) -> (held: bool)
        ensures
            held == self@.fields.contains_key(id@),
    {
        self.get(id).is_some()
    }

    /// The ids of all fields, in the order in which they were inserted.
    pub fn field_ids(&self) -> (ids: Vec<FieldId>)
        ensures
            ids@.map_values(|id: FieldId| id@) == self@.order,
            self@.is_consistent(),
    {
        proof {
            use_type_invariant(self);
        }
        let len: usize = slots_len(&self.slots);
        let mut ids: Vec<FieldId> = Vec::new();
        let mut i: usize = 0;
        while i < len
            invariant
                i <= len,
                len == slot_order(self.slots).len(),
                self.well_formed(),
                ids@.len() == i,
                forall|j: int| 0 <= j < i ==> (#[trigger] ids@[j])@ == slot_order(self.slots)[j],
            decreases len - i,
        {
            let raw: u64 = slots_key_at(&self.slots, i);
            proof {
                assert(slot_order(self.slots).contains(raw));
                assert(slot_fields(self.slots).dom().contains(raw));
            }
            ids.push(FieldId { raw });
            i += 1;
        }
        assert(ids@.map_values(|id: FieldId| id@) =~= self@.order);
        ids
    }
}

/// Adding a field under an id that is not in use keeps every id distinct
/// and every earlier field under its id: the new id differs from all ids
/// that were issued before, and they still name the fields they named.
pub proof fn lemma_new_id_differs_from_all_before(arena: ArenaModel, id: u64, field: FieldModel)
    requires
        arena.is_consistent(),
        !arena.fields.contains_key(id),
    ensures
        arena.with_field(id, field).is_consistent(),
        arena.with_field(id, field).order.no_duplicates(),
        forall|earlier: u64| #[trigger]
            arena.fields.contains_key(earlier) ==> earlier != id && arena.with_field(
                id,
                field,
            ).fields.contains_key(earlier) && arena.with_field(id, field).fields[earlier]
                == arena.fields[earlier],
{
    let after = arena.with_field(id, field);
    let len = arena.order.len() as int;
    assert(!arena.order.contains(id));
    assert forall|i: int, j: int| 0 <= i < after.order.len() && 0 <= j < after.order.len() && i
        != j implies after.order[i] != after.order[j] by {
        if i < len {
            assert(arena.order.contains(arena.order[i]));
        }
        if j < len {
            assert(arena.order.contains(arena.order[j]));
        }
    }
    assert forall|k: u64| after.fields.contains_key(k) <==> after.order.contains(k) by {
        if k == id {
            assert(after.order[arena.order.len() as int] == id);
        } else if arena.order.contains(k) {
            let i = choose|i: int| 0 <= i < arena.order.len() && arena.order[i] == k;
            assert(after.order[i] == k);
        }
    }
}

/// However many fields are inserted into an empty arena: where each
/// insertion returns an id that was not in use, as [`FieldArena::insert`]
/// does, the ids are pairwise distinct, the arena holds exactly as many
/// fields as were inserted, in the order of insertion, and each id names the
/// field that was inserted under it.
pub proof fn lemma_ids_of_any_number_of_inserts_are_distinct(
    ids: Seq<u64>,
    fields: Seq<FieldModel>,
)
    requires
        ids.len() == fields.len(),
        forall|n: int|
            0 <= n < ids.len() ==> !ArenaModel::built(
                ids.take(n),
                fields.take(n),
            ).fields.contains_key(#[trigger] ids[n]),
    ensures
        ArenaModel::built(ids, fields).order == ids,
        ArenaModel::built(ids, fields).order.len() == ids.len(),
        ArenaModel::built(ids, fields).is_consistent(),
        ids.no_duplicates(),
        forall|i: int, j: int| 0 <= i < ids.len() && 0 <= j < ids.len() && i != j ==> ids[i] != ids[j],
        forall|i: int|
            0 <= i < ids.len() ==> ArenaModel::built(ids, fields).fields.contains_key(
                #[trigger] ids[i],
            ) && ArenaModel::built(ids, fields).fields[ids[i]] == fields[i],
    decreases ids.len(),
{
    if ids.len() > 0 {
        let last = ids.len() - 1;
        let earlier_ids = ids.drop_last();
        let earlier_fields = fields.drop_last();
        let before = ArenaModel::built(earlier_ids, earlier_fields);
        assert(ids.take(last) =~= earlier_ids);
        assert(fields.take(last) =~= earlier_fields);
        assert forall|n: int| 0 <= n < earlier_ids.len() implies !ArenaModel::built(
            earlier_ids.take(n),
            earlier_fields.take(n),
        ).fields.contains_key(#[trigger] earlier_ids[n]) by {
            assert(earlier_ids.take(n) =~= ids.take(n));
            assert(earlier_fields.take(n) =~= fields.take(n));
            assert(earlier_ids[n] == ids[n]);
        }
        lemma_ids_of_any_number_of_inserts_are_distinct(earlier_ids, earlier_fields);
        assert(!before.fields.contains_key(ids[last]));
        lemma_new_id_differs_from_all_before(before, ids[last], fields[last]);
        let after = ArenaModel::built(ids, fields);
        assert(after == before.with_field(ids.last(), fields.last()));
        assert(after.order =~= ids);
        assert forall|i: int| 0 <= i < ids.len() implies after.fields.contains_key(
            #[trigger] ids[i],
        ) && after.fields[ids[i]] == fields[i] by {
            if i < last {
                assert(earlier_ids[i] == ids[i]);
                assert(before.fields.contains_key(earlier_ids[i]));
                assert(earlier_fields[i] == fields[i]);
            }
        }
    } else {
        assert(ArenaModel::built(ids, fields).order =~= ids);
    }
}

} // verus!
