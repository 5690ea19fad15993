//! The nine-slot hotbar inventory and the chest transfers that share its
//! stacking rule.
use vstd::prelude::*;
use crate::block::BlockType;

verus! {

/// Number of slots of a hotbar or a chest.
pub const SLOT_COUNT: usize = 9;

/// A slot: empty, or a block with its quantity.
pub type Slot = Option<(BlockType, u32)>;

/// The quantity of `b` that a slot holds.
pub open spec fn stack_amount(slot: Slot, b: BlockType) -> nat {
    match slot {
        Some((x, q)) => if x == b {
            q as nat
        } else {
            0
        },
        None => 0,
    }
}

/// The total quantity of `b` over a row of slots.
pub open spec fn count_of(s: Seq<Slot>, b: BlockType) -> nat
    decreases s.len(),
{
    if s.len() == 0 {
        0
    } else {
        count_of(s.drop_last(), b) + stack_amount(s.last(), b)
    }
}

/// The slot holds a stack of `b`.
pub open spec fn holds(slot: Slot, b: BlockType) -> bool {
    slot matches Some((x, _)) && x == b
}

/// `i` is the first slot holding a stack of `b`.
pub open spec fn first_holding(s: Seq<Slot>, b: BlockType, i: int) -> bool {
    0 <= i < s.len() && holds(s[i], b) && forall|j: int| 0 <= j < i ==> !holds(#[trigger] s[j], b)
}

/// `i` is the first empty slot.
pub open spec fn first_empty(s: Seq<Slot>, i: int) -> bool {
    0 <= i < s.len() && s[i] is None && forall|j: int| 0 <= j < i ==> (#[trigger] s[j]) is Some
}

/// The quantity of a slot, 0 when empty.
pub open spec fn quantity(slot: Slot) -> u32 {
    match slot {
        Some((_, q)) => q,
        None => 0,
    }
}

/// Adding one `b` to the slots `old` gives `new` and answers `added`: one
/// more on the first stack of `b`; else a new stack of one in the first
/// empty slot; else nothing changes and the answer is no.
pub open spec fn stacked_one(old: Seq<Slot>, b: BlockType, new: Seq<Slot>, added: bool) -> bool {
    if exists|i: int| first_holding(old, b, i) {
        &&& added
        &&& exists|i: int|
            first_holding(old, b, i) && new == old.update(
                i,
                Some((b, (quantity(#[trigger] old[i]) + 1) as u32)),
            )
    } else if exists|i: int| first_empty(old, i) {
        &&& added
        &&& exists|i: int| first_empty(old, i) && new == old.update(i, Some((b, 1u32)))
    } else {
        &&& !added
        &&& new == old
    }
}

/// Adding one more to the first stack of `b` does not overflow.
pub open spec fn can_stack(s: Seq<Slot>, b: BlockType) -> bool {
    forall|i: int| first_holding(s, b, i) ==> quantity(#[trigger] s[i]) < u32::MAX
}

/// Taking one from slot `i` of `old` gives `new`: a stack of more than one
/// loses one, a stack of one becomes empty, an empty slot or a stack of
/// zero is left as it is.
pub open spec fn took_one(old: Seq<Slot>, i: int, new: Seq<Slot>) -> bool {
    match old[i] {
        Some((b, q)) => if q > 1 {
            new == old.update(i, Some((b, (q - 1) as u32)))
        } else if q == 1 {
            new == old.update(i, None)
        } else {
            new == old
        },
        None => new == old,
    }
}

/// No slot holds a stack of zero.
pub open spec fn no_empty_stacks(s: Seq<Slot>) -> bool {
    forall|i: int| 0 <= i < s.len() ==> (#[trigger] s[i] matches Some((_, q)) ==> q > 0)
}

/// The block of a stack (meaningful for a full slot only).
pub open spec fn slot_block(slot: Slot) -> BlockType
    recommends
        slot is Some,
{
    match slot {
        Some((b, _)) => b,
        None => BlockType::Air,
    }
}

/// No two slots hold stacks of the same block.
pub open spec fn distinct_stacks(s: Seq<Slot>) -> bool {
    forall|i: int, j: int|
        0 <= i < j < s.len() && (#[trigger] s[i]) is Some && (#[trigger] s[j]) is Some ==> slot_block(
            s[i],
        ) != slot_block(s[j])
}

/// Whether one more `b` can be stacked without overflowing a count: the
/// first stack of `b`, if there is one, is not full.
pub fn has_stack_room(slots: &[Slot; 9], b: BlockType) -> (r: bool)
    ensures
        r == can_stack(slots@, b),
{
    let mut i: usize = 0;
    while i < SLOT_COUNT
        invariant
            i <= 9,
            forall|j: int| 0 <= j < i ==> !holds(#[trigger] slots@[j], b),
        decreases 9 - i,
    {
        if let Some((x, q)) = slots[i] {
            if x == b {
                assert(first_holding(slots@, b, i as int));
                assert forall|k: int| first_holding(slots@, b, k) implies k == i by {
                    if k < i {
                        assert(!holds(slots@[k], b));
                    } else if k > i {
                        assert(!holds(slots@[i as int], b));
                    }
                }
                return q < u32::MAX;
            }
        }
        i += 1;
    }
    true
}

/// Adds one `b` to a row of slots by the stacking rule: onto the first stack
/// of `b`, else into the first empty slot; returns whether it found room.
pub fn stack_into(slots: &mut [Slot; 9], b: BlockType) -> (added: bool)
    requires
        can_stack(old(slots)@, b),
    ensures
        stacked_one(old(slots)@, b, final(slots)@, added),
{
    let mut i: usize = 0;
    while i < SLOT_COUNT
        invariant
            i <= 9,
            slots@ == old(slots)@,
            can_stack(old(slots)@, b),
            forall|j: int| 0 <= j < i ==> !holds(#[trigger] slots@[j], b),
        decreases 9 - i,
    {
        if let Some((x, q)) = slots[i] {
            if x == b {
                assert(first_holding(old(slots)@, b, i as int));
                assert(quantity(old(slots)@[i as int]) < u32::MAX);
                slots[i] = Some((b, q + 1));
                return true;
            }
        }
        i += 1;
    }
    assert(!exists|k: int| first_holding(old(slots)@, b, k));
    let mut j: usize = 0;
    while j < SLOT_COUNT
        invariant
            j <= 9,
            slots@ == old(slots)@,
            !exists|k: int| first_holding(old(slots)@, b, k),
            forall|k: int| 0 <= k < j ==> (#[trigger] slots@[k]) is Some,
        decreases 9 - j,
    {
        if slots[j].is_none() {
            assert(first_empty(old(slots)@, j as int));
            slots[j] = Some((b, 1));
            return true;
        }
        j += 1;
    }
    assert(!exists|k: int| first_empty(old(slots)@, k));
    false
}

/// Takes one item from slot `i`: a stack of one empties the slot.
pub fn take_one(slots: &mut [Slot; 9], i: usize)
    requires
        i < 9,
    ensures
        took_one(old(slots)@, i as int, final(slots)@),
{
    if let Some((b, q)) = slots[i] {
        if q > 1 {
            slots[i] = Some((b, q - 1));
        } else if q == 1 {
            slots[i] = None;
        }
    }
}

/// The hotbar: nine slots and the index of the selected one.
pub struct Inventory {
    pub slots: [Slot; 9],
    pub selected_slot: usize,
}

impl Inventory {
    /// The selected slot is one of the nine.
    pub open spec fn wf(&self) -> bool {
        self.selected_slot < 9
    }

    /// An empty hotbar with the first slot selected.
    pub fn new() -> (inv: Self)
        ensures
            inv.wf(),
            inv.selected_slot == 0,
            forall|i: int| 0 <= i < 9 ==> inv.slots@[i] is None,
    {
        Inventory { slots: [None;9], selected_slot: 0 }
    }

    /// Selects slot `slot` when it is one of the nine; otherwise keeps the
    /// current selection.
    pub fn select_slot(&mut self, slot: usize)
        ensures
            final(self).slots == old(self).slots,
            final(self).selected_slot == if slot < 9 {
                slot
            } else {
                old(self).selected_slot
            },
    {
        if slot < SLOT_COUNT {
            self.selected_slot = slot;
        }
    }

    /// The block of the selected slot, when it holds a stack of at least one.
    pub fn get_selected_block(&self) -> (r: Option<BlockType>)
        requires
            self.wf(),
        ensures
            r == match self.slots@[self.selected_slot as int] {
                Some((b, q)) => if q > 0 {
                    Some(b)
                } else {
                    None
                },
                None => None,
            },
    {
        match self.slots[self.selected_slot] {
            Some((b, q)) => if q > 0 {
                Some(b)
            } else {
                None
            },
            None => None,
        }
    }

    /// Uses up one item of the selected slot; the slot empties when its last
    /// item goes.
    pub fn decrement_selected(&mut self)
        requires
            old(self).wf(),
        ensures
            final(self).selected_slot == old(self).selected_slot,
            took_one(old(self).slots@, old(self).selected_slot as int, final(self).slots@),
    {
        take_one(&mut self.slots, self.selected_slot);
    }

    /// Picks up one block: onto the first stack of that block, else into the
    /// first empty slot. Returns false, changing nothing, when neither exists.
    pub fn add_block(&mut self, block_type: BlockType) -> (added: bool)
        requires
            can_stack(old(self).slots@, block_type),
        ensures
            final(self).selected_slot == old(self).selected_slot,
            stacked_one(old(self).slots@, block_type, final(self).slots@, added),
    {
        stack_into(&mut self.slots, block_type)
    }
}


/// One stack's items, one entry per item.
pub open spec fn stack_items(slot: Slot) -> Seq<BlockType> {
    match slot {
        Some((b, q)) => Seq::new(q as nat, |_k: int| b),
        None => Seq::empty(),
    }
}

/// All items of a row of slots, one entry per item, slot by slot.
pub open spec fn items_of(s: Seq<Slot>) -> Seq<BlockType>
    decreases s.len(),
{
    if s.len() == 0 {
        Seq::empty()
    } else {
        items_of(s.drop_last()) + stack_items(s.last())
    }
}

/// When the player dies the inventory spills: every item comes out, one
/// entry per item, slot by slot, and every slot is left empty.
pub fn spill_all(inv: &mut Inventory) -> (items: Vec<BlockType>)
    ensures
        items@ == items_of(old(inv).slots@),
        final(inv).selected_slot == old(inv).selected_slot,
        forall|i: int| 0 <= i < 9 ==> (#[trigger] final(inv).slots@[i]) is None,
{
    let ghost start = inv.slots@;
    let mut items: Vec<BlockType> = Vec::new();
    let mut i: usize = 0;
    while i < SLOT_COUNT
        invariant
            i <= SLOT_COUNT,
            start.len() == 9,
            inv.selected_slot == old(inv).selected_slot,
            start == old(inv).slots@,
            items@ == items_of(start.take(i as int)),
            forall|j: int| 0 <= j < i ==> (#[trigger] inv.slots@[j]) is None,
            forall|j: int| i <= j < 9 ==> #[trigger] inv.slots@[j] == start[j],
        decreases SLOT_COUNT - i,
    {
        let slot = inv.slots[i];
        inv.slots[i] = None;
        assert(start.take(i + 1).drop_last() =~= start.take(i as int));
        if let Some((b, q)) = slot {
            let ghost before = items@;
            let mut k: u32 = 0;
            while k < q
                invariant
                    k <= q,
                    items@ == before + Seq::new(k as nat, |_n: int| b),
                decreases q - k,
            {
                items.push(b);
                k += 1;
                assert(items@ =~= before + Seq::new(k as nat, |_n: int| b));
            }
        } else {
            assert(items@ =~= items@ + stack_items(slot));
        }
        i += 1;
    }
    assert(start.take(9) =~= start);
    items
}

proof fn lemma_repeat_count(b: BlockType, n: nat, x: BlockType)
    ensures
        Seq::new(n, |_k: int| b).to_multiset().count(x) == if b == x {
            n
        } else {
            0
        },
    decreases n,
{
    broadcast use vstd::seq_lib::group_to_multiset_ensures, vstd::multiset::group_multiset_axioms;

    let f = |_k: int| b;
    if n == 0 {
        assert(!Seq::new(n, f).contains(x));
    } else {
        lemma_repeat_count(b, (n - 1) as nat, x);
        assert(Seq::new(n, f) =~= Seq::new((n - 1) as nat, f).push(b));
    }
}

/// Spilling the inventory loses and invents nothing: each block comes out
/// exactly as many times as the slots held it.
pub proof fn spilled_items_keep_counts(s: Seq<Slot>, b: BlockType)
    ensures
        items_of(s).to_multiset().count(b) == count_of(s, b),
    decreases s.len(),
{
    broadcast use vstd::seq_lib::group_to_multiset_ensures, vstd::multiset::group_multiset_axioms;

    if s.len() == 0 {
        assert(!items_of(s).contains(b));
    } else {
        spilled_items_keep_counts(s.drop_last(), b);
        vstd::seq_lib::lemma_multiset_commutative(items_of(s.drop_last()), stack_items(s.last()));
        match s.last() {
            Some((x, q)) => lemma_repeat_count(x, q as nat, b),
            None => assert(!stack_items(s.last()).contains(b)),
        }
    }
}

/// Removing one item from a chest slot `i` of `old` gives `new`: a stack of
/// more than one loses one, any other stack empties the slot.
pub open spec fn removed_one(old: Seq<Slot>, i: int, new: Seq<Slot>) -> bool {
    match old[i] {
        Some((b, q)) => if q <= 1 {
            new == old.update(i, None)
        } else {
            new == old.update(i, Some((b, (q - 1) as u32)))
        },
        None => new == old,
    }
}

/// Removes one item from slot `i`; a stack of one or zero empties the slot.
fn remove_one(slots: &mut [Slot; 9], i: usize)
    requires
        i < 9,
    ensures
        removed_one(old(slots)@, i as int, final(slots)@),
{
    if let Some((b, q)) = slots[i] {
        if q <= 1 {
            slots[i] = None;
        } else {
            slots[i] = Some((b, q - 1));
        }
    }
}

/// Moves one item of chest slot `slot` into the inventory. Nothing moves
/// when the slot is empty or the inventory has no room; otherwise the
/// inventory takes the item by its stacking rule and the chest slot loses it.
pub fn take_from_chest(chest: &mut [Slot; 9], slot: usize, inventory: &mut Inventory) -> (moved: bool)
    requires
        slot < 9,
        old(chest)@[slot as int] matches Some((b, _)) ==> can_stack(old(inventory).slots@, b),
    ensures
        final(inventory).selected_slot == old(inventory).selected_slot,
        match old(chest)@[slot as int] {
            Some((b, _)) => {
                &&& stacked_one(old(inventory).slots@, b, final(inventory).slots@, moved)
                &&& if moved {
                    removed_one(old(chest)@, slot as int, final(chest)@)
                } else {
                    final(chest)@ == old(chest)@
                }
            },
            None => !moved && final(chest)@ == old(chest)@ && final(inventory).slots@ == old(
                inventory,
            ).slots@,
        },
{
    if let Some((b, _)) = chest[slot] {
        if inventory.add_block(b) {
            remove_one(chest, slot);
            return true;
        }
        return false;
    }
    false
}

/// Moves one item of inventory slot `slot` into the chest: the chest takes
/// it by the stacking rule, and only when it found room does the inventory
/// slot lose the item (a stack of one or zero empties the slot).
pub fn put_into_chest(chest: &mut [Slot; 9], slot: usize, inventory: &mut Inventory) -> (moved: bool)
    requires
        slot < 9,
        old(inventory).slots@[slot as int] matches Some((b, _)) ==> can_stack(old(chest)@, b),
    ensures
        final(inventory).selected_slot == old(inventory).selected_slot,
        match old(inventory).slots@[slot as int] {
            Some((b, _)) => {
                &&& stacked_one(old(chest)@, b, final(chest)@, moved)
                &&& if moved {
                    removed_one(old(inventory).slots@, slot as int, final(inventory).slots@)
                } else {
                    final(inventory).slots@ == old(inventory).slots@
                }
            },
            None => !moved && final(chest)@ == old(chest)@ && final(inventory).slots@ == old(
                inventory,
            ).slots@,
        },
{
    if let Some((b, _)) = inventory.slots[slot] {
        if stack_into(chest, b) {
            remove_one(&mut inventory.slots, slot);
            return true;
        }
        return false;
    }
    false
}

proof fn lemma_count_update(s: Seq<Slot>, i: int, v: Slot, b: BlockType)
    requires
        0 <= i < s.len(),
    ensures
        count_of(s.update(i, v), b) + stack_amount(s[i], b) == count_of(s, b) + stack_amount(v, b),
    decreases s.len(),
{
    let t = s.update(i, v);
    if i == s.len() - 1 {
        assert(t.drop_last() =~= s.drop_last());
    } else {
        assert(t.drop_last() =~= s.drop_last().update(i, v));
        lemma_count_update(s.drop_last(), i, v, b);
    }
}

proof fn lemma_first_holding_exists(s: Seq<Slot>, b: BlockType, y: int)
    requires
        0 <= y < s.len(),
        holds(s[y], b),
    ensures
        exists|k: int| first_holding(s, b, k),
    decreases y,
{
    if exists|j: int| 0 <= j < y && holds(#[trigger] s[j], b) {
        let j = choose|j: int| 0 <= j < y && holds(#[trigger] s[j], b);
        lemma_first_holding_exists(s, b, j);
    } else {
        assert(first_holding(s, b, y));
    }
}

/// Picking up a block adds exactly one of it when it finds room, and
/// nothing otherwise; the counts of all other blocks stay the same.
pub proof fn add_block_counts(old: Seq<Slot>, b: BlockType, new: Seq<Slot>, added: bool)
    requires
        can_stack(old, b),
        stacked_one(old, b, new, added),
    ensures
        count_of(new, b) == count_of(old, b) + if added {
            1nat
        } else {
            0nat
        },
        forall|o: BlockType| o != b ==> #[trigger] count_of(new, o) == count_of(old, o),
{
    if exists|i: int| first_holding(old, b, i) {
        let i = choose|i: int|
            first_holding(old, b, i) && new == old.update(
                i,
                Some((b, (quantity(#[trigger] old[i]) + 1) as u32)),
            );
        assert(quantity(old[i]) < u32::MAX);
        lemma_count_update(old, i, new[i], b);
        assert forall|o: BlockType| o != b implies #[trigger] count_of(new, o) == count_of(old, o) by {
            lemma_count_update(old, i, new[i], o);
        }
    } else if exists|i: int| first_empty(old, i) {
        let i = choose|i: int| first_empty(old, i) && new == old.update(i, Some((b, 1u32)));
        lemma_count_update(old, i, new[i], b);
        assert forall|o: BlockType| o != b implies #[trigger] count_of(new, o) == count_of(old, o) by {
            lemma_count_update(old, i, new[i], o);
        }
    }
}

/// Using up the selected item removes exactly one of its block when the
/// slot holds a stack of at least one, and leaves every other count as it is.
pub proof fn decrement_counts(old: Seq<Slot>, i: int, new: Seq<Slot>)
    requires
        0 <= i < old.len(),
        took_one(old, i, new),
        old[i] matches Some((_, q)) && q > 0,
    ensures
        count_of(new, old[i]->Some_0.0) + 1 == count_of(old, old[i]->Some_0.0),
        forall|o: BlockType|
            o != old[i]->Some_0.0 ==> #[trigger] count_of(new, o) == count_of(old, o),
{
    lemma_count_update(old, i, new[i], old[i]->Some_0.0);
    assert forall|o: BlockType| o != old[i]->Some_0.0 implies #[trigger] count_of(new, o) == count_of(
        old,
        o,
    ) by {
        lemma_count_update(old, i, new[i], o);
    }
}

/// Picking up a block and using up an item keep two invariants of the
/// slots: no stack of zero, and no block stacked in two slots.
pub proof fn stacking_keeps_slots_tidy(
    old: Seq<Slot>,
    b: BlockType,
    after_add: Seq<Slot>,
    added: bool,
    i: int,
    after_take: Seq<Slot>,
)
    requires
        no_empty_stacks(old),
        distinct_stacks(old),
        can_stack(old, b),
        stacked_one(old, b, after_add, added),
        0 <= i < old.len(),
        took_one(old, i, after_take),
    ensures
        no_empty_stacks(after_add),
        distinct_stacks(after_add),
        no_empty_stacks(after_take),
        distinct_stacks(after_take),
{
    if exists|k: int| first_holding(old, b, k) {
        let k = choose|k: int|
            first_holding(old, b, k) && after_add == old.update(
                k,
                Some((b, (quantity(#[trigger] old[k]) + 1) as u32)),
            );
        assert forall|x: int, y: int|
            0 <= x < y < after_add.len() && (#[trigger] after_add[x]) is Some && (
            #[trigger] after_add[y]) is Some implies slot_block(after_add[x]) != slot_block(
            after_add[y],
        ) by {
            assert(old[x] is Some && old[y] is Some);
        }
    } else if exists|k: int| first_empty(old, k) {
        let k = choose|k: int| first_empty(old, k) && after_add == old.update(k, Some((b, 1u32)));
        assert forall|x: int, y: int|
            0 <= x < y < after_add.len() && (#[trigger] after_add[x]) is Some && (
            #[trigger] after_add[y]) is Some implies slot_block(after_add[x]) != slot_block(
            after_add[y],
        ) by {
            if x == k {
                if holds(old[y], b) {
                    lemma_first_holding_exists(old, b, y);
                }
            } else if y == k {
                if holds(old[x], b) {
                    lemma_first_holding_exists(old, b, x);
                }
            }
        }
    }
    assert forall|x: int, y: int|
        0 <= x < y < after_take.len() && (#[trigger] after_take[x]) is Some && (
        #[trigger] after_take[y]) is Some implies slot_block(after_take[x]) != slot_block(
        after_take[y],
    ) by {
        assert(old[x] is Some && old[y] is Some);
    }
}

/// Moving one item between a chest and the inventory, either way, keeps the
/// combined count of every block, when the source slot holds no stack of zero.
pub proof fn chest_transfer_conserves(
    src_old: Seq<Slot>,
    dst_old: Seq<Slot>,
    i: int,
    src_new: Seq<Slot>,
    dst_new: Seq<Slot>,
    moved: bool,
    c: BlockType,
)
    requires
        0 <= i < src_old.len(),
        src_old[i] matches Some((b, q)) && q > 0,
        can_stack(dst_old, src_old[i]->Some_0.0),
        stacked_one(dst_old, src_old[i]->Some_0.0, dst_new, moved),
        if moved {
            removed_one(src_old, i, src_new)
        } else {
            src_new == src_old
        },
    ensures
        count_of(src_new, c) + count_of(dst_new, c) == count_of(src_old, c) + count_of(dst_old, c),
{
    let b = src_old[i]->Some_0.0;
    add_block_counts(dst_old, b, dst_new, moved);
    if moved {
        lemma_count_update(src_old, i, src_new[i], c);
    }
}

} // verus!
