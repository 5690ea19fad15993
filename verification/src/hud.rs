//! What the hotbar shows: which slots, which icon and stack count each
//! slot draws, and the index lists of the quads the overlay is made of.
use vstd::prelude::*;
use crate::inventory::Inventory;
use crate::inventory::Slot;

verus! {

/// The hotbar shows the first six slots of the inventory.
pub const HOTBAR_NUM_SLOTS: usize = 6;

/// The number written by a list of decimal digits, most significant first.
pub open spec fn digits_value(ds: Seq<u8>) -> nat
    decreases ds.len(),
{
    if ds.len() == 0 {
        0
    } else {
        digits_value(ds.drop_last()) * 10 + ds.last() as nat
    }
}

/// `ds` is the decimal writing of `n`: digits below ten, at least one, no
/// leading zero, and worth `n`.
pub open spec fn decimal_of(ds: Seq<u8>, n: nat) -> bool {
    &&& ds.len() >= 1
    &&& forall|i: int| 0 <= i < ds.len() ==> #[trigger] ds[i] < 10
    &&& (ds.len() > 1 ==> ds[0] != 0)
    &&& digits_value(ds) == n
}

/// The decimal digits of `n`, most significant first, as the stack counts
/// of the hotbar and the loading percentage are drawn.
pub fn decimal_digits(n: u32) -> (ds: Vec<u8>)
    ensures
        decimal_of(ds@, n as nat),
    decreases n,
{
    if n < 10 {
        let mut ds: Vec<u8> = Vec::new();
        ds.push(n as u8);
        assert(ds@.drop_last() =~= Seq::<u8>::empty());
        assert(digits_value(ds@.drop_last()) == 0);
        assert(ds@.last() == n as u8);
        assert(digits_value(ds@) == n);
        ds
    } else {
        let mut ds = decimal_digits(n / 10);
        let ghost front = ds@;
        let d: u8 = (n % 10) as u8;
        ds.push(d);
        assert(ds@.drop_last() =~= front);
        assert(ds@[0] == front[0]);
        proof {
            if front.len() == 1 {
                assert(front.drop_last() =~= Seq::<u8>::empty());
                assert(digits_value(front.drop_last()) == 0);
                assert(front[0] != 0);
            }
        }
        assert forall|i: int| 0 <= i < ds@.len() implies #[trigger] ds@[i] < 10 by {
            if i < front.len() {
                assert(ds@[i] == front[i]);
            }
        }
        assert(digits_value(ds@) == digits_value(front) * 10 + d as nat);
        assert(n == (n / 10) * 10 + n % 10);
        ds
    }
}

/// What one hotbar slot draws.
#[derive(PartialEq, Eq, Debug)]
pub struct SlotView {
    /// The slot is the selected one and gets an underline.
    pub selected: bool,
    /// The icon layer of its block, when it holds at least one.
    pub icon: Option<u32>,
    /// The digits of its count, drawn when it holds more than one.
    pub count: Vec<u8>,
}

/// Slot `i` of the inventory is drawn as `v`.
pub open spec fn shows(inv: Inventory, i: int, v: SlotView) -> bool {
    &&& v.selected == (i == inv.selected_slot)
    &&& v.icon == match inv.slots@[i] {
        Some((b, q)) => if q > 0 {
            Some(crate::block::spec_ui_icon_index(b))
        } else {
            None
        },
        None => None,
    }
    &&& match inv.slots@[i] {
        Some((_, q)) => if q > 1 {
            decimal_of(v.count@, q as nat)
        } else {
            v.count@.len() == 0
        },
        None => v.count@.len() == 0,
    }
}

fn slot_view(slot: Slot, selected: bool) -> (v: SlotView)
    ensures
        v.selected == selected,
        v.icon == match slot {
            Some((b, q)) => if q > 0 {
                Some(crate::block::spec_ui_icon_index(b))
            } else {
                None
            },
            None => None,
        },
        match slot {
            Some((_, q)) => if q > 1 {
                decimal_of(v.count@, q as nat)
            } else {
                v.count@.len() == 0
            },
            None => v.count@.len() == 0,
        },
{
    match slot {
        Some((b, q)) => {
            if q > 0 {
                let count = if q > 1 {
                    decimal_digits(q)
                } else {
                    Vec::new()
                };
                SlotView { selected, icon: Some(crate::block::ui_icon_index(b)), count }
            } else {
                SlotView { selected, icon: None, count: Vec::new() }
            }
        },
        None => SlotView { selected, icon: None, count: Vec::new() },
    }
}

/// What the hotbar draws for each of its six slots.
pub fn hotbar_view(inv: &Inventory) -> (views: Vec<SlotView>)
    ensures
        views@.len() == HOTBAR_NUM_SLOTS,
        forall|i: int| 0 <= i < HOTBAR_NUM_SLOTS ==> #[trigger] shows(*inv, i, views@[i]),
{
    let mut views: Vec<SlotView> = Vec::new();
    let mut i: usize = 0;
    while i < HOTBAR_NUM_SLOTS
        invariant
            i <= HOTBAR_NUM_SLOTS,
            views@.len() == i,
            forall|k: int| 0 <= k < i ==> #[trigger] shows(*inv, k, views@[k]),
        decreases HOTBAR_NUM_SLOTS - i,
    {
        views.push(slot_view(inv.slots[i], i == inv.selected_slot));
        i += 1;
    }
    views
}

/// The six indices of the two triangles of the quad whose first vertex is
/// `base`: 0, 1, 2 and 0, 2, 3 after it.
pub open spec fn spec_quad_indices(base: u16) -> Seq<u16> {
    seq![base, (base + 1) as u16, (base + 2) as u16, base, (base + 2) as u16, (base + 3) as u16]
}

/// The index list of one quad.
pub fn quad_indices(base: u16) -> (r: [u16; 6])
    requires
        base + 3 <= u16::MAX,
    ensures
        r@ == spec_quad_indices(base),
{
    let r = [base, base + 1, base + 2, base, base + 2, base + 3];
    assert(r@ =~= spec_quad_indices(base));
    r
}

/// Puts the selection quad in front of the hotbar's quads: its indices come
/// first and every index already there moves up by its four vertices.
pub fn prepend_selection_quad(indices: &Vec<u16>) -> (r: Vec<u16>)
    requires
        forall|i: int| 0 <= i < indices@.len() ==> #[trigger] indices@[i] + 4 <= u16::MAX,
    ensures
        r@.len() == indices@.len() + 6,
        r@.subrange(0, 6) == spec_quad_indices(0),
        forall|i: int| 0 <= i < indices@.len() ==> #[trigger] r@[i + 6] == indices@[i] + 4,
{
    let mut r: Vec<u16> = Vec::new();
    r.push(0);
    r.push(1);
    r.push(2);
    r.push(0);
    r.push(2);
    r.push(3);
    assert(r@.subrange(0, 6) =~= spec_quad_indices(0));
    let mut i: usize = 0;
    while i < indices.len()
        invariant
            i <= indices@.len(),
            r@.len() == i + 6,
            r@.subrange(0, 6) == spec_quad_indices(0),
            forall|k: int| 0 <= k < indices@.len() ==> #[trigger] indices@[k] + 4 <= u16::MAX,
            forall|k: int| 0 <= k < i ==> #[trigger] r@[k + 6] == indices@[k] + 4,
        decreases indices@.len() - i,
    {
        r.push(indices[i] + 4);
        assert(r@.subrange(0, 6) =~= spec_quad_indices(0));
        i += 1;
    }
    r
}

} // verus!
