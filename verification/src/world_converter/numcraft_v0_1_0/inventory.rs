//! Item stacks and the inventory that holds them.

use vstd::prelude::*;
use crate::world_converter::numcraft_v0_1_0::constants::ItemType;

verus! {

/// What one inventory slot holds.
#[derive(Clone, Copy, Debug, PartialEq, Eq, Structural)]
pub struct ItemStack {
    pub item_type: ItemType,
    pub amount: u8,
    pub creative_slot: bool,
}

impl ItemStack {
    /// The amount the stack reports: a creative slot always reports a full
    /// stack of its type, whatever amount is stored in it.
    pub open spec fn reported_amount(self) -> u8 {
        if self.creative_slot {
            self.item_type.max_stack()
        } else {
            self.amount
        }
    }

    /// The empty, non-creative stack.
    pub open spec fn empty() -> ItemStack {
        ItemStack { item_type: ItemType::Air, amount: 0, creative_slot: false }
    }

    pub fn void() -> (stack: Self)
        ensures
            stack == ItemStack::empty(),
    {
        ItemStack { item_type: ItemType::Air, amount: 0, creative_slot: false }
    }

    pub fn new(item_type: ItemType, amount: u8, creative_slot: bool) -> (stack: Self)
        ensures
            stack == (ItemStack { item_type, amount, creative_slot }),
    {
        ItemStack { item_type, amount, creative_slot }
    }

    pub fn get_item_type(&self) -> (item_type: ItemType)
        ensures
            item_type == self.item_type,
    {
        self.item_type
    }

    pub fn get_amount(&self) -> (amount: u8)
        ensures
            amount == self.reported_amount(),
            self.creative_slot ==> amount == self.item_type.max_stack(),
    {
        if self.creative_slot {
            self.item_type.get_max_stack_amount()
        } else {
            self.amount
        }
    }

    pub fn clear(&mut self)
        ensures
            *final(self) == (ItemStack {
                item_type: ItemType::Air,
                amount: 0,
                creative_slot: old(self).creative_slot,
            }),
    {
        self.amount = 0;
        self.item_type = ItemType::Air;
    }
}


/// What a transfer between two slots writes: the new content of the slot
/// the items leave and of the slot they arrive in. `None` leaves the slot
/// as it is.
#[derive(Clone, Copy, Debug)]
pub struct Transfer {
    pub start: Option<ItemStack>,
    pub end: Option<ItemStack>,
}

/// How many items a transfer moves: the requested number, or everything the
/// start slot reports if nothing was requested or more than it reports.
pub open spec fn selected_amount(start: ItemStack, requested: Option<usize>) -> u8 {
    match requested {
        Some(n) => if n < start.reported_amount() {
            n as u8
        } else {
            start.reported_amount()
        },
        None => start.reported_amount(),
    }
}

/// Two plain stacks of one type, each below the type's stack limit, merge.
pub open spec fn stacks_merge(start: ItemStack, end: ItemStack) -> bool {
    &&& start.item_type == end.item_type
    &&& start.amount < start.item_type.max_stack()
    &&& end.amount < end.item_type.max_stack()
}

/// The rules of a transfer from `start` to `end`.
///
/// A creative start slot is never depleted: it tops the end slot up if the
/// types agree and overwrites it otherwise. A creative end slot swallows
/// what is moved into it. Two plain stacks that merge are added up to the
/// start type's stack limit. Any other pair of plain stacks is split, if
/// part of a start stack goes into an empty end slot, and swapped otherwise.
/// Between two creative slots nothing moves.
pub open spec fn transfer(start: ItemStack, end: ItemStack, requested: Option<usize>) -> Transfer {
    let selected = selected_amount(start, requested);
    let start_max = start.item_type.max_stack();
    let end_max = end.item_type.max_stack();
    let total = end.amount + selected;
    let remainder = ItemStack {
        item_type: start.item_type,
        amount: (start.amount - selected) as u8,
        creative_slot: false,
    };
    if start.creative_slot && !end.creative_slot {
        if end.item_type == start.item_type {
            Transfer {
                start: None,
                end: Some(
                    ItemStack {
                        item_type: start.item_type,
                        amount: if total < start_max {
                            total as u8
                        } else {
                            start_max
                        },
                        creative_slot: false,
                    },
                ),
            }
        } else {
            Transfer {
                start: None,
                end: Some(
                    ItemStack { item_type: start.item_type, amount: selected, creative_slot: false },
                ),
            }
        }
    } else if !start.creative_slot && end.creative_slot {
        Transfer {
            start: Some(
                if selected == start.amount {
                    ItemStack::empty()
                } else {
                    remainder
                },
            ),
            end: None,
        }
    } else if !start.creative_slot && !end.creative_slot {
        if stacks_merge(start, end) {
            if total < start_max {
                Transfer {
                    start: Some(
                        if selected == start.amount {
                            ItemStack::empty()
                        } else {
                            remainder
                        },
                    ),
                    end: Some(
                        ItemStack {
                            item_type: end.item_type,
                            amount: total as u8,
                            creative_slot: false,
                        },
                    ),
                }
            } else if total == start_max {
                Transfer {
                    start: Some(ItemStack::empty()),
                    end: Some(
                        ItemStack {
                            item_type: end.item_type,
                            amount: start_max,
                            creative_slot: false,
                        },
                    ),
                }
            } else {
                Transfer {
                    start: Some(
                        ItemStack {
                            item_type: start.item_type,
                            amount: (total - start_max) as u8,
                            creative_slot: false,
                        },
                    ),
                    end: Some(
                        ItemStack { item_type: end.item_type, amount: end_max, creative_slot: false },
                    ),
                }
            }
        } else if start.item_type != ItemType::Air && end.item_type == ItemType::Air && selected
            != start.amount {
            Transfer {
                start: Some(remainder),
                end: Some(
                    ItemStack { item_type: start.item_type, amount: selected, creative_slot: false },
                ),
            }
        } else {
            Transfer { start: Some(end), end: Some(start) }
        }
    } else {
        Transfer { start: None, end: None }
    }
}

/// Works out what a transfer from `start` to `end` writes.
pub fn plan_transfer(start: ItemStack, end: ItemStack, requested: Option<usize>) -> (plan: Transfer)
    ensures
        plan == transfer(start, end, requested),
{
    let start_max = start.item_type.get_max_stack_amount();
    let end_max = end.item_type.get_max_stack_amount();
    let available = start.get_amount();
    let selected: u8 = match requested {
        Some(n) => if n < available as usize {
            n as u8
        } else {
            available
        },
        None => available,
    };
    let total: u16 = end.amount as u16 + selected as u16;

    if start.creative_slot && !end.creative_slot {
        if end.item_type == start.item_type {
            let amount = if total < start_max as u16 {
                total as u8
            } else {
                start_max
            };
            Transfer { start: None, end: Some(ItemStack::new(start.item_type, amount, false)) }
        } else {
            Transfer { start: None, end: Some(ItemStack::new(start.item_type, selected, false)) }
        }
    } else if !start.creative_slot && end.creative_slot {
        if selected == start.amount {
            Transfer { start: Some(ItemStack::void()), end: None }
        } else {
            Transfer {
                start: Some(ItemStack::new(start.item_type, start.amount - selected, false)),
                end: None,
            }
        }
    } else if !start.creative_slot && !end.creative_slot {
        if start.item_type == end.item_type && start.amount < start_max && end.amount < end_max {
            if total < start_max as u16 {
                let left = if selected == start.amount {
                    ItemStack::void()
                } else {
                    ItemStack::new(start.item_type, start.amount - selected, false)
                };
                Transfer {
                    start: Some(left),
                    end: Some(ItemStack::new(end.item_type, total as u8, false)),
                }
            } else if total == start_max as u16 {
                Transfer {
                    start: Some(ItemStack::void()),
                    end: Some(ItemStack::new(end.item_type, start_max, false)),
                }
            } else {
                Transfer {
                    start: Some(
                        ItemStack::new(start.item_type, (total - start_max as u16) as u8, false),
                    ),
                    end: Some(ItemStack::new(end.item_type, end_max, false)),
                }
            }
        } else if start.item_type != ItemType::Air && end.item_type == ItemType::Air && selected
            != start.amount {
            Transfer {
                start: Some(ItemStack::new(start.item_type, start.amount - selected, false)),
                end: Some(ItemStack::new(start.item_type, selected, false)),
            }
        } else {
            Transfer { start: Some(end), end: Some(start) }
        }
    } else {
        Transfer { start: None, end: None }
    }
}

/// The slots after `stack`, if there is one, was written to slot `index`.
pub open spec fn write_slot(slots: Seq<ItemStack>, index: int, stack: Option<ItemStack>) -> Seq<
    ItemStack,
> {
    match stack {
        Some(stack) => slots.update(index, stack),
        None => slots,
    }
}

/// Whether a slot takes items of `item_type`: on the first sweep a slot of
/// that type that is not full, on the second one an empty slot.
pub open spec fn slot_accepts(slot: ItemStack, item_type: ItemType, into_empty: bool) -> bool {
    if into_empty {
        slot.item_type == ItemType::Air && item_type.max_stack() > 0
    } else {
        slot.item_type == item_type && slot.reported_amount() < item_type.max_stack()
    }
}

/// Puts as much of `amount` into one slot as it takes: the slot afterwards,
/// and what is left over.
pub open spec fn place_in_slot(
    slot: ItemStack,
    item_type: ItemType,
    amount: u8,
    into_empty: bool,
) -> (ItemStack, u8) {
    if amount > 0 && slot_accepts(slot, item_type, into_empty) {
        let held = if into_empty {
            0u8
        } else {
            slot.reported_amount()
        };
        let total = held + amount;
        let max = item_type.max_stack();
        if total <= max {
            (ItemStack { item_type, amount: total as u8, creative_slot: false }, 0u8)
        } else {
            (ItemStack { item_type, amount: max, creative_slot: false }, (total - max) as u8)
        }
    } else {
        (slot, amount)
    }
}

/// One sweep over the first `upto` slots, in order: the slots afterwards,
/// and what is left over.
pub open spec fn sweep(
    slots: Seq<ItemStack>,
    item_type: ItemType,
    amount: u8,
    into_empty: bool,
    upto: nat,
) -> (Seq<ItemStack>, u8)
    decreases upto,
{
    if upto == 0 {
        (slots, amount)
    } else {
        let (before, left) = sweep(slots, item_type, amount, into_empty, (upto - 1) as nat);
        let (slot, rest) = place_in_slot(before[upto - 1], item_type, left, into_empty);
        (before.update(upto - 1, slot), rest)
    }
}

/// Adding `amount` items of `item_type`: first the stacks of that type are
/// topped up, then the empty slots are filled, each in slot order.
pub open spec fn stocked(slots: Seq<ItemStack>, item_type: ItemType, amount: u8) -> (
    Seq<ItemStack>,
    u8,
) {
    let (topped, left) = sweep(slots, item_type, amount, false, slots.len());
    sweep(topped, item_type, left, true, slots.len())
}

/// How many items a slot holds: what it reports, and nothing if its type is
/// air.
pub open spec fn held_items(slot: ItemStack) -> nat {
    if slot.item_type == ItemType::Air {
        0
    } else {
        slot.reported_amount() as nat
    }
}

/// How many items the slots hold together.
pub open spec fn total_items(slots: Seq<ItemStack>) -> nat
    decreases slots.len(),
{
    if slots.len() == 0 {
        0
    } else {
        total_items(slots.drop_last()) + held_items(slots.last())
    }
}

proof fn lemma_total_items_update(slots: Seq<ItemStack>, index: int, slot: ItemStack)
    requires
        0 <= index < slots.len(),
    ensures
        total_items(slots.update(index, slot)) + held_items(slots[index]) == total_items(slots)
            + held_items(slot),
    decreases slots.len(),
{
    let updated = slots.update(index, slot);
    if index == slots.len() - 1 {
        assert(updated.drop_last() =~= slots.drop_last());
    } else {
        assert(updated.drop_last() =~= slots.drop_last().update(index, slot));
        lemma_total_items_update(slots.drop_last(), index, slot);
    }
}

/// A sweep keeps the number of slots, touches none beyond `upto`, and never
/// leaves more over than it was given.
pub proof fn lemma_sweep_shape(
    slots: Seq<ItemStack>,
    item_type: ItemType,
    amount: u8,
    into_empty: bool,
    upto: nat,
)
    requires
        upto <= slots.len(),
    ensures
        sweep(slots, item_type, amount, into_empty, upto).0.len() == slots.len(),
        sweep(slots, item_type, amount, into_empty, upto).1 <= amount,
        forall|i: int|
            upto <= i < slots.len() ==> sweep(slots, item_type, amount, into_empty, upto).0[i]
                == slots[i],
    decreases upto,
{
    if upto > 0 {
        lemma_sweep_shape(slots, item_type, amount, into_empty, (upto - 1) as nat);
    }
}

/// Once nothing is left over, the rest of a sweep changes nothing.
proof fn lemma_sweep_exhausted(
    slots: Seq<ItemStack>,
    item_type: ItemType,
    amount: u8,
    into_empty: bool,
    done: nat,
    upto: nat,
)
    requires
        done <= upto <= slots.len(),
        sweep(slots, item_type, amount, into_empty, done).1 == 0,
    ensures
        sweep(slots, item_type, amount, into_empty, upto) == sweep(
            slots,
            item_type,
            amount,
            into_empty,
            done,
        ),
    decreases upto,
{
    if done < upto {
        lemma_sweep_exhausted(slots, item_type, amount, into_empty, done, (upto - 1) as nat);
        lemma_sweep_shape(slots, item_type, amount, into_empty, done);
        let before = sweep(slots, item_type, amount, into_empty, done).0;
        assert(before.update(upto - 1, before[upto - 1]) =~= before);
    }
}

/// A sweep neither makes nor loses items: what the slots hold afterwards,
/// with what is left over, is what they held before, with what was given.
pub proof fn lemma_sweep_conserves_items(
    slots: Seq<ItemStack>,
    item_type: ItemType,
    amount: u8,
    into_empty: bool,
    upto: nat,
)
    requires
        upto <= slots.len(),
    ensures
        total_items(sweep(slots, item_type, amount, into_empty, upto).0) + sweep(
            slots,
            item_type,
            amount,
            into_empty,
            upto,
        ).1 == total_items(slots) + amount,
    decreases upto,
{
    if upto > 0 {
        let prev = (upto - 1) as nat;
        lemma_sweep_conserves_items(slots, item_type, amount, into_empty, prev);
        lemma_sweep_shape(slots, item_type, amount, into_empty, prev);
        let (before, left) = sweep(slots, item_type, amount, into_empty, prev);
        let (slot, rest) = place_in_slot(before[upto - 1], item_type, left, into_empty);
        lemma_total_items_update(before, upto - 1, slot);
    }
}

/// Adding a stack to an inventory never makes items: the slots keep their
/// number, no more is left over than was offered, and the items the slots
/// hold afterwards, together with those left over, are exactly the items
/// they held before together with those offered.
pub proof fn lemma_stocking_conserves_items(slots: Seq<ItemStack>, item_type: ItemType, amount: u8)
    ensures
        stocked(slots, item_type, amount).0.len() == slots.len(),
        stocked(slots, item_type, amount).1 <= amount,
        total_items(stocked(slots, item_type, amount).0) + stocked(slots, item_type, amount).1
            == total_items(slots) + amount,
        total_items(stocked(slots, item_type, amount).0) - total_items(slots) == amount - stocked(
            slots,
            item_type,
            amount,
        ).1,
{
    let (topped, left) = sweep(slots, item_type, amount, false, slots.len());
    lemma_sweep_shape(slots, item_type, amount, false, slots.len());
    lemma_sweep_conserves_items(slots, item_type, amount, false, slots.len());
    lemma_sweep_shape(topped, item_type, left, true, slots.len());
    lemma_sweep_conserves_items(topped, item_type, left, true, slots.len());
}

/// A fixed number of slots, and a flag that is raised whenever one of them
/// is written.
pub struct Inventory {
    slots: Vec<ItemStack>,
    pub modified: bool,
}

impl Inventory {
    /// The slots, in order.
    pub closed spec fn view(&self) -> Seq<ItemStack> {
        self.slots@
    }

    /// Whether the inventory was written to since the flag was last lowered.
    pub closed spec fn modified_flag(&self) -> bool {
        self.modified
    }

    pub fn new(size: usize) -> (inventory: Self)
        ensures
            inventory@.len() == size,
            forall|i: int| 0 <= i < size ==> inventory@[i] == ItemStack::empty(),
            inventory.modified_flag(),
    {
        let mut slots: Vec<ItemStack> = Vec::new();
        let mut i: usize = 0;
        while i < size
            invariant
                i <= size,
                slots@.len() == i,
                forall|j: int| 0 <= j < i ==> slots@[j] == ItemStack::empty(),
            decreases size - i,
        {
            slots.push(ItemStack::void());
            i += 1;
        }
        Inventory { slots, modified: true }
    }

    /// An inventory with the given slots and flag.
    pub fn from_slots(slots: Vec<ItemStack>, modified: bool) -> (inventory: Self)
        ensures
            inventory@ == slots@,
            inventory.modified_flag() == modified,
    {
        Inventory { slots, modified }
    }

    pub fn is_modified(&self) -> (modified: bool)
        ensures
            modified == self.modified_flag(),
    {
        self.modified
    }

    pub fn fill(&mut self, item_stack: ItemStack)
        ensures
            final(self)@.len() == old(self)@.len(),
            forall|i: int| 0 <= i < final(self)@.len() ==> final(self)@[i] == item_stack,
            final(self).modified_flag() == (old(self).modified_flag() || old(self)@.len() > 0),
    {
        let mut i: usize = 0;
        while i < self.slots.len()
            invariant
                i <= self.slots@.len(),
                self.slots@.len() == old(self).slots@.len(),
                forall|j: int| 0 <= j < i ==> self.slots@[j] == item_stack,
                self.modified == (old(self).modified || i > 0),
            decreases self.slots@.len() - i,
        {
            self.slots[i] = item_stack;
            self.modified = true;
            i += 1;
        }
    }

    pub fn move_item_in_other_inventory(
        &mut self,
        other_inventory: &mut Inventory,
        start_slot: usize,
        end_slot: usize,
        selected_amount_or_none: Option<usize>,
    ) -> (moved: Option<()>)
        ensures
            moved is Some <==> start_slot < old(self)@.len() && end_slot < old(other_inventory)@.len(),
            moved is None ==> *final(self) == *old(self) && *final(other_inventory) == *old(
                other_inventory,
            ),
            moved is Some ==> {
                let plan = transfer(
                    old(self)@[start_slot as int],
                    old(other_inventory)@[end_slot as int],
                    selected_amount_or_none,
                );
                &&& final(self)@ == write_slot(old(self)@, start_slot as int, plan.start)
                &&& final(other_inventory)@ == write_slot(
                    old(other_inventory)@,
                    end_slot as int,
                    plan.end,
                )
                &&& final(self).modified_flag() == (old(self).modified_flag() || plan.start is Some)
                &&& final(other_inventory).modified_flag() == (old(other_inventory).modified_flag()
                    || plan.end is Some)
            },
    {
        if start_slot >= self.slots.len() || end_slot >= other_inventory.slots.len() {
            return None;
        }
        let plan = plan_transfer(
            self.slots[start_slot],
            other_inventory.slots[end_slot],
            selected_amount_or_none,
        );
        if let Some(stack) = plan.start {
            self.slots[start_slot] = stack;
            self.modified = true;
        }
        if let Some(stack) = plan.end {
            other_inventory.slots[end_slot] = stack;
            other_inventory.modified = true;
        }
        Some(())
    }

    pub fn take_one(&mut self, index: usize) -> (taken: Option<ItemType>)
        ensures
            taken is Some <==> index < old(self)@.len(),
            taken is None ==> *final(self) == *old(self),
            taken is Some ==> {
                let slot = old(self)@[index as int];
                let depleted = !slot.creative_slot && slot.amount > 0;
                &&& taken == Some(slot.item_type)
                &&& final(self)@ == old(self)@.update(
                    index as int,
                    if !depleted {
                        slot
                    } else if slot.amount == 1 {
                        ItemStack { item_type: ItemType::Air, amount: 0, creative_slot: false }
                    } else {
                        ItemStack { amount: (slot.amount - 1) as u8, ..slot }
                    },
                )
                &&& final(self).modified_flag() == (old(self).modified_flag() || depleted)
            },
    {
        if index >= self.slots.len() {
            return None;
        }
        let slot = self.slots[index];
        if !slot.creative_slot && slot.amount == 1 {
            self.slots[index] = ItemStack::void();
            self.modified = true;
        } else if !slot.creative_slot && slot.amount > 0 {
            self.slots[index] = ItemStack::new(slot.item_type, slot.amount - 1, false);
            self.modified = true;
        }
        assert(self.slots@ =~= old(self).slots@.update(index as int, self.slots@[index as int]));
        Some(slot.item_type)
    }

    pub fn move_item(
        &mut self,
        start_slot: usize,
        end_slot: usize,
        selected_amount_or_none: Option<usize>,
    ) -> (moved: Option<()>)
        ensures
            moved is Some <==> start_slot < old(self)@.len() && end_slot < old(self)@.len(),
            moved is None ==> *final(self) == *old(self),
            moved is Some && start_slot == end_slot ==> *final(self) == *old(self),
            moved is Some && start_slot != end_slot ==> {
                let plan = transfer(
                    old(self)@[start_slot as int],
                    old(self)@[end_slot as int],
                    selected_amount_or_none,
                );
                &&& final(self)@ == write_slot(
                    write_slot(old(self)@, start_slot as int, plan.start),
                    end_slot as int,
                    plan.end,
                )
                &&& final(self).modified_flag() == (old(self).modified_flag() || plan.start is Some
                    || plan.end is Some)
            },
    {
        if start_slot >= self.slots.len() || end_slot >= self.slots.len() {
            return None;
        }
        if start_slot == end_slot {
            return Some(());
        }
        let plan = plan_transfer(
            self.slots[start_slot],
            self.slots[end_slot],
            selected_amount_or_none,
        );
        if let Some(stack) = plan.start {
            self.slots[start_slot] = stack;
            self.modified = true;
        }
        if let Some(stack) = plan.end {
            self.slots[end_slot] = stack;
            self.modified = true;
        }
        Some(())
    }

    pub fn swap_item_stack(&mut self, slot_index: usize, other: &mut ItemStack) -> (swapped: Option<
        (),
    >)
        ensures
            swapped is Some <==> slot_index < old(self)@.len(),
            swapped is None ==> *final(self) == *old(self) && *final(other) == *old(other),
            swapped is Some ==> {
                &&& final(self)@ == old(self)@.update(slot_index as int, *old(other))
                &&& *final(other) == old(self)@[slot_index as int]
                &&& final(self).modified_flag()
            },
    {
        if slot_index >= self.slots.len() {
            None
        } else {
            let held = self.slots[slot_index];
            self.slots[slot_index] = *other;
            *other = held;
            self.modified = true;
            Some(())
        }
    }

    pub fn get_ref_to_slot_mut(&mut self, slot_index: usize) -> (slot: Option<&mut ItemStack>)
        ensures
            slot is Some <==> slot_index < old(self)@.len(),
            slot is None ==> *final(self) == *old(self),
            slot is Some ==> {
                &&& *slot->0 == old(self)@[slot_index as int]
                &&& final(self)@ == old(self)@.update(slot_index as int, *final(slot->0))
                &&& final(self).modified_flag() == old(self).modified_flag()
            },
    {
        if slot_index >= self.slots.len() {
            None
        } else {
            Some(&mut self.slots[slot_index])
        }
    }

    pub fn get_ref_to_slot(&self, slot_index: usize) -> (slot: Option<&ItemStack>)
        ensures
            slot is Some <==> slot_index < self@.len(),
            slot is Some ==> *slot->0 == self@[slot_index as int],
    {
        if slot_index >= self.slots.len() {
            None
        } else {
            Some(&self.slots[slot_index])
        }
    }

    pub fn swap_slots(&mut self, first: usize, second: usize) -> (swapped: Option<()>)
        ensures
            swapped is Some <==> first < old(self)@.len() && second < old(self)@.len(),
            swapped is None ==> *final(self) == *old(self),
            swapped is Some ==> {
                &&& final(self)@ == old(self)@.update(first as int, old(self)@[second as int]).update(
                    second as int,
                    old(self)@[first as int],
                )
                &&& final(self).modified_flag()
            },
    {
        if first >= self.slots.len() || second >= self.slots.len() {
            None
        } else {
            let a = self.slots[first];
            let b = self.slots[second];
            self.slots[first] = b;
            self.slots[second] = a;
            self.modified = true;
            Some(())
        }
    }

    pub fn replace_slot_item_stack(&mut self, slot_index: usize, item_stack: ItemStack) -> (replaced:
        Option<()>)
        ensures
            replaced is Some <==> slot_index < old(self)@.len(),
            replaced is None ==> *final(self) == *old(self),
            replaced is Some ==> {
                &&& final(self)@ == old(self)@.update(slot_index as int, item_stack)
                &&& final(self).modified_flag()
            },
    {
        if slot_index >= self.slots.len() {
            None
        } else {
            self.slots[slot_index] = item_stack;
            self.modified = true;
            Some(())
        }
    }

    pub fn get_all_slots(&self) -> (slots: &Vec<ItemStack>)
        ensures
            slots@ == self@,
    {
        &self.slots
    }

    /// One sweep over all slots: puts as much of `amount` as they take into
    /// the slots that accept `item_type`, and returns what is left over.
    fn sweep_slots(&mut self, item_type: ItemType, amount: u8, into_empty: bool) -> (left: u8)
        ensures
            (final(self)@, left) == sweep(
                old(self)@,
                item_type,
                amount,
                into_empty,
                old(self)@.len(),
            ),
            final(self)@.len() == old(self)@.len(),
            left <= amount,
            final(self).modified_flag() == (old(self).modified_flag() || left < amount),
    {
        let max = item_type.get_max_stack_amount();
        let mut left = amount;
        let mut i: usize = 0;
        while i < self.slots.len() && left > 0
            invariant
                i <= self.slots@.len(),
                self.slots@.len() == old(self).slots@.len(),
                max == item_type.max_stack(),
                left <= amount,
                (self.slots@, left) == sweep(old(self).slots@, item_type, amount, into_empty, i as nat),
                self.modified == (old(self).modified || left < amount),
            decreases self.slots@.len() - i,
        {
            let slot = self.slots[i];
            let accepts = if into_empty {
                slot.item_type == ItemType::Air && max > 0
            } else {
                slot.item_type == item_type && slot.get_amount() < max
            };
            if accepts {
                let held: u8 = if into_empty {
                    0
                } else {
                    slot.get_amount()
                };
                let total: u16 = held as u16 + left as u16;
                if total <= max as u16 {
                    self.slots[i] = ItemStack::new(item_type, total as u8, false);
                    left = 0;
                } else {
                    self.slots[i] = ItemStack::new(item_type, max, false);
                    left = (total - max as u16) as u8;
                }
                self.modified = true;
            } else {
                assert(self.slots@ =~= self.slots@.update(i as int, slot));
            }
            i += 1;
        }
        proof {
            if i < self.slots@.len() {
                lemma_sweep_exhausted(
                    old(self).slots@,
                    item_type,
                    amount,
                    into_empty,
                    i as nat,
                    old(self).slots@.len(),
                );
            }
        }
        left
    }

    /// Add an item stack to the inventory. Returns the number of remaining items.
    pub fn add_item_stack(&mut self, item_stack: ItemStack) -> (remaining: u8)
        ensures
            (final(self)@, remaining) == stocked(
                old(self)@,
                item_stack.item_type,
                item_stack.amount,
            ),
            final(self)@.len() == old(self)@.len(),
            remaining <= item_stack.amount,
            total_items(final(self)@) + remaining == total_items(old(self)@) + item_stack.amount,
            final(self).modified_flag() == (old(self).modified_flag() || remaining
                < item_stack.amount),
    {
        proof {
            lemma_stocking_conserves_items(old(self)@, item_stack.item_type, item_stack.amount);
        }
        let left = self.sweep_slots(item_stack.item_type, item_stack.amount, false);
        self.sweep_slots(item_stack.item_type, left, true)
    }
}

impl Clone for Inventory {
    fn clone(&self) -> (copy: Self)
        ensures
            copy@ == self@,
            copy.modified_flag() == self.modified_flag(),
    {
        let slots = self.slots.clone();
        assert(slots@ =~= self.slots@);
        Inventory { slots, modified: self.modified }
    }
}

} // verus!
