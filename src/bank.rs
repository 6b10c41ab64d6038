use vstd::prelude::*;

use crate::inventory::{
    all_quantities_positive, room_for, Inventory,
    add_to_slots, empty_slots, find_empty, find_named, lemma_find_empty, lemma_find_named_absent, holds_named, quantities_positive, remove_n_from_slots,
    remove_one_from_slots, slots_after_add, slots_after_remove_n, slots_after_remove_one, Item,
};

verus! {

/// The number of slots of the player's bank. The bank is built with 800 slots; an
/// interface may show fewer of them at a time, but the capacity is this one.
pub const BANK_CAPACITY: usize = 800;

/// Storage of items by name: everything stacks in the bank, whatever the item's own flag
/// says, so each name has at most one slot.
#[derive(Debug, Clone)]
pub struct Bank {
    items: Vec<Option<Item>>,
    capacity: usize,
}

/// No two slots hold items of the same name.
pub open spec fn names_unique(s: Seq<Option<Item>>) -> bool {
    forall|i: int, j: int|
        0 <= i < s.len() && 0 <= j < s.len() && i != j && (#[trigger] s[i]) is Some && (#[trigger] s[j]) is Some
            ==> s[i]->0.name@ != s[j]->0.name@
}

fn all_names_unique(items: &Vec<Option<Item>>) -> (r: bool)
    ensures
        r == names_unique(items@),
{
    let mut i: usize = 0;
    while i < items.len()
        invariant
            i <= items@.len(),
            forall|a: int, b: int|
                0 <= a < i && 0 <= b < items@.len() && a != b && (#[trigger] items@[a]) is Some && (#[trigger] items@[b]) is Some
                    ==> items@[a]->0.name@ != items@[b]->0.name@,
        decreases items@.len() - i,
    {
        if let Some(it) = &items[i] {
            let mut j: usize = 0;
            while j < items.len()
                invariant
                    i < items@.len(),
                    j <= items@.len(),
                    items@[i as int] == Some(*it),
                    forall|a: int, b: int|
                        0 <= a < i && 0 <= b < items@.len() && a != b && (#[trigger] items@[a]) is Some && (#[trigger] items@[b]) is Some
                            ==> items@[a]->0.name@ != items@[b]->0.name@,
                    forall|b: int| 0 <= b < j && b != i && (#[trigger] items@[b]) is Some ==> it.name@ != items@[b]->0.name@,
                decreases items@.len() - j,
            {
                if j != i {
                    if let Some(other) = &items[j] {
                        if other.name == it.name {
                            return false;
                        }
                    }
                }
                j = j + 1;
            }
        }
        i = i + 1;
    }
    true
}

proof fn lemma_add_keeps_names_unique(s: Seq<Option<Item>>, item: Item)
    requires
        names_unique(s),
        slots_after_add(s, item, true) is Some,
    ensures
        names_unique(slots_after_add(s, item, true)->0),
{
    lemma_find_named_absent(s, item.name@, 0);
    let t = slots_after_add(s, item, true)->0;
    let k = find_named(s, item.name@, 0);
    assert forall|i: int, j: int|
        0 <= i < t.len() && 0 <= j < t.len() && i != j && (#[trigger] t[i]) is Some && (#[trigger] t[j]) is Some
        implies t[i]->0.name@ != t[j]->0.name@ by {
        if k < 0 {
            let e = find_empty(s, 0);
            lemma_find_empty(s, 0);
            if i == e {
                assert(!holds_named(s[j], item.name@));
            } else if j == e {
                assert(!holds_named(s[i], item.name@));
            }
        }
    }
}

impl View for Bank {
    type V = Seq<Option<Item>>;

    closed spec fn view(&self) -> Seq<Option<Item>> {
        self.items@
    }
}

impl Bank {
    pub closed spec fn spec_capacity(&self) -> int {
        self.capacity as int
    }

    pub open spec fn wf(&self) -> bool {
        &&& self@.len() == self.spec_capacity()
        &&& quantities_positive(self@)
        &&& names_unique(self@)
    }

    pub fn new(capacity: usize) -> (r: Self)
        ensures
            r.wf(),
            r.spec_capacity() == capacity,
            forall|i: int| 0 <= i < capacity ==> (#[trigger] r@[i]) is None,
    {
        Bank { items: empty_slots(capacity), capacity }
    }

    /// A bank holding exactly `items`, slot for slot, as a saved game gives them; `None`
    /// when a slot holds an item with no units, or two slots share a name.
    pub fn from_slots(items: Vec<Option<Item>>) -> (r: Option<Self>)
        ensures
            r is Some <==> quantities_positive(items@) && names_unique(items@),
            r matches Some(b) ==> b.wf() && b@ == items@ && b.spec_capacity() == items@.len(),
    {
        if all_quantities_positive(&items) && all_names_unique(&items) {
            let capacity = items.len();
            Some(Bank { items, capacity })
        } else {
            None
        }
    }

    /// Adds `item` to the slot of its name, or else to the first empty slot; `false` when
    /// there is no room, and then nothing changes.
    pub fn add_item(&mut self, item: Item) -> (r: bool)
        requires
            old(self).wf(),
            item.quantity >= 1,
        ensures
            final(self).wf(),
            final(self).spec_capacity() == old(self).spec_capacity(),
            r == slots_after_add(old(self)@, item, true) is Some,
            r ==> final(self)@ == slots_after_add(old(self)@, item, true)->0,
            !r ==> final(self)@ == old(self)@,
    {
        proof {
            lemma_find_named_absent(self@, item.name@, 0);
            if slots_after_add(self@, item, true) is Some {
                lemma_add_keeps_names_unique(self@, item);
            }
        }
        add_to_slots(&mut self.items, item, true)
    }

    /// Takes one unit out of slot `index`: a single unit of a larger stack of an item
    /// that stacks, else the whole slot; `None` for an empty or missing slot.
    pub fn remove_item(&mut self, index: usize) -> (r: Option<Item>)
        requires
            old(self).wf(),
        ensures
            final(self).wf(),
            final(self).spec_capacity() == old(self).spec_capacity(),
            final(self)@ == slots_after_remove_one(old(self)@, index as int, false).0,
            r == slots_after_remove_one(old(self)@, index as int, false).1,
    {
        remove_one_from_slots(&mut self.items, index, false)
    }

    /// Takes `amount` units out of slot `index`; `None`, with nothing changed, when the
    /// slot is empty or holds fewer units than that, or `amount` is zero.
    pub fn remove_items(&mut self, index: usize, amount: u32) -> (r: Option<Item>)
        requires
            old(self).wf(),
        ensures
            final(self).wf(),
            final(self).spec_capacity() == old(self).spec_capacity(),
            final(self)@ == slots_after_remove_n(old(self)@, index as int, amount, true).0,
            r == slots_after_remove_n(old(self)@, index as int, amount, true).1,
    {
        remove_n_from_slots(&mut self.items, index, amount, true)
    }

    pub fn get_item(&self, index: usize) -> (r: Option<&Item>)
        ensures
            match r {
                Some(it) => index < self@.len() && self@[index as int] == Some(*it),
                None => index >= self@.len() || self@[index as int] is None,
            },
    {
        if index < self.items.len() {
            self.items[index].as_ref()
        } else {
            None
        }
    }

    pub fn get_items(&self) -> (r: &Vec<Option<Item>>)
        ensures
            r@ == self@,
    {
        &self.items
    }

    /// Whether `add_item` would take `item`.
    pub fn has_room_for(&self, item: &Item) -> (r: bool)
        ensures
            r == slots_after_add(self@, *item, true) is Some,
    {
        room_for(&self.items, item, true)
    }
}

/// Taking a whole stack, or `n` units of it, out of slot `index` of an inventory: a
/// stack gives up `n` units, anything else the whole slot.
pub open spec fn take_units(s: Seq<Option<Item>>, index: int, n: u32) -> (Seq<Option<Item>>, Option<Item>) {
    if 0 <= index < s.len() && s[index] is Some && !s[index]->0.spec_stackable() {
        slots_after_remove_one(s, index, false)
    } else {
        slots_after_remove_n(s, index, n, false)
    }
}

/// The smaller of two numbers.
pub open spec fn min(a: int, b: int) -> int {
    if a < b {
        a
    } else {
        b
    }
}

/// Depositing up to `amount` units of inventory slot `slot`, going from inventory `s`
/// and bank `b` to `s2` and `b2`, with `r` units moved.
pub open spec fn deposit_post(
    s: Seq<Option<Item>>,
    b: Seq<Option<Item>>,
    s2: Seq<Option<Item>>,
    b2: Seq<Option<Item>>,
    slot: int,
    amount: u32,
    r: u32,
) -> bool {
    let n = if 0 <= slot < s.len() && s[slot] is Some {
        min(amount as int, s[slot]->0.quantity as int) as u32
    } else {
        0
    };
    let (t, x) = take_units(s, slot, n);
    if x is Some && slots_after_add(b, x->0, true) is Some {
        &&& s2 == t
        &&& b2 == slots_after_add(b, x->0, true)->0
        &&& r == x->0.quantity
    } else {
        &&& s2 == s
        &&& b2 == b
        &&& r == 0
    }
}

/// Moves up to `amount` units of the item in inventory slot `slot` to the bank (the
/// whole slot, for an item that does not stack), and tells how many went. Nothing moves
/// when the slot is empty, `amount` is zero, or the bank has no room.
pub fn deposit_items(slot: usize, amount: u32, inventory: &mut Inventory, bank: &mut Bank) -> (r: u32)
    requires
        old(inventory).wf(),
        old(bank).wf(),
    ensures
        final(inventory).wf(),
        final(bank).wf(),
        final(inventory).spec_capacity() == old(inventory).spec_capacity(),
        final(bank).spec_capacity() == old(bank).spec_capacity(),
        deposit_post(old(inventory)@, old(bank)@, final(inventory)@, final(bank)@, slot as int, amount, r),
{
    let candidate = match inventory.get_item(slot) {
        Some(item) => {
            if item.is_stackable() {
                let n = if amount < item.quantity {
                    amount
                } else {
                    item.quantity
                };
                if n == 0 {
                    return 0;
                }
                item.with_quantity(n)
            } else {
                item.with_quantity(item.quantity)
            }
        },
        None => {
            return 0;
        },
    };
    if !bank.has_room_for(&candidate) {
        return 0;
    }
    let taken = if candidate.is_stackable() {
        inventory.remove_items(slot, candidate.quantity)
    } else {
        inventory.remove_item(slot)
    };
    match taken {
        Some(item) => {
            let q = item.quantity;
            bank.add_item(item);
            q
        },
        None => 0,
    }
}

/// `k` copies of `unit` added one by one to an inventory's slots.
pub open spec fn add_copies(s: Seq<Option<Item>>, unit: Item, k: nat) -> Seq<Option<Item>>
    decreases k,
{
    if k == 0 {
        s
    } else {
        match slots_after_add(add_copies(s, unit, (k - 1) as nat), unit, false) {
            Some(t) => t,
            None => add_copies(s, unit, (k - 1) as nat),
        }
    }
}

/// A bank's slots after `k` units, no more than it holds, left slot `index`.
pub open spec fn bank_after_withdrawal(s: Seq<Option<Item>>, index: int, k: int) -> Seq<Option<Item>> {
    let it = s[index]->0;
    if k == it.quantity {
        s.update(index, None)
    } else {
        s.update(index, Some(it.spec_with_quantity((it.quantity - k) as u32)))
    }
}

/// Withdrawing up to `amount` units of bank slot `slot` one at a time, going from
/// inventory `s` and bank `b` to `s2` and `b2`, with `r` units moved: every one of
/// them found room, and the withdrawal stops short only when the next would not.
pub open spec fn withdraw_post(
    s: Seq<Option<Item>>,
    b: Seq<Option<Item>>,
    s2: Seq<Option<Item>>,
    b2: Seq<Option<Item>>,
    slot: int,
    amount: u32,
    r: u32,
) -> bool {
    if !(0 <= slot < b.len() && b[slot] is Some) {
        r == 0 && s2 == s && b2 == b
    } else {
        let it = b[slot]->0;
        let unit = it.spec_with_quantity(1);
        &&& r <= amount && r <= it.quantity
        &&& s2 == add_copies(s, unit, r as nat)
        &&& b2 == bank_after_withdrawal(b, slot, r as int)
        &&& r < min(amount as int, it.quantity as int) ==> slots_after_add(s2, unit, false) is None
        &&& forall|k: nat| k < r ==> (#[trigger] slots_after_add(add_copies(s, unit, k), unit, false)) is Some
    }
}

/// Moves units of the item in bank slot `slot` to the inventory one at a time, up to
/// `amount` of them, and tells how many went; it stops early only when the inventory
/// has no room for one more.
pub fn withdraw_items(slot: usize, amount: u32, inventory: &mut Inventory, bank: &mut Bank) -> (r: u32)
    requires
        old(inventory).wf(),
        old(bank).wf(),
    ensures
        final(inventory).wf(),
        final(bank).wf(),
        final(inventory).spec_capacity() == old(inventory).spec_capacity(),
        final(bank).spec_capacity() == old(bank).spec_capacity(),
        withdraw_post(old(inventory)@, old(bank)@, final(inventory)@, final(bank)@, slot as int, amount, r),
{
    let (unit, target) = match bank.get_item(slot) {
        Some(it) => (it.with_quantity(1), if amount < it.quantity {
            amount
        } else {
            it.quantity
        }),
        None => {
            return 0;
        },
    };
    let ghost inv0 = inventory@;
    let ghost bank0 = bank@;
    let ghost it = bank0[slot as int]->0;
    let mut count: u32 = 0;
    let mut full = false;
    while count < target && !full
        invariant
            inventory.wf(),
            bank.wf(),
            inventory.spec_capacity() == old(inventory).spec_capacity(),
            bank.spec_capacity() == old(bank).spec_capacity(),
            slot < bank0.len(),
            bank0[slot as int] == Some(it),
            unit == it.spec_with_quantity(1),
            target <= amount && target <= it.quantity,
            count <= target,
            inventory@ == add_copies(inv0, unit, count as nat),
            bank@ == if count == 0 {
                bank0
            } else {
                bank_after_withdrawal(bank0, slot as int, count as int)
            },
            full ==> slots_after_add(inventory@, unit, false) is None,
            forall|k: nat| k < count ==> (#[trigger] slots_after_add(add_copies(inv0, unit, k), unit, false)) is Some,
        decreases target - count + if full {
            0int
        } else {
            1int
        },
    {
        if !inventory.has_room_for(&unit) {
            full = true;
        } else {
            proof {
                assert(it.spec_with_quantity(it.quantity) == it);
                assert(bank@[slot as int] == Some(it.spec_with_quantity((it.quantity - count) as u32)));
            }
            let taken = bank.remove_items(slot, 1);
            match taken {
                Some(item) => {
                    assert(item == unit);
                    inventory.add_item(item);
                    count = count + 1;
                    proof {
                        assert(bank@ =~= bank_after_withdrawal(bank0, slot as int, count as int));
                    }
                },
                None => {
                    full = true;
                    assert(false);
                },
            }
        }
    }
    proof {
        if count == 0 {
            assert(bank0 =~= bank_after_withdrawal(bank0, slot as int, 0)) by {
                assert(it.spec_with_quantity(it.quantity) == it);
            }
        }
    }
    count
}

/// Slots `i - 1` down to `0` of an inventory put in the bank, each whole slot that
/// holds `name`, until the bank refuses one: the inventory, the bank, and the number of
/// units moved.
pub open spec fn deposit_run(inv: Seq<Option<Item>>, bank: Seq<Option<Item>>, name: Seq<char>, i: int) -> (Seq<Option<Item>>, Seq<Option<Item>>, int)
    decreases i,
{
    if i <= 0 || i > inv.len() {
        (inv, bank, 0)
    } else if holds_named(inv[i - 1], name) {
        let it = inv[i - 1]->0;
        match slots_after_add(bank, it, true) {
            Some(b2) => {
                let rest = deposit_run(inv.update(i - 1, None), b2, name, i - 1);
                (rest.0, rest.1, rest.2 + it.quantity)
            },
            None => (inv, bank, 0),
        }
    } else {
        deposit_run(inv, bank, name, i - 1)
    }
}

/// Puts in the bank every inventory slot that holds an item of the same name as slot
/// `slot`, from the last slot down, stopping at the first the bank cannot take; tells
/// how many units went.
pub fn deposit_all_items(slot: usize, inventory: &mut Inventory, bank: &mut Bank) -> (r: u64)
    requires
        old(inventory).wf(),
        old(inventory).spec_capacity() <= u32::MAX,
        old(bank).wf(),
    ensures
        final(inventory).wf(),
        final(bank).wf(),
        final(inventory).spec_capacity() == old(inventory).spec_capacity(),
        final(bank).spec_capacity() == old(bank).spec_capacity(),
        !(slot < old(inventory)@.len() && old(inventory)@[slot as int] is Some) ==> r == 0
            && final(inventory)@ == old(inventory)@ && final(bank)@ == old(bank)@,
        slot < old(inventory)@.len() && old(inventory)@[slot as int] is Some ==> ({
            let run = deposit_run(
                old(inventory)@,
                old(bank)@,
                old(inventory)@[slot as int]->0.name@,
                old(inventory)@.len() as int,
            );
            &&& final(inventory)@ == run.0
            &&& final(bank)@ == run.1
            &&& r == run.2
        }),
{
    let name = match inventory.get_item(slot) {
        Some(it) => it.name.clone(),
        None => {
            return 0;
        },
    };
    let ghost inv0 = inventory@;
    let ghost bank0 = bank@;
    let mut i: usize = inventory.capacity();
    let mut total: u64 = 0;
    let mut stopped = false;
    while i > 0 && !stopped
        invariant
            inventory.wf(),
            bank.wf(),
            inventory.spec_capacity() == old(inventory).spec_capacity(),
            bank.spec_capacity() == old(bank).spec_capacity(),
            i <= inventory@.len(),
            total <= (inventory@.len() - i) * (u32::MAX as int),
            inventory@.len() <= u32::MAX,
            ({
                let whole = deposit_run(inv0, bank0, name@, inv0.len() as int);
                let rest = deposit_run(inventory@, bank@, name@, i as int);
                whole == (rest.0, rest.1, rest.2 + total)
            }),
            stopped ==> deposit_run(inventory@, bank@, name@, i as int) == (inventory@, bank@, 0int),
            inv0.len() == inventory@.len(),
        decreases i + if stopped {
            0int
        } else {
            1int
        },
    {
        let candidate = match inventory.get_item(i - 1) {
            Some(it) => {
                if it.name == name {
                    Some(it.with_quantity(it.quantity))
                } else {
                    None
                }
            },
            None => None,
        };
        match candidate {
            Some(item) => {
                if !bank.has_room_for(&item) {
                    stopped = true;
                } else {
                    let taken = if item.is_stackable() {
                        inventory.remove_items(i - 1, item.quantity)
                    } else {
                        inventory.remove_item(i - 1)
                    };
                    match taken {
                        Some(t) => {
                            let q = t.quantity;
                            bank.add_item(t);
                            proof {
                                let n = inventory@.len() as int;
                                assert(total + q <= (n - (i - 1)) * (u32::MAX as int)) by (nonlinear_arith)
                                    requires
                                        total <= (n - i) * (u32::MAX as int),
                                        q <= u32::MAX,
                                ;
                                assert((n - (i - 1)) * (u32::MAX as int) <= n * (u32::MAX as int)) by (nonlinear_arith)
                                    requires
                                        1 <= i <= n,
                                ;
                                assert(n * (u32::MAX as int) <= (u32::MAX as int) * (u32::MAX as int)) by (nonlinear_arith)
                                    requires
                                        n <= u32::MAX,
                                ;
                            }
                            total = total + q as u64;
                            i = i - 1;
                        },
                        None => {
                            assert(false);
                            stopped = true;
                        },
                    }
                }
            },
            None => {
                i = i - 1;
            },
        }
    }
    total
}

} // verus!
