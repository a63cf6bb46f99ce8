//! The lengths of session that are on offer.

use vstd::prelude::*;
use crate::error::BotStateError;
use crate::text::push_signed_decimal;
use crate::text::push_text;
use crate::text::signed_decimal_text;

verus! {

/// A length of session on offer. Prices are whole stars.
#[derive(Debug, PartialEq, Eq)]
pub struct TimeSlot {
    pub id: i32,
    pub duration_minutes: i32,
    pub description: String,
    pub is_active: bool,
    pub sort_order: i32,
}

/// What a `TimeSlot` holds.
pub struct TimeSlotView {
    pub id: i32,
    pub duration_minutes: i32,
    pub description: Seq<char>,
    pub is_active: bool,
    pub sort_order: i32,
}

impl TimeSlotView {
    /// The price of a session of this length at `price_per_minute`.
    pub open spec fn price(self, price_per_minute: u32) -> int {
        price_per_minute * self.duration_minutes
    }

    /// The price as it is shown: a price that is no `i32` is shown as the
    /// nearest `i32`.
    pub open spec fn shown_price(self, price_per_minute: u32) -> int {
        if self.price(price_per_minute) > i32::MAX {
            i32::MAX as int
        } else if self.price(price_per_minute) < i32::MIN {
            i32::MIN as int
        } else {
            self.price(price_per_minute)
        }
    }

    /// The label of the slot: its length and its price.
    pub open spec fn label(self, price_per_minute: u32) -> Seq<char> {
        signed_decimal_text(self.duration_minutes as int) + " мин - "@ + signed_decimal_text(
            self.shown_price(price_per_minute),
        ) + " Stars"@
    }

    /// The slot that is offered where the store cannot tell which are.
    pub open spec fn standard() -> TimeSlotView {
        TimeSlotView {
            id: 1,
            duration_minutes: 30,
            description: "Стандартная сессия"@,
            is_active: true,
            sort_order: 1,
        }
    }
}

impl View for TimeSlot {
    type V = TimeSlotView;

    open spec fn view(&self) -> TimeSlotView {
        TimeSlotView {
            id: self.id,
            duration_minutes: self.duration_minutes,
            description: self.description@,
            is_active: self.is_active,
            sort_order: self.sort_order,
        }
    }
}

impl DeepView for TimeSlot {
    type V = TimeSlotView;

    open spec fn deep_view(&self) -> TimeSlotView {
        self@
    }
}

impl Clone for TimeSlot {
    fn clone(&self) -> (copy: Self)
        ensures
            copy@ == self@,
    {
        TimeSlot {
            id: self.id,
            duration_minutes: self.duration_minutes,
            description: self.description.clone(),
            is_active: self.is_active,
            sort_order: self.sort_order,
        }
    }
}

/// The place of the first slot with the identifier `id`, if there is one.
pub open spec fn slot_with_id(slots: Seq<TimeSlotView>, id: i32, at: int) -> bool {
    &&& 0 <= at < slots.len()
    &&& slots[at].id == id
    &&& forall|i: int| 0 <= i < at ==> (#[trigger] slots[i]).id != id
}

/// The slot that a choice of `id` selects: the first slot with that
/// identifier, or the first slot of all where none has it.
pub open spec fn chosen_slot(slots: Seq<TimeSlotView>, id: i32) -> TimeSlotView {
    if exists|at: int| slot_with_id(slots, id, at) {
        slots[choose|at: int| slot_with_id(slots, id, at)]
    } else {
        slots[0]
    }
}

/// The slots on offer for what the store answered: its answer, or the
/// standard slot alone where it failed.
pub open spec fn offered_slots(fetched: Result<Vec<TimeSlot>, BotStateError>) -> Seq<TimeSlotView> {
    match fetched {
        Ok(slots) => slots.deep_view(),
        Err(_) => seq![TimeSlotView::standard()],
    }
}

impl TimeSlot {
    /// The slot that is offered where the store cannot tell which are.
    pub fn standard() -> (slot: Self)
        ensures
            slot@ == TimeSlotView::standard(),
    {
        TimeSlot {
            id: 1,
            duration_minutes: 30,
            description: "Стандартная сессия".to_owned(),
            is_active: true,
            sort_order: 1,
        }
    }

    /// The slots on offer, from what the store answered when it was asked
    /// for the active slots.
    pub fn get_all_active_slots(fetched: Result<Vec<TimeSlot>, BotStateError>) -> (slots: Vec<
        TimeSlot,
    >)
        ensures
            slots.deep_view() == offered_slots(fetched),
    {
        match fetched {
            Ok(slots) => slots,
            Err(_) => {
                let mut slots: Vec<TimeSlot> = Vec::new();
                slots.push(TimeSlot::standard());
                assert(slots.deep_view() =~= seq![TimeSlotView::standard()]);
                slots
            },
        }
    }

    /// The slot that a choice of `id` selects among `slots`, of which there
    /// is at least one.
    pub fn select(slots: &Vec<TimeSlot>, id: i32) -> (slot: &TimeSlot)
        requires
            slots.len() > 0,
        ensures
            slot@ == chosen_slot(slots.deep_view(), id),
    {
        let mut at: usize = 0;
        while at < slots.len()
            invariant
                at <= slots.len(),
                forall|i: int| 0 <= i < at ==> (#[trigger] slots.deep_view()[i]).id != id,
            decreases slots.len() - at,
        {
            if slots[at].id == id {
                proof {
                    let views = slots.deep_view();
                    assert(slot_with_id(views, id, at as int));
                    let other = choose|other: int| slot_with_id(views, id, other);
                    assert(views[other].id == id);
                    assert(views[at as int].id == id);
                    assert(other == at);
                }
                return &slots[at];
            }
            at = at + 1;
        }
        proof {
            let views = slots.deep_view();
            if exists|other: int| slot_with_id(views, id, other) {
                let other = choose|other: int| slot_with_id(views, id, other);
                assert(views[other].id != id);
            }
        }
        &slots[0]
    }

    /// The price of a session of this length at `price_per_minute`.
    pub fn calculate_price(&self, price_per_minute: u32) -> (price: i64)
        ensures
            price == self@.price(price_per_minute),
    {
        assert(-0x8000_0000 * 0xffff_ffff <= price_per_minute * self.duration_minutes
            <= 0xffff_ffff * 0x7fff_ffff) by (nonlinear_arith)
            requires
                0 <= price_per_minute <= 0xffff_ffff,
                -0x8000_0000 <= self.duration_minutes <= 0x7fff_ffff,
        ;
        (price_per_minute as i64) * (self.duration_minutes as i64)
    }

    /// The label of the slot at `price_per_minute`: its length in minutes
    /// and its price in stars.
    pub fn format_price(&self, price_per_minute: u32) -> (label: String)
        ensures
            label@ == self@.label(price_per_minute),
    {
        let price = self.calculate_price(price_per_minute);
        let shown: i64 = if price > i32::MAX as i64 {
            i32::MAX as i64
        } else if price < i32::MIN as i64 {
            i32::MIN as i64
        } else {
            price
        };
        let mut label = String::new();
        push_signed_decimal(&mut label, self.duration_minutes as i64);
        push_text(&mut label, " мин - ");
        push_signed_decimal(&mut label, shown);
        push_text(&mut label, " Stars");
        assert(label@ =~= self@.label(price_per_minute));
        label
    }
}

} // verus!
