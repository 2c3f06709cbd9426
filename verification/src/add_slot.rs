//! Adding items directly as new pouch slots (`!add-slot`): how many slots are pushed,
//! what each new slot holds, and which game data flags are set once one was added
use vstd::prelude::*;
use vstd::string::StringExecFns;

use crate::cir::{ItemSpec, Span};
use crate::error::{spec_error, ErrorReport, RuntimeError};

verus! {

/// The fields written to each new pouch item (`f32` fields are bit patterns)
#[derive(Debug, Clone, Copy, PartialEq, Eq, Structural)]
pub struct NewSlotFields {
    pub item_type: i32,
    pub item_use: i32,
    pub value: i32,
    pub equipped: bool,
    pub health_recover: i32,
    pub effect_duration: i32,
    pub sell_price: i32,
    pub effect_id: u32,
    pub effect_level: u32,
}

/// How an item is added as slots: `count` new slots, each with `fields`
#[derive(Debug, Clone, Copy, PartialEq, Eq, Structural)]
pub struct AddSlotPlan {
    pub count: usize,
    pub fields: NewSlotFields,
}

/// Bit pattern of the `f32` value -1, the effect id of an item without effect
pub const NO_EFFECT_ID: u32 = 0xbf80_0000u32;

/// The number of slots and the value of each: an explicit value is set on every new
/// slot; otherwise a stackable item gets one slot holding the amount, and another item
/// one slot per amount, with the weapon's default life times 100 (or 1)
pub open spec fn spec_count_and_value(item: ItemSpec, weapon_life: Option<i32>) -> (usize, i32) {
    match item.meta {
        Some(m) if m.value is Some => (item.amount, m.value->0),
        _ => if item.name.can_stack {
            (1, item.amount as i32)
        } else {
            match weapon_life {
                None => (item.amount, 1),
                Some(life) => (item.amount, (life * 100) as i32),
            }
        },
    }
}

/// The plan for adding the item as slots, given the item use and the weapon's default
/// life from the game data
pub open spec fn spec_add_slot_plan(item: ItemSpec, item_use: i32, weapon_life: Option<i32>) -> AddSlotPlan {
    let (count, value) = spec_count_and_value(item, weapon_life);
    AddSlotPlan {
        count,
        fields: match item.meta {
            None => NewSlotFields {
                item_type: item.name.pouch_type,
                item_use,
                value,
                equipped: false,
                health_recover: 0,
                effect_duration: 0,
                sell_price: 0,
                effect_id: NO_EFFECT_ID,
                effect_level: 0,
            },
            Some(m) => NewSlotFields {
                item_type: item.name.pouch_type,
                item_use,
                value,
                equipped: match m.equip {
                    Some(e) => e,
                    None => false,
                },
                health_recover: match m.life_recover {
                    Some(x) => x,
                    None => 0,
                },
                effect_duration: match m.effect_duration {
                    Some(x) => x,
                    None => 0,
                },
                sell_price: match m.sell_price {
                    Some(x) => x,
                    None => 0,
                },
                effect_id: match m.effect_id {
                    Some(x) => x,
                    None => NO_EFFECT_ID,
                },
                effect_level: match m.effect_level {
                    Some(x) => x,
                    None => 0,
                },
            },
        },
    }
}

/// Plan adding the item as slots
pub fn plan_add_slot(item: &ItemSpec, item_use: i32, weapon_life: Option<i32>) -> (r: AddSlotPlan)
    requires
        weapon_life matches Some(life) ==> i32::MIN <= life * 100 <= i32::MAX,
    ensures
        r == spec_add_slot_plan(*item, item_use, weapon_life),
{
    let explicit_value = match &item.meta {
        Some(m) => m.value,
        None => None,
    };
    let (count, value): (usize, i32) = match explicit_value {
        // an explicit value is set on every new slot
        Some(v) => (item.amount, v),
        None => if item.name.can_stack {
            // a stackable item gets one slot, with the amount as its value
            (1, item.amount as i32)
        } else {
            match weapon_life {
                None => (item.amount, 1),
                Some(life) => (item.amount, life * 100),
            }
        },
    };
    let fields = match &item.meta {
        None => NewSlotFields {
            item_type: item.name.pouch_type,
            item_use,
            value,
            equipped: false,
            health_recover: 0,
            effect_duration: 0,
            sell_price: 0,
            effect_id: NO_EFFECT_ID,
            effect_level: 0,
        },
        Some(m) => NewSlotFields {
            item_type: item.name.pouch_type,
            item_use,
            value,
            equipped: match m.equip {
                Some(e) => e,
                None => false,
            },
            health_recover: match m.life_recover {
                Some(x) => x,
                None => 0,
            },
            effect_duration: match m.effect_duration {
                Some(x) => x,
                None => 0,
            },
            sell_price: match m.sell_price {
                Some(x) => x,
                None => 0,
            },
            effect_id: match m.effect_id {
                Some(x) => x,
                None => NO_EFFECT_ID,
            },
            effect_level: match m.effect_level {
                Some(x) => x,
                None => 0,
            },
        },
    };
    AddSlotPlan { count, fields }
}

/// Index in the `IsOpenItemCategory` flag of the pouch tab of an item type (arrows are
/// in the bow tab); none for an invalid type
pub open spec fn spec_open_category_index(item_type: i32) -> Option<usize> {
    if item_type == 0 {
        Some(0)
    } else if item_type == 1 || item_type == 2 {
        Some(1)
    } else if item_type == 3 {
        Some(2)
    } else if 4 <= item_type <= 6 {
        Some(3)
    } else if item_type == 7 {
        Some(4)
    } else if item_type == 8 {
        Some(5)
    } else if item_type == 9 {
        Some(6)
    } else {
        None
    }
}

/// The `IsOpenItemCategory` index to set once an item of the type was added
pub fn open_category_index(item_type: i32) -> (r: Option<usize>)
    ensures
        r == spec_open_category_index(item_type),
{
    if item_type == 0 {
        Some(0)
    } else if item_type == 1 || item_type == 2 {
        Some(1)
    } else if item_type == 3 {
        Some(2)
    } else if 4 <= item_type && item_type <= 6 {
        Some(3)
    } else if item_type == 7 {
        Some(4)
    } else if item_type == 8 {
        Some(5)
    } else if item_type == 9 {
        Some(6)
    } else {
        None
    }
}

/// After taking the node of the next new slot from the free list: whether the slot is
/// added. A null node means the free list is empty, and adding stops with an error.
pub fn take_new_slot(node: u64, span: Span, errors: &mut Vec<ErrorReport>) -> (r: bool)
    ensures
        r == (node != 0),
        final(errors)@ == if node == 0 {
            old(errors)@.push(spec_error(span, RuntimeError::CannotGetMore))
        } else {
            old(errors)@
        },
{
    if node == 0 {
        errors.push(ErrorReport::error(span, RuntimeError::CannotGetMore));
        false
    } else {
        true
    }
}

/// Name of the game data flag that records that the actor was obtained
pub fn is_get_flag_name(actor: &str) -> (r: String)
    ensures
        r@ == "IsGet_"@ + actor@,
{
    let mut name = String::from_str("IsGet_");
    name.append(actor);
    name
}

} // verus!
