//! Snapshots of the simulation state for debugging: the state they capture, and which of
//! the optional details of a pouch item a snapshot shows
use vstd::prelude::*;

use crate::error::ViewError;
use crate::iv::{ItemData, PouchItem, PouchList};

verus! {

/// Snapshot of the simulation state
pub struct StateSnapshot<C> {
    pub game: GameSnapshot<C>,
}

/// Snapshot of the game: not started, crashed (with the crash report), or running
pub enum GameSnapshot<C> {
    Uninit,
    Crashed(C),
    Running(GameSnapshotRunning),
}

/// Snapshot of a running game: the pouch, or why it could not be viewed
pub struct GameSnapshotRunning {
    pub pouch: Result<PouchList, ViewError>,
}

/// How the list position of an item node is shown
#[derive(Debug, Clone, Copy, PartialEq, Eq, Structural)]
pub enum NodePosFormat {
    /// A negative position, in hex after a minus sign
    NegativeHex,
    /// The position in a valid list, in decimal
    Decimal,
    /// The position in an invalid list, in hex
    Hex,
}

/// Which details of a pouch item a snapshot shows besides its main fields: only those
/// that differ from the most common case
#[derive(Debug, Clone, Copy, PartialEq, Eq, Structural)]
pub struct ItemSnapshotDetails {
    pub node_pos: NodePosFormat,
    /// The item data is not all zero
    pub data: bool,
    /// The item is not in the inventory
    pub not_in_inventory: bool,
    pub no_icon: bool,
    /// Some ingredient is given
    pub ingredients: bool,
    /// The holding count, when not zero
    pub holding: Option<u8>,
    pub entangled: bool,
    pub inaccessible: bool,
    pub dpad_inaccessible: bool,
    /// The allocated index, when it is not the index of the item in the list
    pub allocated_idx: Option<i32>,
    /// The unallocated index, when it is not -1
    pub unallocated_idx: Option<i32>,
}

/// The `f32` with this bit pattern equals zero: it is `0.0` or `-0.0`
pub open spec fn spec_f32_bits_is_zero(b: u32) -> bool {
    b == 0 || b == 0x8000_0000u32
}

/// The item data equals the default (all zero); the effect id and level are compared as
/// `f32` values, so `-0.0` counts as zero
pub open spec fn spec_data_is_default(d: ItemData) -> bool {
    d.effect_value == 0 && d.effect_duration == 0 && d.sell_price == 0
        && spec_f32_bits_is_zero(d.effect_id) && spec_f32_bits_is_zero(d.effect_level)
}

/// The details a snapshot shows of the item at `index` in the pouch list
pub open spec fn spec_item_details(item: PouchItem, index: usize) -> ItemSnapshotDetails {
    ItemSnapshotDetails {
        node_pos: if item.node_pos < 0 {
            NodePosFormat::NegativeHex
        } else if item.node_valid {
            NodePosFormat::Decimal
        } else {
            NodePosFormat::Hex
        },
        data: !spec_data_is_default(item.data),
        not_in_inventory: !item.is_in_inventory,
        no_icon: item.is_no_icon,
        ingredients: exists|k: int| 0 <= k < item.ingredients@.len() && item.ingredients@[k]@.len() > 0,
        holding: if item.holding_count != 0 {
            Some(item.holding_count)
        } else {
            None
        },
        entangled: item.prompt_entangled,
        inaccessible: !item.accessible,
        dpad_inaccessible: !item.dpad_accessible,
        allocated_idx: if item.allocated_idx != index as i32 {
            Some(item.allocated_idx)
        } else {
            None
        },
        unallocated_idx: if item.unallocated_idx != -1 {
            Some(item.unallocated_idx)
        } else {
            None
        },
    }
}

/// Some of the names is not empty
pub fn any_non_empty(names: &Vec<String>) -> (r: bool)
    ensures
        r == exists|k: int| 0 <= k < names@.len() && names@[k]@.len() > 0,
{
    let mut i: usize = 0;
    while i < names.len()
        invariant
            i <= names.len(),
            forall|k: int| 0 <= k < i ==> names@[k]@.len() == 0,
        decreases names.len() - i,
    {
        if !names[i].as_str().is_empty() {
            return true;
        }
        i += 1;
    }
    false
}

/// The details a snapshot shows of the item at `index` in the pouch list
pub fn item_details(item: &PouchItem, index: usize) -> (r: ItemSnapshotDetails)
    ensures
        r == spec_item_details(*item, index),
{
    let d = &item.data;
    let data_is_default = d.effect_value == 0 && d.effect_duration == 0 && d.sell_price == 0
        && (d.effect_id == 0 || d.effect_id == 0x8000_0000u32) && (d.effect_level == 0
        || d.effect_level == 0x8000_0000u32);
    ItemSnapshotDetails {
        node_pos: if item.node_pos < 0 {
            NodePosFormat::NegativeHex
        } else if item.node_valid {
            NodePosFormat::Decimal
        } else {
            NodePosFormat::Hex
        },
        data: !data_is_default,
        not_in_inventory: !item.is_in_inventory,
        no_icon: item.is_no_icon,
        ingredients: any_non_empty(&item.ingredients),
        holding: if item.holding_count != 0 {
            Some(item.holding_count)
        } else {
            None
        },
        entangled: item.prompt_entangled,
        inaccessible: !item.accessible,
        dpad_inaccessible: !item.dpad_accessible,
        allocated_idx: if item.allocated_idx != index as i32 {
            Some(item.allocated_idx)
        } else {
            None
        },
        unallocated_idx: if item.unallocated_idx != -1 {
            Some(item.unallocated_idx)
        } else {
            None
        },
    }
}

} // verus!
