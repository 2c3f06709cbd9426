//! The part of the game memory that the simulation reads: the fields of pouch items,
//! looked up by the address of the item
use vstd::prelude::*;

use crate::cir::ActorName;

verus! {

/// Reading the memory at an address failed
#[derive(Debug, Clone, Copy, PartialEq, Eq, Structural)]
pub struct MemoryError {
    pub addr: u64,
}

/// Fields of a pouch item in memory (`f32` fields are bit patterns)
#[derive(Debug, Clone)]
pub struct PouchItemMemory {
    /// mName, with the game data of that actor
    pub name: ActorName,
    /// mType
    pub item_type: i32,
    /// mItemUse
    pub item_use: i32,
    /// mValue
    pub value: i32,
    /// mEquipped
    pub equipped: bool,
    /// mInInventory
    pub in_inventory: bool,
    /// mHealthRecover
    pub health_recover: i32,
    /// mEffectDuration
    pub effect_duration: i32,
    /// mSellPrice
    pub sell_price: i32,
    /// mEffectId
    pub effect_id: u32,
    /// mEffectLevel
    pub effect_level: u32,
    /// The ingredient names (up to 5, the rest are empty)
    pub ingredients: Vec<String>,
}

/// Readable pouch items, by address
#[derive(Debug, Clone)]
pub struct Memory {
    pub items: Vec<(u64, PouchItemMemory)>,
}

/// `i` is the first entry of `items` at address `ptr`
pub open spec fn spec_is_entry_of(items: Seq<(u64, PouchItemMemory)>, ptr: u64, i: int) -> bool {
    &&& 0 <= i < items.len()
    &&& items[i].0 == ptr
    &&& forall|k: int| 0 <= k < i ==> items[k].0 != ptr
}

impl Memory {
    /// Item at the address, if it can be read
    pub open spec fn spec_read(&self, ptr: u64) -> Option<PouchItemMemory> {
        if exists|i: int| spec_is_entry_of(self.items@, ptr, i) {
            let i = choose|i: int| spec_is_entry_of(self.items@, ptr, i);
            Some(self.items@[i].1)
        } else {
            None
        }
    }

    /// Read the pouch item at the address
    pub fn read_item(&self, ptr: u64) -> (r: Result<&PouchItemMemory, MemoryError>)
        ensures
            match r {
                Ok(item) => self.spec_read(ptr) == Some(*item),
                Err(e) => self.spec_read(ptr) is None && e.addr == ptr,
            },
    {
        let mut i: usize = 0;
        while i < self.items.len()
            invariant
                forall|k: int| 0 <= k < i ==> self.items@[k].0 != ptr,
            decreases self.items.len() - i,
        {
            if self.items[i].0 == ptr {
                assert(spec_is_entry_of(self.items@, ptr, i as int));
                proof {
                    let j = choose|j: int| spec_is_entry_of(self.items@, ptr, j);
                    if j < i {
                    } else if j > i {
                        assert(self.items@[i as int].0 != ptr);
                    }
                }
                return Ok(&self.items[i].1);
            }
            i += 1;
        }
        assert forall|j: int| !spec_is_entry_of(self.items@, ptr, j) by {
            if 0 <= j < self.items@.len() {
                assert(self.items@[j].0 != ptr);
            }
        }
        Err(MemoryError { addr: ptr })
    }
}

} // verus!
