//! The decisions of saving, and what the game reports while it creates the player's
//! equipment (on reload, and at the start and end of a trial)
use vstd::prelude::*;

use crate::actor::Actor;
use crate::cir::ActorName;
use crate::screen::Screen;
use crate::util::WeaponModifierInfo;

verus! {

/// The screen to switch to before saving
#[derive(Debug, Clone, Copy, PartialEq, Eq, Structural)]
pub enum SaveSwitch {
    /// Save from the current screen
    Stay,
    /// Switch to the overworld first
    ToOverworld,
    /// Switch to the inventory first
    ToInventory,
}

/// Where saving happens: in the inventory or the overworld when saving from the
/// overworld is allowed (switching to the overworld from another screen), else in the
/// inventory
pub open spec fn spec_save_switch(screen: Screen, allow_overworld: bool) -> SaveSwitch {
    if allow_overworld {
        if screen is Overworld || screen is Inventory {
            SaveSwitch::Stay
        } else {
            SaveSwitch::ToOverworld
        }
    } else {
        SaveSwitch::ToInventory
    }
}

/// The screen to switch to before saving
pub fn save_switch(screen: &Screen, allow_overworld: bool) -> (r: SaveSwitch)
    ensures
        r == spec_save_switch(*screen, allow_overworld),
{
    if allow_overworld {
        if screen.is_inventory_or_overworld() {
            SaveSwitch::Stay
        } else {
            SaveSwitch::ToOverworld
        }
    } else {
        SaveSwitch::ToInventory
    }
}

/// Saving from the system tab unholds the items held in the inventory
pub fn save_unholds(screen: &Screen, holding_in_inventory: bool) -> (r: bool)
    ensures
        r == (*screen is Inventory && holding_in_inventory),
{
    screen.is_inventory() && holding_in_inventory
}

/// The equipment that the game creates on the player, by slot
#[derive(Debug, Clone)]
pub struct CreateEquipState {
    pub weapon: Option<Actor>,
    pub bow: Option<Actor>,
    pub shield: Option<Actor>,
}

impl Default for CreateEquipState {
    fn default() -> (r: CreateEquipState)
        ensures
            r.weapon is None,
            r.bow is None,
            r.shield is None,
    {
        CreateEquipState { weapon: None, bow: None, shield: None }
    }
}

impl CreateEquipState {
    /// Record equipment the game created in a slot: 0 is the weapon, 1 the shield and 2
    /// the bow; another slot is not recorded
    pub fn update(&mut self, slot: i32, name: ActorName, value: i32, modifier: Option<WeaponModifierInfo>)
        ensures
            ({
                let a = Actor { name, value, modifier };
                *final(self) == if slot == 0 {
                    CreateEquipState { weapon: Some(a), ..*old(self) }
                } else if slot == 1 {
                    CreateEquipState { shield: Some(a), ..*old(self) }
                } else if slot == 2 {
                    CreateEquipState { bow: Some(a), ..*old(self) }
                } else {
                    *old(self)
                }
            }),
    {
        let actor = Actor { name, value, modifier };
        if slot == 0 {
            self.weapon = Some(actor);
        } else if slot == 1 {
            self.shield = Some(actor);
        } else if slot == 2 {
            self.bow = Some(actor);
        }
    }
}

} // verus!
