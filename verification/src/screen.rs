//! The screens of the game (overworld, inventory, shop) and the transitions between them
use vstd::prelude::*;

use crate::actor::{Actor, SpawnedActor};
use crate::cir::{ActorName, Span};
use crate::error::{spec_warning, ErrorReport, RuntimeError};
use crate::iv;
use crate::memory::{Memory, MemoryError};
use crate::overworld::{
    spec_change_player_equipment, spec_spawned, OverworldPreDropResult, OverworldSystem,
};
use crate::pouch_screen::{spec_listed_screen_item, ListedItem, ListedTab, PouchScreen, PouchScreenEquipState};
use crate::screen_items::{ScreenItem, ScreenItems, ScreenTab};
use crate::util::{item_type_to_category, spec_item_type_to_category};

verus! {

/// Simulation of the screen where you sell stuff
#[derive(Debug, Clone)]
pub enum ShopScreen {
    Buy,
    Sell(ScreenItems),
}

/// Armor, material and food tabs are shown when selling
pub open spec fn spec_is_sellable_tab_type(tab_type: i32) -> bool {
    4 <= tab_type <= 8
}

/// Slots of a tab when selling: the items in the inventory, one per slot (translucent
/// items are not sellable and not shown)
pub open spec fn spec_sell_slots(tab: ListedTab) -> Seq<Option<ScreenItem>> {
    tab.items@.filter(|x: ListedItem| x.in_inventory).map_values(
        |x: ListedItem| Some(spec_listed_screen_item(x)),
    )
}

/// `r` is the selling screen of the listed tabs: one tab for each sellable tab
pub open spec fn spec_is_sell_screen(r: ScreenItems, tabs: Seq<ListedTab>) -> bool {
    let sellable = tabs.filter(|t: ListedTab| spec_is_sellable_tab_type(t.tab_type));
    &&& r.tabs@.len() == sellable.len()
    &&& forall|k: int|
        0 <= k < sellable.len() ==> (#[trigger] r.tabs@[k]).items@ == spec_sell_slots(
            sellable[k],
        ) && r.tabs@[k].category == spec_item_type_to_category(sellable[k].tab_type)
}

/// The selling screen has one tab for each listed tab of armor, materials or food (types
/// 4 to 8), in the listed order and nothing else: each holds, one per slot, the items of
/// the listed tab that are in the inventory, and has the category of the listed tab
pub proof fn lemma_sell_screen_tabs(r: ScreenItems, tabs: Seq<ListedTab>)
    requires
        spec_is_sell_screen(r, tabs),
    ensures
        r.tabs@.len() == tabs.filter(|t: ListedTab| 4 <= t.tab_type && t.tab_type <= 8).len(),
        forall|k: int|
            0 <= k < r.tabs@.len() ==> {
                let listed = tabs.filter(|t: ListedTab| 4 <= t.tab_type && t.tab_type <= 8)[k];
                let shown = listed.items@.filter(|x: ListedItem| x.in_inventory);
                &&& 4 <= listed.tab_type <= 8
                &&& (#[trigger] r.tabs@[k]).items@.len() == shown.len()
                &&& forall|j: int|
                    0 <= j < shown.len() ==> (#[trigger] r.tabs@[k].items@[j] matches Some(it) && it.ptr
                        == shown[j].ptr && it.in_inventory)
                &&& r.tabs@[k].category == spec_item_type_to_category(listed.tab_type)
            },
{
    let p1 = |t: ListedTab| spec_is_sellable_tab_type(t.tab_type);
    let p2 = |t: ListedTab| 4 <= t.tab_type && t.tab_type <= 8;
    assert(p1 =~= p2);
    let sellable = tabs.filter(p2);
    assert forall|k: int| 0 <= k < sellable.len() implies p2(sellable[k]) by {
        tabs.lemma_filter_pred(p2, k);
    }
    let pi = |x: ListedItem| x.in_inventory;
    assert forall|k: int, j: int|
        0 <= k < r.tabs@.len() && 0 <= j < sellable[k].items@.filter(pi).len() implies pi(
        #[trigger] sellable[k].items@.filter(pi)[j],
    ) by {
        sellable[k].items@.lemma_filter_pred(pi, j);
    }
}

/// The screen item shown for a listed item
fn listed_screen_item(item: &ListedItem) -> (r: ScreenItem)
    ensures
        r == spec_listed_screen_item(*item),
{
    ScreenItem {
        ptr: item.ptr,
        in_inventory: item.in_inventory,
        equipped: item.equipped,
        name: crate::actor::copy_name(&item.name),
        category: item_type_to_category(item.item_type),
    }
}

/// The tab shown when selling
fn sell_tab(tab: &ListedTab) -> (r: ScreenTab)
    ensures
        r.items@ == spec_sell_slots(*tab),
        r.category == spec_item_type_to_category(tab.tab_type),
{
    let ghost pred = |x: ListedItem| x.in_inventory;
    let ghost f = |x: ListedItem| Some(spec_listed_screen_item(x));
    let mut out: Vec<Option<ScreenItem>> = Vec::new();
    let mut i: usize = 0;
    while i < tab.items.len()
        invariant
            i <= tab.items@.len(),
            pred == (|x: ListedItem| x.in_inventory),
            f == (|x: ListedItem| Some(spec_listed_screen_item(x))),
            out@ == tab.items@.take(i as int).filter(pred).map_values(f),
        decreases tab.items.len() - i,
    {
        proof {
            assert(tab.items@.take(i + 1) =~= tab.items@.take(i as int).push(tab.items@[i as int]));
            tab.items@.take(i as int).lemma_filter_push(tab.items@[i as int], pred);
        }
        if tab.items[i].in_inventory {
            out.push(Some(listed_screen_item(&tab.items[i])));
        }
        assert(out@ =~= tab.items@.take(i + 1).filter(pred).map_values(f));
        i += 1;
    }
    assert(tab.items@.take(tab.items@.len() as int) =~= tab.items@);
    ScreenTab { items: out, category: item_type_to_category(tab.tab_type) }
}

impl ShopScreen {
    /// Open the selling screen from the tabs of the pouch
    ///
    /// The screen can be shown even when the pouch list is empty
    pub fn open_sell(tabs: &Vec<ListedTab>) -> (r: ShopScreen)
        ensures
            r matches ShopScreen::Sell(items) && spec_is_sell_screen(items, tabs@),
    {
        let ghost pred = |t: ListedTab| spec_is_sellable_tab_type(t.tab_type);
        let mut out: Vec<ScreenTab> = Vec::new();
        let mut i: usize = 0;
        while i < tabs.len()
            invariant
                i <= tabs@.len(),
                pred == (|t: ListedTab| spec_is_sellable_tab_type(t.tab_type)),
                out@.len() == tabs@.take(i as int).filter(pred).len(),
                forall|k: int|
                    0 <= k < out@.len() ==> (#[trigger] out@[k]).items@ == spec_sell_slots(
                        tabs@.take(i as int).filter(pred)[k],
                    ) && out@[k].category == spec_item_type_to_category(
                        tabs@.take(i as int).filter(pred)[k].tab_type,
                    ),
            decreases tabs.len() - i,
        {
            proof {
                assert(tabs@.take(i + 1) =~= tabs@.take(i as int).push(tabs@[i as int]));
                tabs@.take(i as int).lemma_filter_push(tabs@[i as int], pred);
            }
            let t = tabs[i].tab_type;
            if 4 <= t && t <= 8 {
                out.push(sell_tab(&tabs[i]));
            }
            i += 1;
        }
        assert(tabs@.take(tabs@.len() as int) =~= tabs@);
        ShopScreen::Sell(ScreenItems { tabs: out })
    }

    /// Transition to buying screen
    ///
    /// Returns true if the screen was selling: the items removed while selling are then
    /// deleted by the game
    pub fn transition_to_buy(&mut self) -> (r: bool)
        ensures
            r == (*old(self) is Sell),
            *final(self) is Buy,
    {
        match self {
            ShopScreen::Sell(_) => {
                *self = ShopScreen::Buy;
                true
            },
            ShopScreen::Buy => false,
        }
    }
}

/// Type of the screen and the data they hold
#[derive(Debug, Clone)]
pub enum Screen {
    /// In the overworld, no additional screens
    Overworld,
    /// In the inventory screen
    Inventory(PouchScreen),
    /// In shop dialog
    Shop(ShopScreen),
}

impl Default for Screen {
    fn default() -> (r: Screen)
        ensures
            r is Overworld,
    {
        Screen::Overworld
    }
}

impl Screen {
    /// Get the type for inventory view binding
    pub fn iv_type(&self) -> (r: iv::Screen)
        ensures
            r == match *self {
                Screen::Overworld => iv::Screen::Overworld,
                Screen::Inventory(_) => iv::Screen::Inventory,
                Screen::Shop(_) => iv::Screen::Shop,
            },
    {
        match self {
            Screen::Overworld => iv::Screen::Overworld,
            Screen::Inventory(_) => iv::Screen::Inventory,
            Screen::Shop(_) => iv::Screen::Shop,
        }
    }

    pub fn is_overworld(&self) -> (r: bool)
        ensures
            r == (*self is Overworld),
    {
        match self {
            Screen::Overworld => true,
            _ => false,
        }
    }

    pub fn is_inventory_or_overworld(&self) -> (r: bool)
        ensures
            r == (*self is Overworld || *self is Inventory),
    {
        match self {
            Screen::Overworld => true,
            Screen::Inventory(_) => true,
            _ => false,
        }
    }

    pub fn is_inventory(&self) -> (r: bool)
        ensures
            r == (*self is Inventory),
    {
        self.as_inventory().is_some()
    }

    pub fn is_shop(&self) -> (r: bool)
        ensures
            r == (*self is Shop),
    {
        match self {
            Screen::Shop(_) => true,
            _ => false,
        }
    }

    pub fn as_inventory(&self) -> (r: Option<&PouchScreen>)
        ensures
            r == match *self {
                Screen::Inventory(inv) => Some(&inv),
                _ => None,
            },
    {
        match self {
            Screen::Inventory(inv) => Some(inv),
            _ => None,
        }
    }

    pub fn as_selling(&self) -> (r: Option<&ScreenItems>)
        ensures
            r == match *self {
                Screen::Shop(ShopScreen::Sell(inv)) => Some(&inv),
                _ => None,
            },
    {
        match self {
            Screen::Shop(ShopScreen::Sell(inv)) => Some(inv),
            _ => None,
        }
    }

    pub fn as_selling_mut(&mut self) -> (r: Option<&mut ScreenItems>)
        ensures
            match *old(self) {
                Screen::Shop(ShopScreen::Sell(inv)) => r matches Some(x) && *x == inv
                    && *final(self) == Screen::Shop(ShopScreen::Sell(*final(x))),
                _ => r is None && *final(self) == *old(self),
            },
    {
        match self {
            Screen::Shop(ShopScreen::Sell(inv)) => Some(inv),
            _ => None,
        }
    }

    pub fn as_inventory_mut(&mut self) -> (r: Option<&mut PouchScreen>)
        ensures
            match *old(self) {
                Screen::Inventory(inv) => r matches Some(x) && *x == inv && *final(self)
                    == Screen::Inventory(*final(x)),
                _ => r is None && *final(self) == *old(self),
            },
    {
        match self {
            Screen::Inventory(inv) => Some(inv),
            _ => None,
        }
    }
}


/// Simulation of different screens in the game and transitioning between them
#[derive(Debug, Clone)]
pub struct ScreenSystem {
    pub screen: Screen,
    /// If the screen switch was performed manually
    pub is_manually_switched: bool,
    /// If Menu Overload Glitch is active
    pub menu_overload: bool,
    /// Whether removal of held items should happen after the dialog when transitioning
    /// from Overworld to a dialog.
    ///
    /// Normally, the game forces you to put away items before you can talk, but if you
    /// setup the smuggle glitch, you can delay this until the dialog is finished to
    /// generate offsets (i.e. broken slots)
    pub remove_held_item_after_dialog: bool,
    /// Equipped items to remove from inventory after it's closed, before the removed
    /// items are deleted
    ///
    /// This can be used to make translucent slots, by injecting item removal between
    /// inventory close and the deletion of removed items, so that deletion fails to
    /// remove the translucent slots.
    pub equipped_items_to_remove_after_dialog: Vec<String>,
    /// If pouch screen is in holding mode. This state persists even when menu is closed
    ///
    /// While holding, you can only hold and unhold in pouch
    pub holding_in_inventory: bool,
}

/// What a screen transition does next
#[derive(Debug, Clone, Copy, PartialEq, Eq, Structural)]
pub enum TransitionStep {
    /// The transition is over: whether the wanted screen is shown
    Done(bool),
    /// Close the current screen to the overworld (not manually), then transition again
    CloseToOverworld,
    /// Read the wanted screen from the game and open it
    Open,
    /// The shop switched from selling to buying: the game deletes the items removed
    /// while selling, and the transition is over
    DeleteRemovedItems,
}

/// How the current screen closes to the overworld
#[derive(Debug, Clone)]
pub struct ClosePlan {
    /// The inventory is closed: equipment changes apply, and held items are created
    pub closing_inventory: bool,
    /// Menu Overload Glitch is active: no equipment change and no actor creation
    pub menu_overload: bool,
    /// Held items are removed and dropped after the dialog
    pub drop_items: bool,
    /// Equipped items removed from inventory before the removed items are deleted
    pub remove_equipments: Vec<String>,
}

/// What closing to the overworld does next
#[derive(Debug, Clone)]
pub enum OverworldStep {
    /// The transition is over: whether the overworld is shown
    Done(bool),
    /// Close the current screen as planned
    Close(ClosePlan),
}

/// The overworld after one equipment state of the inventory screen applies: the slot
/// emptied when deleting, else the equipment changed to the item. On a read error, the
/// overworld as it was with the error
pub open spec fn spec_apply_equip_state(
    o: OverworldSystem,
    item_type: i32,
    state: PouchScreenEquipState,
    memory: Memory,
) -> Result<OverworldSystem, (OverworldSystem, MemoryError)> {
    if state.to_delete {
        Ok(o.spec_with_equipped(item_type, None))
    } else {
        match spec_change_player_equipment(o, state.item, memory) {
            Ok((_, o2)) => Ok(o2),
            Err(e) => Err((o, e)),
        }
    }
}

/// The overworld after the weapon, bow and shield states of the inventory screen apply
pub open spec fn spec_apply_equip_states(
    o: OverworldSystem,
    inv: PouchScreen,
    memory: Memory,
) -> Result<OverworldSystem, (OverworldSystem, MemoryError)> {
    match spec_apply_equip_state(o, 0, inv.weapon_state, memory) {
        Err(x) => Err(x),
        Ok(o1) => match spec_apply_equip_state(o1, 1, inv.bow_state, memory) {
            Err(x) => Err(x),
            Ok(o2) => spec_apply_equip_state(o2, 3, inv.shield_state, memory),
        },
    }
}

/// The overworld once equipment changes of closing the screen apply
pub open spec fn spec_closing_equipment(
    o: OverworldSystem,
    screen: Screen,
    menu_overload: bool,
    memory: Memory,
) -> Result<OverworldSystem, (OverworldSystem, MemoryError)> {
    match screen {
        Screen::Inventory(inv) => if menu_overload {
            Ok(o)
        } else {
            spec_apply_equip_states(o, inv, memory)
        },
        _ => Ok(o),
    }
}

/// Held items created from their names
pub open spec fn spec_held_actors(names: Seq<ActorName>) -> Seq<SpawnedActor> {
    names.map_values(|n: ActorName| SpawnedActor(Actor { name: n, value: 1, modifier: None }))
}

impl OverworldSystem {
    /// Apply one equipment state of the inventory screen
    fn apply_equip_state(&mut self, item_type: i32, state: PouchScreenEquipState, memory: &Memory) -> (r:
        Result<(), MemoryError>)
        requires
            item_type == 0 || item_type == 1 || item_type == 3,
        ensures
            match spec_apply_equip_state(*old(self), item_type, state, *memory) {
                Ok(o) => r is Ok && *final(self) == o,
                Err((o, e)) => r == Err::<(), MemoryError>(e) && *final(self) == o,
            },
    {
        if state.to_delete {
            if item_type == 0 {
                self.weapon = None;
            } else if item_type == 1 {
                self.bow = None;
            } else {
                self.shield = None;
            }
            Ok(())
        } else {
            match self.change_player_equipment(state.item, memory) {
                Ok(_) => Ok(()),
                Err(e) => Err(e),
            }
        }
    }
}

impl Default for ScreenSystem {
    fn default() -> (r: ScreenSystem)
        ensures
            r.screen is Overworld,
            !r.is_manually_switched,
            !r.menu_overload,
            !r.remove_held_item_after_dialog,
            r.equipped_items_to_remove_after_dialog@.len() == 0,
            !r.holding_in_inventory,
    {
        ScreenSystem {
            screen: Screen::Overworld,
            is_manually_switched: false,
            menu_overload: false,
            remove_held_item_after_dialog: false,
            equipped_items_to_remove_after_dialog: Vec::new(),
            holding_in_inventory: false,
        }
    }
}

impl ScreenSystem {
    pub fn current_screen(&self) -> (r: &Screen)
        ensures
            *r == self.screen,
    {
        &self.screen
    }

    pub fn current_screen_mut(&mut self) -> (r: &mut Screen)
        ensures
            *r == old(self).screen,
            *final(self) == (ScreenSystem { screen: *final(r), ..*old(self) }),
    {
        &mut self.screen
    }

    pub fn set_remove_held_after_dialog(&mut self)
        ensures
            *final(self) == (ScreenSystem { remove_held_item_after_dialog: true, ..*old(self) }),
    {
        self.remove_held_item_after_dialog = true;
    }

    pub fn set_remove_equipment_after_dialog(&mut self, name: &str)
        ensures
            final(self).equipped_items_to_remove_after_dialog@.len() == old(self).equipped_items_to_remove_after_dialog@.len() + 1,
            forall|k: int|
                0 <= k < old(self).equipped_items_to_remove_after_dialog@.len() ==> final(self).equipped_items_to_remove_after_dialog@[k] == old(self).equipped_items_to_remove_after_dialog@[k],
            final(self).equipped_items_to_remove_after_dialog@.last()@ == name@,
            *final(self) == (ScreenSystem {
                equipped_items_to_remove_after_dialog: final(self).equipped_items_to_remove_after_dialog,
                ..*old(self)
            }),
    {
        self.equipped_items_to_remove_after_dialog.push(name.to_owned());
    }

    /// Next step of transitioning to the inventory screen
    pub fn to_inventory_step(&mut self, manual: bool, span: Span, errors: &mut Vec<ErrorReport>) -> (r:
        TransitionStep)
        ensures
            match old(self).screen {
                Screen::Inventory(_) => r == TransitionStep::Done(true) && *final(self) == *old(self) && final(errors)@ == if manual {
                    old(errors)@.push(spec_warning(span, RuntimeError::UselessScreenTransition))
                } else {
                    old(errors)@
                },
                Screen::Shop(_) => r == TransitionStep::CloseToOverworld && *final(self) == *old(self) && final(errors)@ == old(errors)@,
                Screen::Overworld => r == TransitionStep::Open && *final(self) == (ScreenSystem {
                    is_manually_switched: old(self).is_manually_switched || manual,
                    ..*old(self)
                }) && final(errors)@ == old(errors)@,
            },
    {
        match &self.screen {
            Screen::Inventory(_) => {
                if manual {
                    errors.push(ErrorReport::warning(span, RuntimeError::UselessScreenTransition));
                }
                TransitionStep::Done(true)
            },
            // close the screen first to go back to overworld
            Screen::Shop(_) => TransitionStep::CloseToOverworld,
            Screen::Overworld => {
                if manual {
                    self.is_manually_switched = true;
                }
                TransitionStep::Open
            },
        }
    }

    /// Show the inventory screen that was read
    pub fn open_inventory(&mut self, inv: PouchScreen)
        ensures
            *final(self) == (ScreenSystem { screen: Screen::Inventory(inv), ..*old(self) }),
    {
        self.screen = Screen::Inventory(inv);
    }

    /// Show the selling screen that was read
    pub fn open_shop_selling(&mut self, items: ScreenItems)
        ensures
            *final(self) == (ScreenSystem {
                screen: Screen::Shop(ShopScreen::Sell(items)),
                ..*old(self)
            }),
    {
        self.screen = Screen::Shop(ShopScreen::Sell(items));
    }

    /// Talk to a shop NPC from the overworld: not possible while holding items normally;
    /// held items in the hold-attached state are removed after the dialog
    ///
    /// Returns false if the dialog cannot start
    fn talk_to_shop(
        &mut self,
        overworld: &mut OverworldSystem,
        manual: bool,
        span: Span,
        errors: &mut Vec<ErrorReport>,
    ) -> (r: bool)
        ensures
            *final(overworld) == *old(overworld),
            old(overworld).holding@.len() > 0 && !old(overworld).is_hold_arrowless_smuggle ==> !r
                && *final(self) == *old(self) && final(errors)@ == old(errors)@.push(
                crate::error::spec_error(span, RuntimeError::CannotDoWhileHoldingInOverworld),
            ),
            !(old(overworld).holding@.len() > 0 && !old(overworld).is_hold_arrowless_smuggle)
                ==> r && final(errors)@ == old(errors)@ && *final(self) == (ScreenSystem {
                remove_held_item_after_dialog: old(overworld).holding@.len() > 0,
                is_manually_switched: old(self).is_manually_switched || manual,
                ..*old(self)
            }),
    {
        let should_drop = match overworld.predrop_for_action(span, errors) {
            // cannot talk while holding, stop
            OverworldPreDropResult::Holding => return false,
            OverworldPreDropResult::AutoDrop => true,
            OverworldPreDropResult::Ready => false,
        };
        self.remove_held_item_after_dialog = should_drop;
        if manual {
            self.is_manually_switched = true;
        }
        true
    }

    /// Next step of transitioning to the shop buying screen
    pub fn to_shop_buying_step(
        &mut self,
        overworld: &mut OverworldSystem,
        manual: bool,
        span: Span,
        errors: &mut Vec<ErrorReport>,
    ) -> (r: TransitionStep)
        ensures
            *final(overworld) == *old(overworld),
            match old(self).screen {
                Screen::Inventory(_) => r == TransitionStep::CloseToOverworld && *final(self)
                    == *old(self) && final(errors)@ == old(errors)@,
                Screen::Shop(ShopScreen::Buy) => r == TransitionStep::Done(true) && *final(self)
                    == *old(self) && final(errors)@ == if manual {
                    old(errors)@.push(spec_warning(span, RuntimeError::UselessScreenTransition))
                } else {
                    old(errors)@
                },
                Screen::Shop(ShopScreen::Sell(_)) => r == TransitionStep::DeleteRemovedItems
                    && final(errors)@ == old(errors)@ && *final(self) == (ScreenSystem {
                    screen: Screen::Shop(ShopScreen::Buy),
                    is_manually_switched: old(self).is_manually_switched || manual,
                    ..*old(self)
                }),
                Screen::Overworld => if old(overworld).holding@.len() > 0
                    && !old(overworld).is_hold_arrowless_smuggle {
                    r == TransitionStep::Done(false) && *final(self) == *old(self)
                        && final(errors)@ == old(errors)@.push(
                        crate::error::spec_error(
                            span,
                            RuntimeError::CannotDoWhileHoldingInOverworld,
                        ),
                    )
                } else {
                    r == TransitionStep::Done(true) && final(errors)@ == old(errors)@
                        && *final(self) == (ScreenSystem {
                        screen: Screen::Shop(ShopScreen::Buy),
                        remove_held_item_after_dialog: old(overworld).holding@.len() > 0,
                        is_manually_switched: old(self).is_manually_switched || manual,
                        ..*old(self)
                    })
                },
            },
    {
        match &self.screen {
            // close inventory first to return to overworld
            Screen::Inventory(_) => return TransitionStep::CloseToOverworld,
            Screen::Overworld => {},
            Screen::Shop(ShopScreen::Buy) => {
                if manual {
                    errors.push(ErrorReport::warning(span, RuntimeError::UselessScreenTransition));
                }
                return TransitionStep::Done(true);
            },
            // shop screen can be switched without going back to overworld
            Screen::Shop(ShopScreen::Sell(_)) => {
                if manual {
                    self.is_manually_switched = true;
                }
                self.screen = Screen::Shop(ShopScreen::Buy);
                return TransitionStep::DeleteRemovedItems;
            },
        }
        // open buying screen from overworld by talking to NPC
        if !self.talk_to_shop(overworld, manual, span, errors) {
            return TransitionStep::Done(false);
        }
        self.screen = Screen::Shop(ShopScreen::Buy);
        TransitionStep::Done(true)
    }

    /// Next step of transitioning to the shop selling screen
    pub fn to_shop_selling_step(
        &mut self,
        overworld: &mut OverworldSystem,
        manual: bool,
        span: Span,
        errors: &mut Vec<ErrorReport>,
    ) -> (r: TransitionStep)
        ensures
            *final(overworld) == *old(overworld),
            match old(self).screen {
                Screen::Inventory(_) => r == TransitionStep::CloseToOverworld && *final(self)
                    == *old(self) && final(errors)@ == old(errors)@,
                Screen::Shop(ShopScreen::Sell(_)) => r == TransitionStep::Done(true)
                    && *final(self) == *old(self) && final(errors)@ == if manual {
                    old(errors)@.push(spec_warning(span, RuntimeError::UselessScreenTransition))
                } else {
                    old(errors)@
                },
                Screen::Shop(ShopScreen::Buy) => r == TransitionStep::Open && final(errors)@
                    == old(errors)@ && *final(self) == (ScreenSystem {
                    is_manually_switched: old(self).is_manually_switched || manual,
                    ..*old(self)
                }),
                Screen::Overworld => if old(overworld).holding@.len() > 0
                    && !old(overworld).is_hold_arrowless_smuggle {
                    r == TransitionStep::Done(false) && *final(self) == *old(self)
                        && final(errors)@ == old(errors)@.push(
                        crate::error::spec_error(
                            span,
                            RuntimeError::CannotDoWhileHoldingInOverworld,
                        ),
                    )
                } else {
                    r == TransitionStep::Open && final(errors)@ == old(errors)@ && *final(self)
                        == (ScreenSystem {
                        remove_held_item_after_dialog: old(overworld).holding@.len() > 0,
                        is_manually_switched: old(self).is_manually_switched || manual,
                        ..*old(self)
                    })
                },
            },
    {
        match &self.screen {
            // close inventory first to return to overworld
            Screen::Inventory(_) => return TransitionStep::CloseToOverworld,
            Screen::Overworld => {},
            Screen::Shop(ShopScreen::Sell(_)) => {
                if manual {
                    errors.push(ErrorReport::warning(span, RuntimeError::UselessScreenTransition));
                }
                return TransitionStep::Done(true);
            },
            // shop screen can be switched without going back to overworld
            Screen::Shop(ShopScreen::Buy) => {
                if manual {
                    self.is_manually_switched = true;
                }
                return TransitionStep::Open;
            },
        }
        // open selling screen from overworld by talking to NPC
        if !self.talk_to_shop(overworld, manual, span, errors) {
            return TransitionStep::Done(false);
        }
        TransitionStep::Open
    }

    /// Next step of transitioning to the overworld
    ///
    /// An automatic switch is refused if the screen was switched manually
    pub fn to_overworld_step(&mut self, manual: bool, span: Span, errors: &mut Vec<ErrorReport>) -> (r:
        OverworldStep)
        ensures
            old(self).screen is Overworld ==> (r matches OverworldStep::Done(true) && *final(self)
                == *old(self) && final(errors)@ == if manual {
                old(errors)@.push(spec_warning(span, RuntimeError::UselessScreenTransition))
            } else {
                old(errors)@
            }),
            !(old(self).screen is Overworld) && old(self).is_manually_switched && !manual ==> (r
                matches OverworldStep::Done(false) && *final(self) == *old(self) && final(errors)@
                == old(errors)@.push(spec_warning(span, RuntimeError::CannotAutoSwitchScreen))),
            !(old(self).screen is Overworld) && !(old(self).is_manually_switched && !manual) ==> (
            r matches OverworldStep::Close(plan) && plan.closing_inventory == (old(self).screen is Inventory) && plan.menu_overload == old(self).menu_overload
                && plan.drop_items == old(self).remove_held_item_after_dialog
                && plan.remove_equipments@ == old(self).equipped_items_to_remove_after_dialog@
                && final(errors)@ == old(errors)@ && final(self).equipped_items_to_remove_after_dialog@.len() == 0 && *final(self) == (ScreenSystem {
                is_manually_switched: false,
                remove_held_item_after_dialog: false,
                equipped_items_to_remove_after_dialog: final(self).equipped_items_to_remove_after_dialog,
                ..*old(self)
            })),
    {
        if self.screen.is_overworld() {
            if manual {
                errors.push(ErrorReport::warning(span, RuntimeError::UselessScreenTransition));
            }
            return OverworldStep::Done(true);
        }
        // not allow auto switch to overworld if screen was manually switched
        if self.is_manually_switched && !manual {
            errors.push(ErrorReport::warning(span, RuntimeError::CannotAutoSwitchScreen));
            return OverworldStep::Done(false);
        }
        // after returning to overworld, allow automatic screen switch again
        self.is_manually_switched = false;
        let drop_items = self.remove_held_item_after_dialog;
        self.remove_held_item_after_dialog = false;
        let mut remove_equipments: Vec<String> = Vec::new();
        std::mem::swap(&mut remove_equipments, &mut self.equipped_items_to_remove_after_dialog);
        OverworldStep::Close(
            ClosePlan {
                closing_inventory: self.screen.is_inventory(),
                menu_overload: self.menu_overload,
                drop_items,
                remove_equipments,
            },
        )
    }

    /// Finish closing the screen to the overworld once the game did its part of the plan
    /// (creating the held items, removing the equipments of the plan, deleting removed
    /// items, and removing the held items if they are dropped)
    ///
    /// `memory` is the pouch as it was when the screen started closing, and `held` the
    /// names of the held items the game created. When the inventory closes, its equipment
    /// states apply and the held items appear in the overworld, unless the menu is
    /// overloaded. The ground weapons waiting to spawn do spawn, unless the menu is
    /// overloaded (then they are cleared). Held items are dropped if planned.
    pub fn finish_to_overworld(
        &mut self,
        overworld: &mut OverworldSystem,
        memory: &Memory,
        held: Vec<ActorName>,
        plan: &ClosePlan,
    ) -> (r: Result<(), MemoryError>)
        ensures
            old(self).screen is Overworld ==> r is Ok && *final(overworld) == *old(overworld)
                && *final(self) == (ScreenSystem {
                holding_in_inventory: old(self).holding_in_inventory && !plan.drop_items,
                ..*old(self)
            }),
            !(old(self).screen is Overworld) ==> match spec_closing_equipment(
                *old(overworld),
                old(self).screen,
                plan.menu_overload,
                *memory,
            ) {
                Err((o, e)) => r == Err::<(), MemoryError>(e) && *final(overworld) == o
                    && *final(self) == *old(self),
                Ok(e) => {
                    let held_now = if old(self).screen is Inventory && !plan.menu_overload
                        && e.actor_creator.is_actor_creation_allowed {
                        e.holding@ + spec_held_actors(held@)
                    } else {
                        e.holding@
                    };
                    &&& r is Ok
                    &&& final(overworld).ground_weapons@ == if plan.menu_overload {
                        e.ground_weapons@
                    } else {
                        e.ground_weapons@ + spec_spawned(e.spawning_ground_weapons@)
                    }
                    &&& final(overworld).spawning_ground_weapons@.len() == 0
                    &&& final(overworld).holding@ == if plan.drop_items {
                        Seq::empty()
                    } else {
                        held_now
                    }
                    &&& final(overworld).dropped_materials@ == if plan.drop_items {
                        e.dropped_materials@ + held_now
                    } else {
                        e.dropped_materials@
                    }
                    &&& final(overworld).is_hold_arrowless_smuggle == (!plan.drop_items
                        && e.is_hold_arrowless_smuggle)
                    &&& *final(overworld) == (OverworldSystem {
                        ground_weapons: final(overworld).ground_weapons,
                        spawning_ground_weapons: final(overworld).spawning_ground_weapons,
                        holding: final(overworld).holding,
                        dropped_materials: final(overworld).dropped_materials,
                        is_hold_arrowless_smuggle: final(overworld).is_hold_arrowless_smuggle,
                        ..e
                    })
                    &&& *final(self) == (ScreenSystem {
                        screen: Screen::Overworld,
                        holding_in_inventory: old(self).holding_in_inventory && !plan.drop_items,
                        ..*old(self)
                    })
                },
            },
    {
        let menu_overload = plan.menu_overload;
        match &self.screen {
            Screen::Overworld => {
                if plan.drop_items {
                    self.holding_in_inventory = false;
                }
                return Ok(());
            },
            Screen::Inventory(inv) => {
                if !menu_overload {
                    if let Err(e) = overworld.apply_equip_state(0, inv.weapon_state, memory) {
                        return Err(e);
                    }
                    if let Err(e) = overworld.apply_equip_state(1, inv.bow_state, memory) {
                        return Err(e);
                    }
                    if let Err(e) = overworld.apply_equip_state(3, inv.shield_state, memory) {
                        return Err(e);
                    }
                }
            },
            Screen::Shop(_) => {},
        }
        let ghost e = *overworld;
        if self.screen.is_inventory() && !menu_overload {
            overworld.spawn_held_items(held);
        }
        let ghost h = *overworld;
        assert(h.holding@ =~= if old(self).screen is Inventory && !plan.menu_overload
            && e.actor_creator.is_actor_creation_allowed {
            e.holding@ + spec_held_actors(held@)
        } else {
            e.holding@
        });
        if !menu_overload {
            overworld.spawn_ground_weapons();
        } else {
            overworld.clear_spawning_weapons();
        }
        if plan.drop_items {
            overworld.drop_held_items();
        }
        self.screen = Screen::Overworld;
        if plan.drop_items {
            self.holding_in_inventory = false;
        }
        Ok(())
    }
}

} // verus!
