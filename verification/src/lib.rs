//! Verified core of the inventory simulator: item selection, overworld actors,
//! screen state and the per-step simulation state.
pub mod cir;
pub mod util;
pub mod error;
pub mod iv;
pub mod memory;
pub mod actor;
pub mod overworld;
pub mod screen_items;
pub mod pouch_screen;
pub mod screen;
pub mod amount;
pub mod state;
pub mod runtime;
pub mod output;
pub mod run;
pub mod float_bits;
pub mod gdt_view;
pub mod gdt_flags;
pub mod pouch_view;
pub mod actions;
pub mod dpad;
pub mod equip;
pub mod stack_target;
pub mod add_slot;
pub mod sort;
pub mod snapshot;
pub mod drop;
pub mod get;
pub mod trash;
pub mod low_level;
pub mod save;
pub mod use_item;
