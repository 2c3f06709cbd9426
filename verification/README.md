# skybook_runtime

The core of an inventory simulator for Breath of the Wild: it decides what each
command of a script does to the pouch, the screens and the overworld, while the
game's own code runs in an emulated process.

- `src/` is the verified library. Each module states its behaviour in `requires` /
  `ensures` contracts over models of the data (`Seq`, `Map`, views), proved by Verus:
  item selection on the pouch screens (`screen_items`, `pouch_screen`, `dpad`), the
  next target of each command (`actions`, `equip`, `drop`, `stack_target`, `get`,
  `use_item`, `low_level`, `add_slot`, `sort`), screen transitions (`screen`), the
  overworld (`overworld`, `actor`), the views of the pouch and the game data
  (`pouch_view`, `gdt_view`, `gdt_flags`), and the per-step state, saves and run output
  (`state`, `output`, `run`). The game process is read into plain values (`memory`,
  `pouch_view::RawPouch`, `gdt_view::TriggerParamFlags`) before the library sees it.
- `app/` is ordinary Rust around the library: reading and writing the game process,
  performing each step that the library decides, running scripts, and the
  serializable copies of the views and errors.
- `tests/` runs the library on concrete pouches, menus and states.
