//! Selecting items in the dpad quick menu (the weapons, bows or shields of one type, in
//! the order the menu shows them)
use vstd::prelude::*;

use crate::cir::{spec_is_equipment, ItemMatchSpec, ItemMeta, ItemNameSpec, ItemPosition};
use crate::error::{spec_warning, ErrorReport, RuntimeError};
use crate::memory::{Memory, MemoryError, PouchItemMemory};
use crate::util::{
    modifier_meta_matches, name_spec_matches, spec_modifier_matches,
    spec_name_spec_matches, spec_type_is_weapon,
};

verus! {

/// Sell price matching treats the name as equipment when it names a weapon, bow or shield
pub open spec fn spec_name_is_weapon_like(name: ItemNameSpec) -> bool {
    match name {
        ItemNameSpec::Actor(a) => spec_type_is_weapon(a.pouch_type),
        ItemNameSpec::Category(c) => spec_is_equipment(c),
    }
}

/// The item in memory matches in the dpad menu: it is unequipped when equipping and
/// equipped when unequipping, has the name, and has the value, life recover and sell
/// price of the meta where given
pub open spec fn spec_dpad_data_matches(
    matcher: ItemMatchSpec,
    is_for_equip: bool,
    d: PouchItemMemory,
) -> bool {
    &&& d.equipped != is_for_equip
    &&& spec_name_spec_matches(matcher.name, d.name)
    &&& matcher.meta matches Some(m) ==> {
        &&& m.value matches Some(v) ==> d.value == v
        &&& m.life_recover matches Some(v) ==> d.health_recover == v
        &&& m.sell_price matches Some(v) ==> spec_modifier_matches(
            spec_name_is_weapon_like(matcher.name),
            v,
            d.sell_price,
        )
    }
}

/// Result of matching an item of the dpad menu: an error when it cannot be read
pub open spec fn spec_dpad_matches(
    item: u64,
    matcher: ItemMatchSpec,
    is_for_equip: bool,
    memory: Memory,
) -> Result<bool, MemoryError> {
    match memory.spec_read(item) {
        None => Err(MemoryError { addr: item }),
        Some(d) => Ok(spec_dpad_data_matches(matcher, is_for_equip, d)),
    }
}

/// The first equipped item of the menu from index `i` on (null entries are skipped), the
/// null address when there is none
pub open spec fn spec_first_equipped_from(menu: Seq<u64>, memory: Memory, i: int) -> Result<
    u64,
    MemoryError,
>
    decreases menu.len() - i,
{
    if i < 0 || i >= menu.len() {
        Ok(0)
    } else if menu[i] == 0 {
        spec_first_equipped_from(menu, memory, i + 1)
    } else {
        match memory.spec_read(menu[i]) {
            None => Err(MemoryError { addr: menu[i] }),
            Some(d) => if d.equipped {
                Ok(menu[i])
            } else {
                spec_first_equipped_from(menu, memory, i + 1)
            },
        }
    }
}

/// The item selected from index `i` on, after skipping `skip` matches: when unequipping,
/// unequipped items are passed over and only the first equipped one is considered
pub open spec fn spec_dpad_select_from(
    menu: Seq<u64>,
    matcher: ItemMatchSpec,
    is_for_equip: bool,
    memory: Memory,
    i: int,
    skip: nat,
) -> Result<Option<u64>, MemoryError>
    decreases menu.len() - i,
{
    if i < 0 || i >= menu.len() {
        Ok(None)
    } else {
        match memory.spec_read(menu[i]) {
            None => Err(MemoryError { addr: menu[i] }),
            Some(d) => if !is_for_equip && !d.equipped {
                spec_dpad_select_from(menu, matcher, is_for_equip, memory, i + 1, skip)
            } else if !spec_dpad_data_matches(matcher, is_for_equip, d) {
                if !is_for_equip {
                    Ok(None)
                } else {
                    spec_dpad_select_from(menu, matcher, is_for_equip, memory, i + 1, skip)
                }
            } else if skip > 0 {
                spec_dpad_select_from(menu, matcher, is_for_equip, memory, i + 1, (skip - 1) as nat)
            } else {
                Ok(Some(menu[i]))
            },
        }
    }
}

/// The number of matching items from index `i` on, not counting the first `skip` of them
pub open spec fn spec_dpad_count_from(
    menu: Seq<u64>,
    matcher: ItemMatchSpec,
    is_for_equip: bool,
    memory: Memory,
    i: int,
    skip: nat,
) -> Result<nat, MemoryError>
    decreases menu.len() - i,
{
    if i < 0 || i >= menu.len() {
        Ok(0)
    } else {
        match memory.spec_read(menu[i]) {
            None => Err(MemoryError { addr: menu[i] }),
            Some(d) => if !spec_dpad_data_matches(matcher, is_for_equip, d) {
                spec_dpad_count_from(menu, matcher, is_for_equip, memory, i + 1, skip)
            } else if skip > 0 {
                spec_dpad_count_from(menu, matcher, is_for_equip, memory, i + 1, (skip - 1) as nat)
            } else {
                match spec_dpad_count_from(menu, matcher, is_for_equip, memory, i + 1, skip) {
                    Ok(n) => Ok(n + 1),
                    Err(e) => Err(e),
                }
            },
        }
    }
}

/// The meta gives a property that the dpad menu does not match on
pub open spec fn spec_has_useless_dpad_prop(meta: Option<ItemMeta>) -> bool {
    meta matches Some(m) && (m.equip is Some || m.effect_duration is Some || m.effect_id is Some
        || m.effect_level is Some || m.ingredients.len() > 0 || m.held is Some)
}

/// The number of matches to skip for the position meta: the slot given by `FromSlot`
/// (1-indexed) when equipping, none otherwise
pub open spec fn spec_dpad_skip(meta: Option<ItemMeta>, is_for_equip: bool) -> nat {
    match meta {
        Some(m) => if is_for_equip {
            match m.position {
                Some(ItemPosition::FromSlot(n)) => if n == 0 {
                    0
                } else {
                    (n - 1) as nat
                },
                _ => 0,
            }
        } else {
            0
        },
        None => 0,
    }
}

/// The position meta cannot be used: any position when unequipping, a tab position
/// when equipping
pub open spec fn spec_dpad_position_not_allowed(meta: Option<ItemMeta>, is_for_equip: bool) -> bool {
    match meta {
        Some(m) => if is_for_equip {
            m.position is Some && !(m.position matches Some(ItemPosition::FromSlot(_)))
        } else {
            m.position is Some
        },
        None => false,
    }
}

/// Warnings of selecting from the dpad menu: the position meta, then the useless meta
/// properties
pub open spec fn spec_dpad_select_warnings(
    matcher: ItemMatchSpec,
    is_for_equip: bool,
    before: Seq<ErrorReport>,
) -> Seq<ErrorReport> {
    let a = if spec_dpad_position_not_allowed(matcher.meta, is_for_equip) {
        before.push(spec_warning(matcher.span, RuntimeError::PositionSpecNotAllowed))
    } else {
        before
    };
    if spec_has_useless_dpad_prop(matcher.meta) {
        a.push(spec_warning(matcher.span, RuntimeError::UselessItemMatchProp))
    } else {
        a
    }
}

/// Check if an item of the dpad menu matches
pub fn dpad_matches(item: u64, matcher: &ItemMatchSpec, is_for_equip: bool, memory: &Memory) -> (r:
    Result<bool, MemoryError>)
    ensures
        r == spec_dpad_matches(item, *matcher, is_for_equip, *memory),
{
    let d = match memory.read_item(item) {
        Ok(d) => d,
        Err(e) => return Err(e),
    };
    if d.equipped == is_for_equip {
        // only unequipped items are equipped, and equipped ones unequipped
        return Ok(false);
    }
    if !name_spec_matches(&matcher.name, &d.name) {
        return Ok(false);
    }
    let meta = match &matcher.meta {
        None => return Ok(true),
        Some(m) => m,
    };
    if let Some(v) = meta.value {
        if d.value != v {
            return Ok(false);
        }
    }
    if let Some(v) = meta.life_recover {
        if d.health_recover != v {
            return Ok(false);
        }
    }
    if let Some(v) = meta.sell_price {
        if !modifier_meta_matches(&matcher.name, v, d.sell_price) {
            return Ok(false);
        }
    }
    Ok(true)
}

/// The first equipped item in the dpad menu, or the null address
pub fn dpad_get_first_equipped(menu: &Vec<u64>, memory: &Memory) -> (r: Result<u64, MemoryError>)
    ensures
        r == spec_first_equipped_from(menu@, *memory, 0),
{
    let mut i: usize = 0;
    while i < menu.len()
        invariant
            i <= menu.len(),
            spec_first_equipped_from(menu@, *memory, 0) == spec_first_equipped_from(
                menu@,
                *memory,
                i as int,
            ),
        decreases menu.len() - i,
    {
        let item = menu[i];
        if item != 0 {
            let d = match memory.read_item(item) {
                Ok(d) => d,
                Err(e) => return Err(e),
            };
            if d.equipped {
                return Ok(item);
            }
        }
        i += 1;
    }
    Ok(0)
}

/// Select an item from the dpad menu, skipping the first `nth` matches
///
/// When unequipping, only the first equipped item can be selected.
pub fn dpad_select_without_position_nth(
    menu: &Vec<u64>,
    matcher: &ItemMatchSpec,
    is_for_equip: bool,
    nth: usize,
    errors: &mut Vec<ErrorReport>,
    memory: &Memory,
) -> (r: Result<Option<u64>, MemoryError>)
    ensures
        r == spec_dpad_select_from(menu@, *matcher, is_for_equip, *memory, 0, nth as nat),
        final(errors)@ == if spec_has_useless_dpad_prop(matcher.meta) {
            old(errors)@.push(spec_warning(matcher.span, RuntimeError::UselessItemMatchProp))
        } else {
            old(errors)@
        },
{
    // the dpad menu is only for weapons: these properties are not matched
    if let Some(meta) = &matcher.meta {
        if meta.equip.is_some() || meta.effect_duration.is_some() || meta.effect_id.is_some()
            || meta.effect_level.is_some() || meta.ingredients.len() > 0 || meta.held.is_some() {
            errors.push(ErrorReport::warning(matcher.span, RuntimeError::UselessItemMatchProp));
        }
    }
    let mut count = nth;
    let mut i: usize = 0;
    while i < menu.len()
        invariant
            i <= menu.len(),
            errors@ == if spec_has_useless_dpad_prop(matcher.meta) {
                old(errors)@.push(spec_warning(matcher.span, RuntimeError::UselessItemMatchProp))
            } else {
                old(errors)@
            },
            spec_dpad_select_from(menu@, *matcher, is_for_equip, *memory, 0, nth as nat)
                == spec_dpad_select_from(
                menu@,
                *matcher,
                is_for_equip,
                *memory,
                i as int,
                count as nat,
            ),
        decreases menu.len() - i,
    {
        let item = menu[i];
        let d = match memory.read_item(item) {
            Ok(d) => d,
            Err(e) => return Err(e),
        };
        if !is_for_equip && !d.equipped {
            // unequipped items are passed over when unequipping
            i += 1;
            continue;
        }
        let m = match dpad_matches(item, matcher, is_for_equip, memory) {
            Ok(m) => m,
            Err(e) => return Err(e),
        };
        if !m {
            if !is_for_equip {
                // only the first equipped item can be unequipped
                return Ok(None);
            }
            i += 1;
            continue;
        }
        if count > 0 {
            count -= 1;
            i += 1;
            continue;
        }
        return Ok(Some(item));
    }
    Ok(None)
}

/// Select an item from the dpad menu, by the position meta where it gives a slot
pub fn dpad_select(
    menu: &Vec<u64>,
    matcher: &ItemMatchSpec,
    is_for_equip: bool,
    errors: &mut Vec<ErrorReport>,
    memory: &Memory,
) -> (r: Result<Option<u64>, MemoryError>)
    ensures
        r == spec_dpad_select_from(
            menu@,
            *matcher,
            is_for_equip,
            *memory,
            0,
            spec_dpad_skip(matcher.meta, is_for_equip),
        ),
        final(errors)@ == spec_dpad_select_warnings(*matcher, is_for_equip, old(errors)@),
{
    let from_slot: usize = match &matcher.meta {
        None => 0,
        Some(meta) => if is_for_equip {
            match meta.position {
                None => 0,
                Some(ItemPosition::FromSlot(n)) => (n as usize).saturating_sub(1),
                _ => {
                    // the dpad menu has no tabs
                    errors.push(
                        ErrorReport::warning(matcher.span, RuntimeError::PositionSpecNotAllowed),
                    );
                    0
                },
            }
        } else {
            if meta.position.is_some() {
                // only the first equipped item can be unequipped
                errors.push(
                    ErrorReport::warning(matcher.span, RuntimeError::PositionSpecNotAllowed),
                );
            }
            0
        },
    };
    dpad_select_without_position_nth(menu, matcher, is_for_equip, from_slot, errors, memory)
}

/// Number of matching items in the dpad menu, not counting the first `nth`
pub fn dpad_get_amount_without_position_nth(
    menu: &Vec<u64>,
    matcher: &ItemMatchSpec,
    is_for_equip: bool,
    nth: usize,
    memory: &Memory,
) -> (r: Result<usize, MemoryError>)
    ensures
        match spec_dpad_count_from(menu@, *matcher, is_for_equip, *memory, 0, nth as nat) {
            Ok(n) => r == Ok::<usize, MemoryError>(n as usize),
            Err(e) => r == Err::<usize, MemoryError>(e),
        },
{
    let mut skip = nth;
    let mut count: usize = 0;
    let mut i: usize = 0;
    while i < menu.len()
        invariant
            i <= menu.len(),
            count <= i,
            match spec_dpad_count_from(menu@, *matcher, is_for_equip, *memory, 0, nth as nat) {
                Ok(n) => spec_dpad_count_from(
                    menu@,
                    *matcher,
                    is_for_equip,
                    *memory,
                    i as int,
                    skip as nat,
                ) == Ok::<nat, MemoryError>((n - count) as nat) && count <= n,
                Err(e) => spec_dpad_count_from(
                    menu@,
                    *matcher,
                    is_for_equip,
                    *memory,
                    i as int,
                    skip as nat,
                ) == Err::<nat, MemoryError>(e),
            },
        decreases menu.len() - i,
    {
        let m = match dpad_matches(menu[i], matcher, is_for_equip, memory) {
            Ok(m) => m,
            Err(e) => return Err(e),
        };
        if m {
            if skip > 0 {
                skip -= 1;
            } else {
                count += 1;
            }
        }
        i += 1;
    }
    Ok(count)
}

/// Number of matching items in the dpad menu, from the slot given by the position meta
pub fn dpad_get_amount(
    menu: &Vec<u64>,
    matcher: &ItemMatchSpec,
    is_for_equip: bool,
    memory: &Memory,
) -> (r: Result<usize, MemoryError>)
    ensures
        match spec_dpad_count_from(
            menu@,
            *matcher,
            is_for_equip,
            *memory,
            0,
            spec_dpad_skip(matcher.meta, is_for_equip),
        ) {
            Ok(n) => r == Ok::<usize, MemoryError>(n as usize),
            Err(e) => r == Err::<usize, MemoryError>(e),
        },
{
    let from_slot: usize = match &matcher.meta {
        Some(meta) if is_for_equip => match meta.position {
            Some(ItemPosition::FromSlot(n)) => (n as usize).saturating_sub(1),
            _ => 0,
        },
        _ => 0,
    };
    dpad_get_amount_without_position_nth(menu, matcher, is_for_equip, from_slot, memory)
}

/// An item of the dpad menu matches only if it is read from memory, is unequipped when
/// equipping (equipped when unequipping), has the name, and has the value and life
/// recover that the meta gives
pub proof fn lemma_dpad_match_has_meta_values(
    item: u64,
    matcher: ItemMatchSpec,
    is_for_equip: bool,
    memory: Memory,
)
    ensures
        spec_dpad_matches(item, matcher, is_for_equip, memory) == Ok::<bool, MemoryError>(true)
            ==> (memory.spec_read(item) matches Some(d) && {
            &&& d.equipped != is_for_equip
            &&& spec_name_spec_matches(matcher.name, d.name)
            &&& matcher.meta matches Some(m) ==> {
                &&& m.value matches Some(v) ==> d.value == v
                &&& m.life_recover matches Some(v) ==> d.health_recover == v
            }
        }),
{
}

/// The item selected from the dpad menu is an item of the menu that is unequipped when
/// equipping (equipped when unequipping), has the name, and has the value and life
/// recover that the meta gives
pub proof fn lemma_dpad_selected_has_meta_values(
    menu: Seq<u64>,
    matcher: ItemMatchSpec,
    is_for_equip: bool,
    memory: Memory,
    i: int,
    skip: nat,
)
    ensures
        spec_dpad_select_from(menu, matcher, is_for_equip, memory, i, skip) matches Ok(Some(x))
            ==> (menu.contains(x) && (memory.spec_read(x) matches Some(d) && {
            &&& d.equipped != is_for_equip
            &&& spec_name_spec_matches(matcher.name, d.name)
            &&& matcher.meta matches Some(m) ==> {
                &&& m.value matches Some(v) ==> d.value == v
                &&& m.life_recover matches Some(v) ==> d.health_recover == v
            }
        })),
    decreases menu.len() - i,
{
    if 0 <= i < menu.len() {
        match memory.spec_read(menu[i]) {
            None => {},
            Some(d) => {
                if !is_for_equip && !d.equipped {
                    lemma_dpad_selected_has_meta_values(menu, matcher, is_for_equip, memory, i + 1, skip);
                } else if !spec_dpad_data_matches(matcher, is_for_equip, d) {
                    if is_for_equip {
                        lemma_dpad_selected_has_meta_values(menu, matcher, is_for_equip, memory, i + 1, skip);
                    }
                } else if skip > 0 {
                    lemma_dpad_selected_has_meta_values(
                        menu,
                        matcher,
                        is_for_equip,
                        memory,
                        i + 1,
                        (skip - 1) as nat,
                    );
                }
            },
        }
    }
}

/// When equipping from the dpad menu, an item is selected exactly when the amount of
/// matching items (from the same slot) is not zero, whenever the amount can be counted
pub proof fn lemma_dpad_select_found_iff_amount(
    menu: Seq<u64>,
    matcher: ItemMatchSpec,
    memory: Memory,
    i: int,
    skip: nat,
)
    requires
        spec_dpad_count_from(menu, matcher, true, memory, i, skip) is Ok,
    ensures
        spec_dpad_select_from(menu, matcher, true, memory, i, skip) is Ok,
        (spec_dpad_select_from(menu, matcher, true, memory, i, skip) matches Ok(Some(_)))
            <==> spec_dpad_count_from(menu, matcher, true, memory, i, skip)->Ok_0 > 0,
    decreases menu.len() - i,
{
    if i < 0 || i >= menu.len() {
    } else {
        match memory.spec_read(menu[i]) {
            None => {},
            Some(d) => {
                if !spec_dpad_data_matches(matcher, true, d) {
                    lemma_dpad_select_found_iff_amount(menu, matcher, memory, i + 1, skip);
                } else if skip > 0 {
                    lemma_dpad_select_found_iff_amount(
                        menu,
                        matcher,
                        memory,
                        i + 1,
                        (skip - 1) as nat,
                    );
                }
            },
        }
    }
}

} // verus!
