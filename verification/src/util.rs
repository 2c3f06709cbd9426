//! Item name and category helpers shared by the simulation
use vstd::prelude::*;

use crate::cir::{
    spec_coerce_armor, spec_is_equipment, ActorName, Category, ItemMeta, ItemNameSpec,
};

verus! {

/// Weapon modifier of an equipment: modifier flags and modifier value
#[derive(Clone, Copy, PartialEq, Eq, Structural, Debug)]
pub struct WeaponModifierInfo {
    pub flags: u32,
    pub value: i32,
}

/// Category of a tab in the pouch
#[derive(Clone, Copy, PartialEq, Eq, Structural, Debug)]
pub enum PouchCategory {
    Sword,
    Bow,
    Shield,
    Armor,
    Material,
    Food,
    KeyItem,
    Invalid,
}

/// `s` starts with `p`
pub open spec fn seq_starts_with(s: Seq<char>, p: Seq<char>) -> bool {
    p.len() <= s.len() && s.subrange(0, p.len() as int) == p
}

/// Compare two strings
pub fn str_eq(a: &str, b: &str) -> (r: bool)
    ensures
        r == (a@ == b@),
{
    let x = a.to_owned();
    let y = b.to_owned();
    x == y
}

/// Check if `s` starts with `prefix`
pub fn str_starts_with(s: &str, prefix: &str) -> (r: bool)
    ensures
        r == seq_starts_with(s@, prefix@),
{
    let n = s.unicode_len();
    let m = prefix.unicode_len();
    if m > n {
        return false;
    }
    let mut i: usize = 0;
    while i < m
        invariant
            n == s@.len(),
            m == prefix@.len(),
            m <= n,
            i <= m,
            forall|k: int| 0 <= k < i ==> s@[k] == prefix@[k],
        decreases m - i,
    {
        if s.get_char(i) != prefix.get_char(i) {
            assert(s@.subrange(0, m as int)[i as int] != prefix@[i as int]);
            return false;
        }
        i += 1;
    }
    assert(s@.subrange(0, m as int) =~= prefix@);
    true
}

/// Actors that have the HeroSoul tag
pub open spec fn spec_is_hero_soul(actor: Seq<char>) -> bool {
    ||| actor == "Obj_HeroSoul_Gerudo"@
    ||| actor == "Obj_HeroSoul_Goron"@
    ||| actor == "Obj_HeroSoul_Rito"@
    ||| actor == "Obj_HeroSoul_Zora"@
    ||| actor == "Obj_DLC_HeroSoul_Gerudo"@
    ||| actor == "Obj_DLC_HeroSoul_Goron"@
    ||| actor == "Obj_DLC_HeroSoul_Rito"@
    ||| actor == "Obj_DLC_HeroSoul_Zora"@
}

/// Actors whose icon in the pouch screen is animated
pub open spec fn spec_is_animated_icon_actor(actor: Seq<char>) -> bool {
    ||| actor == "Obj_DungeonClearSeal"@
    ||| actor == "Obj_WarpDLC"@
    ||| actor == "Obj_DLC_HeroSeal_Gerudo"@
    ||| actor == "Obj_DLC_HeroSeal_Goron"@
    ||| actor == "Obj_DLC_HeroSeal_Rito"@
    ||| actor == "Obj_DLC_HeroSeal_Zora"@
    ||| spec_is_hero_soul(actor)
}

/// Check if the actor names matches one that uses animated icon.
///
/// Only one animated icon can be shown in the pouch screen for that item
pub fn is_animated_icon_actor(actor: &str) -> (r: bool)
    ensures
        r == spec_is_animated_icon_actor(actor@),
{
    str_eq(actor, "Obj_DungeonClearSeal") || str_eq(actor, "Obj_WarpDLC") || str_eq(
        actor,
        "Obj_DLC_HeroSeal_Gerudo",
    ) || str_eq(actor, "Obj_DLC_HeroSeal_Goron") || str_eq(actor, "Obj_DLC_HeroSeal_Rito")
        || str_eq(actor, "Obj_DLC_HeroSeal_Zora") || is_hero_soul(actor)
}

/// Check if the actor has the HeroSoul tag
pub fn is_hero_soul(actor: &str) -> (r: bool)
    ensures
        r == spec_is_hero_soul(actor@),
{
    str_eq(actor, "Obj_HeroSoul_Gerudo") || str_eq(actor, "Obj_HeroSoul_Goron") || str_eq(
        actor,
        "Obj_HeroSoul_Rito",
    ) || str_eq(actor, "Obj_HeroSoul_Zora") || str_eq(actor, "Obj_DLC_HeroSoul_Gerudo")
        || str_eq(actor, "Obj_DLC_HeroSoul_Goron") || str_eq(actor, "Obj_DLC_HeroSoul_Rito")
        || str_eq(actor, "Obj_DLC_HeroSoul_Zora")
}

/// Category of a pouch item type value, `None` for arrows and invalid values
pub open spec fn spec_item_type_to_category(item_type: i32) -> Option<Category> {
    if item_type == 0 {
        Some(Category::Weapon)
    } else if item_type == 1 {
        Some(Category::Bow)
    } else if item_type == 3 {
        Some(Category::Shield)
    } else if item_type == 4 {
        Some(Category::ArmorHead)
    } else if item_type == 5 {
        Some(Category::ArmorUpper)
    } else if item_type == 6 {
        Some(Category::ArmorLower)
    } else if item_type == 7 {
        Some(Category::Material)
    } else if item_type == 8 {
        Some(Category::Food)
    } else if item_type == 9 {
        Some(Category::KeyItem)
    } else {
        None
    }
}

/// Pouch item type value of a category (armor is the head armor type)
pub open spec fn spec_category_to_item_type(category: Category) -> i32 {
    match category {
        Category::Weapon => 0,
        Category::Bow => 1,
        Category::Shield => 3,
        Category::Armor => 4,
        Category::ArmorHead => 4,
        Category::ArmorUpper => 5,
        Category::ArmorLower => 6,
        Category::Material => 7,
        Category::Food => 8,
        Category::KeyItem => 9,
    }
}

/// Pouch tab category of a category
pub open spec fn spec_category_to_pouch_category(category: Category) -> PouchCategory {
    match category {
        Category::Weapon => PouchCategory::Sword,
        Category::Bow => PouchCategory::Bow,
        Category::Shield => PouchCategory::Shield,
        Category::Armor | Category::ArmorHead | Category::ArmorUpper
        | Category::ArmorLower => PouchCategory::Armor,
        Category::Material => PouchCategory::Material,
        Category::Food => PouchCategory::Food,
        Category::KeyItem => PouchCategory::KeyItem,
    }
}

/// Convert a pouch item type value to a category
pub fn item_type_to_category(item_type: i32) -> (r: Option<Category>)
    ensures
        r == spec_item_type_to_category(item_type),
{
    match item_type {
        0 => Some(Category::Weapon),
        1 => Some(Category::Bow),
        3 => Some(Category::Shield),
        4 => Some(Category::ArmorHead),
        5 => Some(Category::ArmorUpper),
        6 => Some(Category::ArmorLower),
        7 => Some(Category::Material),
        8 => Some(Category::Food),
        9 => Some(Category::KeyItem),
        _ => None,
    }
}

/// Convert a category to a pouch item type value
pub fn category_to_item_type(category: Category) -> (r: i32)
    ensures
        r == spec_category_to_item_type(category),
{
    match category {
        Category::Weapon => 0,
        Category::Bow => 1,
        Category::Shield => 3,
        Category::Armor => 4,
        Category::ArmorHead => 4,
        Category::ArmorUpper => 5,
        Category::ArmorLower => 6,
        Category::Material => 7,
        Category::Food => 8,
        Category::KeyItem => 9,
    }
}

/// Convert a category to the pouch tab category
pub fn category_to_pouch_category(category: Category) -> (r: PouchCategory)
    ensures
        r == spec_category_to_pouch_category(category),
{
    match category {
        Category::Weapon => PouchCategory::Sword,
        Category::Bow => PouchCategory::Bow,
        Category::Shield => PouchCategory::Shield,
        Category::Armor => PouchCategory::Armor,
        Category::ArmorHead => PouchCategory::Armor,
        Category::ArmorUpper => PouchCategory::Armor,
        Category::ArmorLower => PouchCategory::Armor,
        Category::Material => PouchCategory::Material,
        Category::Food => PouchCategory::Food,
        Category::KeyItem => PouchCategory::KeyItem,
    }
}

/// Sword, Bow and Shield pouch item types
pub open spec fn spec_type_is_weapon(item_type: i32) -> bool {
    item_type == 0 || item_type == 1 || item_type == 3
}

/// Category of what a name spec names: the category itself, or the category of the actor
pub open spec fn spec_name_spec_category(spec: ItemNameSpec) -> Option<Category> {
    match spec {
        ItemNameSpec::Actor(actor) => spec_item_type_to_category(actor.pouch_type),
        ItemNameSpec::Category(category) => Some(category),
    }
}

/// Check if the item name spec is a Sword/Bow/Shield
pub fn name_spec_is_weapon(spec: &ItemNameSpec) -> (r: bool)
    ensures
        r == (spec_name_spec_category(*spec) matches Some(c) && spec_is_equipment(c)),
{
    let category = match spec {
        ItemNameSpec::Actor(actor) => {
            let Some(category) = item_type_to_category(actor.pouch_type) else {
                return false;
            };
            category
        },
        ItemNameSpec::Category(category) => *category,
    };
    matches!(category, Category::Weapon | Category::Bow | Category::Shield)
}

/// Check if the actor is a Sword/Bow/Shield
pub fn name_is_weapon(name: &ActorName) -> (r: bool)
    ensures
        r == spec_type_is_weapon(name.pouch_type),
{
    name.pouch_type == 0 || name.pouch_type == 1 || name.pouch_type == 3
}

/// Check if the actor is an arrow
pub fn name_is_arrow(name: &ActorName) -> (r: bool)
    ensures
        r == (name.pouch_type == 2),
{
    name.pouch_type == 2
}

/// Actors that can never use the drop prompt
pub open spec fn spec_is_undroppable_actor(actor: Seq<char>) -> bool {
    ||| actor == "Weapon_Sword_070"@
    ||| actor == "Weapon_Sword_080"@
    ||| actor == "Weapon_Sword_081"@
    ||| actor == "Weapon_Sword_502"@
    ||| actor == "Weapon_Bow_071"@
}

/// Check if the item can use the drop prompt
pub fn name_spec_can_drop(spec: &ItemNameSpec) -> (r: bool)
    ensures
        r == (match *spec {
            ItemNameSpec::Actor(actor) => !spec_is_undroppable_actor(actor.name@),
            ItemNameSpec::Category(_) => true,
        } && (spec_name_spec_category(*spec) matches Some(c) && (spec_is_equipment(c) || c
            == Category::Material))),
{
    let category = match spec {
        ItemNameSpec::Actor(actor) => {
            let n = actor.name.as_str();
            if str_eq(n, "Weapon_Sword_070") || str_eq(n, "Weapon_Sword_080") || str_eq(
                n,
                "Weapon_Sword_081",
            ) || str_eq(n, "Weapon_Sword_502") || str_eq(n, "Weapon_Bow_071") {
                return false;
            }
            let Some(category) = item_type_to_category(actor.pouch_type) else {
                return false;
            };
            category
        },
        ItemNameSpec::Category(category) => *category,
    };
    matches!(
        category,
        Category::Weapon | Category::Bow | Category::Shield | Category::Material
    )
}

/// Check if items matched by the name could possibly be stackable
pub fn name_spec_could_stack(spec: &ItemNameSpec) -> (r: bool)
    ensures
        r == match *spec {
            ItemNameSpec::Actor(actor) => actor.can_stack,
            ItemNameSpec::Category(c) => c == Category::Armor || c == Category::Material || c
                == Category::Food || c == Category::KeyItem,
        },
{
    match spec {
        ItemNameSpec::Actor(actor) => actor.can_stack,
        ItemNameSpec::Category(category) => matches!(
            category,
            Category::Armor | Category::Material | Category::Food | Category::KeyItem
        ),
    }
}

/// An actor of pouch item type `item_type` belongs to `category`
/// (`Armor` takes in all armor sub-categories)
pub open spec fn spec_category_matches_type(category: Category, item_type: i32) -> bool {
    match spec_item_type_to_category(item_type) {
        None => false,
        Some(item_category) => if category == Category::Armor {
            category == spec_coerce_armor(item_category)
        } else {
            category == item_category
        },
    }
}

/// The actor `name` is named by `spec`
pub open spec fn spec_name_spec_matches(spec: ItemNameSpec, name: ActorName) -> bool {
    match spec {
        ItemNameSpec::Actor(actor) => actor.name@ == name.name@,
        ItemNameSpec::Category(category) => spec_category_matches_type(category, name.pouch_type),
    }
}

/// Check if the item name matches the item name spec
pub fn name_spec_matches(spec: &ItemNameSpec, name: &ActorName) -> (r: bool)
    ensures
        r == spec_name_spec_matches(*spec, *name),
{
    match spec {
        ItemNameSpec::Actor(actor) => actor.name == name.name,
        ItemNameSpec::Category(category) => {
            let Some(item_category) = item_type_to_category(name.pouch_type) else {
                return false;
            };
            let category = *category;
            if category == Category::Armor {
                return category == item_category.coerce_armor();
            }
            category == item_category
        },
    }
}

/// Pouch item type named by the spec
pub fn name_spec_to_item_type(spec: &ItemNameSpec) -> (r: i32)
    ensures
        r == match *spec {
            ItemNameSpec::Actor(actor) => actor.pouch_type,
            ItemNameSpec::Category(c) => spec_category_to_item_type(c),
        },
{
    match spec {
        ItemNameSpec::Actor(actor) => actor.pouch_type,
        ItemNameSpec::Category(category) => category_to_item_type(*category),
    }
}

/// `x` has exactly one bit on
pub open spec fn spec_is_single_bit(x: i32) -> bool {
    x != 0 && (x & x.wrapping_sub(1)) == 0
}

/// Modifier flags match: for equipment, a single expected bit only needs to be on
/// in the actual flags; otherwise the flags must be equal
pub open spec fn spec_modifier_matches(is_weapon: bool, expected: i32, actual: i32) -> bool {
    if is_weapon && spec_is_single_bit(expected) {
        (expected & actual) != 0
    } else {
        expected == actual
    }
}

/// Check if the modifier meta matches
///
/// If the item not is Weapon/Bow/Shield category, expected and actual must match exactly,
/// otherwise:
/// - If `expected` only has one bit on, returns true if that bit is also on in `actual`,
/// - Otherwise, must match exactly
pub fn modifier_meta_matches(item: &ItemNameSpec, expected: i32, actual: i32) -> (r: bool)
    ensures
        r == spec_modifier_matches(
            match *item {
                ItemNameSpec::Actor(actor) => spec_type_is_weapon(actor.pouch_type),
                ItemNameSpec::Category(c) => spec_is_equipment(c),
            },
            expected,
            actual,
        ),
{
    let is_weapon = match item {
        ItemNameSpec::Actor(actor) => name_is_weapon(actor),
        ItemNameSpec::Category(category) => category.is_equipment(),
    };
    modifier_meta_matches_by_is_weapon(is_weapon, expected, actual)
}

/// See [`modifier_meta_matches`]
pub fn modifier_meta_matches_by_name(item: &ActorName, expected: i32, actual: i32) -> (r: bool)
    ensures
        r == spec_modifier_matches(spec_type_is_weapon(item.pouch_type), expected, actual),
{
    let is_weapon = name_is_weapon(item);
    modifier_meta_matches_by_is_weapon(is_weapon, expected, actual)
}

/// See [`modifier_meta_matches`]
pub fn modifier_meta_matches_by_is_weapon(is_weapon: bool, expected: i32, actual: i32) -> (r:
    bool)
    ensures
        r == spec_modifier_matches(is_weapon, expected, actual),
{
    if is_weapon && expected != 0 && (expected & expected.wrapping_sub(1)) == 0 {
        return (expected & actual) != 0;
    }
    expected == actual
}

/// Weapon modifier described by an item meta: flags from the sell price property and
/// value from the life recover property (0 if absent); none without a sell price
pub open spec fn spec_modifier_from_meta(meta: Option<ItemMeta>) -> Option<WeaponModifierInfo> {
    match meta {
        None => None,
        Some(m) => match m.sell_price {
            None => None,
            Some(flags) => Some(
                WeaponModifierInfo {
                    flags: flags as u32,
                    value: match m.life_recover {
                        Some(v) => v,
                        None => 0,
                    },
                },
            ),
        },
    }
}

/// Get a WeaponModifierInfo struct from item meta
pub fn modifier_from_meta(meta: Option<&ItemMeta>) -> (r: Option<WeaponModifierInfo>)
    ensures
        r == spec_modifier_from_meta(
            match meta {
                Some(m) => Some(*m),
                None => None,
            },
        ),
{
    let meta = match meta {
        Some(m) => m,
        None => return None,
    };
    let flags = match meta.sell_price {
        Some(x) => x as u32,
        None => return None,
    };
    let value = match meta.life_recover {
        Some(v) => v,
        None => 0,
    };
    Some(WeaponModifierInfo { flags, value })
}

/// First tab after `tab_i` (and before `num_tabs`) that is not empty
pub open spec fn spec_is_first_nonempty_tab_after(
    tab_heads: Seq<u64>,
    tab_i: int,
    num_tabs: int,
    j: int,
) -> bool {
    &&& tab_i < j < num_tabs
    &&& tab_heads[j] != 0
    &&& forall|k: int| tab_i < k < j ==> tab_heads[k] == 0
}

/// Check if the current item ptr is the start of
/// the next tab (after tab_i), or the end of inventory
///
/// Empty tabs (null heads) after `tab_i` are skipped
pub fn should_go_to_next_tab(
    curr_item_ptr: u64,
    tab_i: usize,
    num_tabs: usize,
    tab_heads: &[u64; 50],
) -> (r: bool)
    requires
        num_tabs <= 50,
    ensures
        r == (curr_item_ptr == 0 || exists|j: int|
            spec_is_first_nonempty_tab_after(tab_heads@, tab_i as int, num_tabs as int, j)
                && curr_item_ptr == tab_heads@[j]),
{
    if curr_item_ptr == 0 {
        return true;
    }
    let mut i = tab_i;
    while i < usize::MAX && i + 1 < num_tabs
        invariant
            num_tabs <= 50,
            tab_i <= i,
            curr_item_ptr != 0,
            forall|k: int| tab_i < k <= i && k < num_tabs ==> tab_heads@[k] == 0,
        decreases num_tabs - i,
    {
        let next_head = tab_heads[i + 1];
        if next_head == 0 {
            i += 1;
            continue;
        }
        assert(spec_is_first_nonempty_tab_after(tab_heads@, tab_i as int, num_tabs as int, i + 1));
        if curr_item_ptr == next_head {
            return true;
        }
        assert forall|j: int|
            spec_is_first_nonempty_tab_after(
                tab_heads@,
                tab_i as int,
                num_tabs as int,
                j,
            ) implies curr_item_ptr != tab_heads@[j] by {
            if j < i + 1 {
                assert(tab_heads@[j] == 0);
            } else if j > i + 1 {
                assert(tab_heads@[i + 1] == 0);
            }
        }
        return false;
    }
    assert forall|j: int|
        spec_is_first_nonempty_tab_after(
            tab_heads@,
            tab_i as int,
            num_tabs as int,
            j,
        ) implies curr_item_ptr != tab_heads@[j] by {
        assert(tab_heads@[j] == 0);
    }
    false
}

/// Method to count how many items are available to operate on
#[derive(Debug, Clone, Copy, PartialEq, Eq, Structural, Hash)]
pub enum CountingMethod {
    /// Each slot is 1
    Slot,
    /// If the item has the CanStack tag, use its value, otherwise is 1
    CanStack,
    /// If the item has the CanStack tag, or is a food, use its value, otherwise is 1
    CanStackOrFood,
    /// Use the value for each slot
    Value,
}

/// If the method counts an actor by its value (otherwise each slot counts 1)
pub open spec fn spec_should_use_value(method: CountingMethod, actor: ActorName) -> bool {
    match method {
        CountingMethod::Slot => false,
        CountingMethod::CanStack => actor.can_stack,
        CountingMethod::CanStackOrFood => actor.can_stack || seq_starts_with(
            actor.name@,
            "Item_Cook"@,
        ),
        CountingMethod::Value => true,
    }
}

impl CountingMethod {
    /// Return true if this method should count this actor using the stack value (return false if
    /// 1 should be used instead of value)
    pub fn should_use_value(self, actor: &ActorName) -> (r: bool)
        ensures
            r == spec_should_use_value(self, *actor),
    {
        match self {
            CountingMethod::Slot => false,
            CountingMethod::CanStack => actor.can_stack,
            CountingMethod::CanStackOrFood => actor.can_stack || str_starts_with(
                actor.name.as_str(),
                "Item_Cook",
            ),
            CountingMethod::Value => true,
        }
    }
}

/// The sequence is in ascending order
pub open spec fn spec_is_sorted(s: Seq<u64>) -> bool {
    forall|i: int, j: int| 0 <= i < j < s.len() ==> s[i] <= s[j]
}

/// Inserting an element adds it to the multiset of elements
pub proof fn lemma_insert_to_multiset(s: Seq<u64>, p: int, x: u64)
    requires
        0 <= p <= s.len(),
    ensures
        s.insert(p, x).to_multiset() =~= s.to_multiset().insert(x),
{
    broadcast use vstd::seq_lib::group_to_multiset_ensures;

    let t = s.insert(p, x);
    assert(t.remove(p) =~= s);
    assert(t[p] == x);
    assert(t.remove(p).to_multiset() =~= t.to_multiset().remove(x));
    assert(t.contains(x));
    assert(t.to_multiset().count(x) > 0);
    assert(t.to_multiset() =~= t.to_multiset().remove(x).insert(x));
}

/// Sort integers in ascending order
pub fn sorted_u64(v: Vec<u64>) -> (r: Vec<u64>)
    ensures
        spec_is_sorted(r@),
        r@.to_multiset() =~= v@.to_multiset(),
{
    broadcast use vstd::seq_lib::group_to_multiset_ensures;

    let mut out: Vec<u64> = Vec::new();
    let mut i: usize = 0;
    while i < v.len()
        invariant
            i <= v@.len(),
            spec_is_sorted(out@),
            out@.to_multiset() =~= v@.take(i as int).to_multiset(),
        decreases v.len() - i,
    {
        let x = v[i];
        let mut p: usize = 0;
        while p < out.len() && out[p] <= x
            invariant
                p <= out@.len(),
                forall|k: int| 0 <= k < p ==> out@[k] <= x,
            decreases out.len() - p,
        {
            p += 1;
        }
        let ghost before = out@;
        proof {
            lemma_insert_to_multiset(before, p as int, x);
            assert(v@.take(i + 1) =~= v@.take(i as int).push(x));
        }
        out.insert(p, x);
        assert(out@ == before.insert(p as int, x));
        proof {
            vstd::seq_lib::to_multiset_build(v@.take(i as int), x);
        }
        assert forall|a: int, b: int| 0 <= a < b < out@.len() implies out@[a] <= out@[b] by {
            if b < p {
            } else if a > p {
                assert(out@[a] == before[a - 1]);
                assert(out@[b] == before[b - 1]);
            } else if a == p {
                assert(out@[b] == before[b - 1]);
                if b - 1 > p {
                    assert(before[p as int] <= before[b - 1]);
                }
                assert(!(before[p as int] <= x) || p == before.len());
            } else {
                assert(a < p);
                if b == p {
                } else {
                    assert(out@[b] == before[b - 1]);
                }
            }
        }
        i += 1;
    }
    assert(v@.take(v@.len() as int) =~= v@);
    out
}

} // verus!
