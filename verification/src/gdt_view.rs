//! The inventory stored in the game data flags (a TriggerParam, in memory or in a save)
use vstd::prelude::*;

use crate::error::ViewError;
use crate::float_bits::{f32_bits_to_i32, spec_f32_to_i32};
use crate::iv;

verus! {

/// Most items stored in the game data
pub const ITEM_MAX: usize = 420;

/// The game data flags the inventory view reads; `None` for a flag that cannot be found.
/// `f32` values are bit patterns
#[derive(Debug, Clone)]
pub struct TriggerParamFlags {
    pub porch_item: Option<Vec<String>>,
    pub porch_item_equip_flag: Option<Vec<bool>>,
    pub porch_item_value1: Option<Vec<i32>>,
    pub porch_sword_flag_sp: Option<Vec<i32>>,
    pub porch_sword_value_sp: Option<Vec<i32>>,
    pub porch_bow_flag_sp: Option<Vec<i32>>,
    pub porch_bow_value_sp: Option<Vec<i32>>,
    pub porch_shield_flag_sp: Option<Vec<i32>>,
    pub porch_shield_value_sp: Option<Vec<i32>>,
    pub stamina_recover: Option<Vec<(u32, u32)>>,
    pub cook_effect0: Option<Vec<(u32, u32)>>,
    pub cook_effect1: Option<Vec<(u32, u32)>>,
    pub cook_material0: Option<Vec<String>>,
    pub cook_material1: Option<Vec<String>>,
    pub cook_material2: Option<Vec<String>>,
    pub cook_material3: Option<Vec<String>>,
    pub cook_material4: Option<Vec<String>>,
    pub master_sword_full_power: Option<bool>,
    pub master_sword_add_power: Option<i32>,
    pub master_sword_add_beam_power: Option<i32>,
    pub master_sword_recover_time: Option<u32>,
    pub is_open_item_category: Option<Vec<bool>>,
    pub weapon_stock_num: Option<i32>,
    pub bow_stock_num: Option<i32>,
    pub shield_stock_num: Option<i32>,
}

/// The array flags are all there
pub open spec fn spec_arrays_found(f: TriggerParamFlags) -> bool {
    &&& f.porch_item is Some
    &&& f.porch_item_equip_flag is Some
    &&& f.porch_item_value1 is Some
    &&& f.porch_sword_flag_sp is Some
    &&& f.porch_sword_value_sp is Some
    &&& f.porch_bow_flag_sp is Some
    &&& f.porch_bow_value_sp is Some
    &&& f.porch_shield_flag_sp is Some
    &&& f.porch_shield_value_sp is Some
    &&& f.stamina_recover is Some
    &&& f.cook_effect0 is Some
    &&& f.cook_effect1 is Some
    &&& f.cook_material0 is Some
    &&& f.cook_material1 is Some
    &&& f.cook_material2 is Some
    &&& f.cook_material3 is Some
    &&& f.cook_material4 is Some
}

/// The other flags are all there
pub open spec fn spec_scalars_found(f: TriggerParamFlags) -> bool {
    &&& f.master_sword_full_power is Some
    &&& f.master_sword_add_power is Some
    &&& f.master_sword_add_beam_power is Some
    &&& f.master_sword_recover_time is Some
    &&& f.is_open_item_category is Some
    &&& f.weapon_stock_num is Some
    &&& f.bow_stock_num is Some
    &&& f.shield_stock_num is Some
}

/// `n` is the number of items: the index of the first empty name (among the first 420),
/// or 420
pub open spec fn spec_is_item_count(names: Seq<String>, n: int) -> bool {
    &&& 0 <= n <= ITEM_MAX
    &&& n <= names.len()
    &&& forall|k: int| 0 <= k < n ==> names[k]@.len() > 0
    &&& n < ITEM_MAX ==> n < names.len() && names[n]@.len() == 0
}

/// Number of items before `k` of the pouch item type
pub open spec fn spec_count_type(types: Seq<i32>, k: int, t: i32) -> int
    decreases k,
{
    if k <= 0 {
        0
    } else {
        spec_count_type(types, k - 1, t) + if types[k - 1] == t {
            1int
        } else {
            0int
        }
    }
}

/// An `s32` array element, 0 when out of bounds
pub open spec fn spec_s32_at(v: Seq<i32>, i: int) -> i32 {
    if 0 <= i < v.len() {
        v[i]
    } else {
        0
    }
}

/// A `vec2f` array element, the fallback when out of bounds
pub open spec fn spec_vec2f_at(v: Seq<(u32, u32)>, i: int, fallback: (u32, u32)) -> (u32, u32) {
    if 0 <= i < v.len() {
        v[i]
    } else {
        fallback
    }
}

/// A `str64` array element, the fallback when out of bounds
pub open spec fn spec_str_at(v: Seq<String>, i: int, fallback: Seq<char>) -> Seq<char> {
    if 0 <= i < v.len() {
        v[i]@
    } else {
        fallback
    }
}

/// `d` is the modifier of the `j`-th equipment of a kind
pub open spec fn spec_modifier_at(flags: Seq<i32>, values: Seq<i32>, j: int) -> iv::WeaponModifier {
    iv::WeaponModifier { flag: spec_s32_at(flags, j), value: spec_s32_at(values, j) }
}

/// `d` is the extra data of the `k`-th item: the `j`-th sword, bow or shield has the
/// `j`-th modifier of its kind; the `j`-th food has the
/// `j`-th food data, where a value out of bounds falls back to the one read before
pub open spec fn spec_is_item_data(d: iv::GdtItemData, f: TriggerParamFlags, types: Seq<i32>, k: int) -> bool {
    let t = types[k];
    let j = spec_count_type(types, k, t);
    if t == 0 {
        d == iv::GdtItemData::Sword {
            idx: j as u32,
            info: spec_modifier_at(f.porch_sword_flag_sp->Some_0@, f.porch_sword_value_sp->Some_0@, j),
        }
    } else if t == 1 {
        d == iv::GdtItemData::Bow {
            idx: j as u32,
            info: spec_modifier_at(f.porch_bow_flag_sp->Some_0@, f.porch_bow_value_sp->Some_0@, j),
        }
    } else if t == 3 {
        d == iv::GdtItemData::Shield {
            idx: j as u32,
            info: spec_modifier_at(
                f.porch_shield_flag_sp->Some_0@,
                f.porch_shield_value_sp->Some_0@,
                j,
            ),
        }
    } else if t == 8 {
        let sr = spec_vec2f_at(f.stamina_recover->Some_0@, j, (0, 0));
        let e0 = spec_vec2f_at(f.cook_effect0->Some_0@, j, sr);
        let e1 = spec_vec2f_at(f.cook_effect1->Some_0@, j, e0);
        let i0 = spec_str_at(f.cook_material0->Some_0@, j, Seq::empty());
        let i1 = spec_str_at(f.cook_material1->Some_0@, j, i0);
        let i2 = spec_str_at(f.cook_material2->Some_0@, j, i1);
        let i3 = spec_str_at(f.cook_material3->Some_0@, j, i2);
        let i4 = spec_str_at(f.cook_material4->Some_0@, j, i3);
        &&& d matches iv::GdtItemData::Food { idx, info, unused_effect_1y, ingredients }
        &&& idx == j
        &&& info == iv::ItemData {
            effect_value: spec_f32_to_i32(sr.0),
            effect_duration: spec_f32_to_i32(sr.1),
            sell_price: spec_f32_to_i32(e1.0),
            effect_id: e0.0,
            effect_level: e0.1,
        }
        &&& unused_effect_1y == e1.1
        &&& ingredients@.len() == 5
        &&& ingredients@[0]@ == i0
        &&& ingredients@[1]@ == i1
        &&& ingredients@[2]@ == i2
        &&& ingredients@[3]@ == i3
        &&& ingredients@[4]@ == i4
    } else {
        d is NoData
    }
}

/// `item` is the `k`-th item of the game data
pub open spec fn spec_is_gdt_item(item: iv::GdtItem, f: TriggerParamFlags, types: Seq<i32>, k: int) -> bool {
    &&& item.common.actor_name@ == f.porch_item->Some_0@[k]@
    &&& item.common.value == f.porch_item_value1->Some_0@[k]
    &&& item.common.is_equipped == f.porch_item_equip_flag->Some_0@[k]
    &&& item.idx == k
    &&& spec_is_item_data(item.data, f, types, k)
}

/// A `bool` array element, false when out of bounds
pub open spec fn spec_bool_at(v: Seq<bool>, i: int) -> bool {
    0 <= i < v.len() && v[i]
}

/// The game data can be read: the flags are there, and the item arrays are long enough
/// for the items
pub open spec fn spec_gdt_readable(f: TriggerParamFlags) -> bool {
    &&& spec_arrays_found(f)
    &&& exists|n: int| spec_is_item_count(f.porch_item->Some_0@, n)
    &&& f.porch_item_equip_flag->Some_0@.len() >= choose|n: int|
        spec_is_item_count(f.porch_item->Some_0@, n)
    &&& f.porch_item_value1->Some_0@.len() >= choose|n: int|
        spec_is_item_count(f.porch_item->Some_0@, n)
    &&& spec_scalars_found(f)
}

/// `r` is the view of the game data flags, where `types` are the pouch item types of the
/// item names
pub open spec fn spec_is_gdt_view(r: iv::Gdt, f: TriggerParamFlags, types: Seq<i32>) -> bool {
    let n = choose|n: int| spec_is_item_count(f.porch_item->Some_0@, n);
    let cat = f.is_open_item_category->Some_0@;
    &&& r.items@.len() == n
    &&& forall|k: int| 0 <= k < n ==> #[trigger] spec_is_gdt_item(r.items@[k], f, types, k)
    &&& r.master_sword == iv::GdtMasterSword {
        is_true_form: f.master_sword_full_power->Some_0,
        add_power: f.master_sword_add_power->Some_0,
        add_beam_power: f.master_sword_add_beam_power->Some_0,
        recover_time: f.master_sword_recover_time->Some_0,
    }
    &&& r.info == iv::GdtInvInfo {
        num_weapon_slots: f.weapon_stock_num->Some_0,
        num_bow_slots: f.bow_stock_num->Some_0,
        num_shield_slots: f.shield_stock_num->Some_0,
        sword_tab_discovered: spec_bool_at(cat, 0),
        bow_tab_discovered: spec_bool_at(cat, 1),
        shield_tab_discovered: spec_bool_at(cat, 2),
        armor_tab_discovered: spec_bool_at(cat, 3),
        material_tab_discovered: spec_bool_at(cat, 4),
        food_tab_discovered: spec_bool_at(cat, 5),
        key_item_tab_discovered: spec_bool_at(cat, 6),
    }
}

/// The item count is unique
pub proof fn lemma_item_count_unique(names: Seq<String>, a: int, b: int)
    requires
        spec_is_item_count(names, a),
        spec_is_item_count(names, b),
    ensures
        a == b,
{
    if a < b {
        assert(names[a]@.len() > 0);
    } else if b < a {
        assert(names[b]@.len() > 0);
    }
}

/// A coherence error, saying what failed
fn coherence(what: &str) -> (r: ViewError)
    ensures
        r matches ViewError::Coherence(msg) && msg@ == what@,
{
    ViewError::Coherence(what.to_owned())
}

fn s32_at(v: &Vec<i32>, i: u32) -> (r: i32)
    ensures
        r == spec_s32_at(v@, i as int),
{
    if (i as usize) < v.len() {
        v[i as usize]
    } else {
        0
    }
}

fn vec2f_at(v: &Vec<(u32, u32)>, i: u32, fallback: (u32, u32)) -> (r: (u32, u32))
    ensures
        r == spec_vec2f_at(v@, i as int, fallback),
{
    if (i as usize) < v.len() {
        v[i as usize]
    } else {
        fallback
    }
}

fn str_at(v: &Vec<String>, i: u32, fallback: &String) -> (r: String)
    ensures
        r@ == spec_str_at(v@, i as int, fallback@),
{
    if (i as usize) < v.len() {
        v[i as usize].clone()
    } else {
        fallback.clone()
    }
}

fn bool_at(v: &Vec<bool>, i: usize) -> (r: bool)
    ensures
        r == spec_bool_at(v@, i as int),
{
    i < v.len() && v[i]
}

/// Extract the items stored in the game data flags (in memory or in a save), where `types`
/// are the pouch item types of the item names
///
/// This is similar to how the game loads the pouch from the game data, except that the
/// `i`-th sword, bow, shield or food is associated with the `i`-th data of its kind
pub fn extract_from_trigger_param(f: &TriggerParamFlags, types: &Vec<i32>) -> (r: Result<
    iv::Gdt,
    ViewError,
>)
    requires
        f.porch_item matches Some(v) ==> types@.len() >= v@.len(),
    ensures
        spec_gdt_readable(*f) ==> (r matches Ok(g) && spec_is_gdt_view(g, *f, types@)),
        !spec_gdt_readable(*f) ==> (r matches Err(e) && e is Coherence),
{
    let names = match &f.porch_item {
        None => return Err(coherence("cannot read PorchItem flag")),
        Some(v) => v,
    };
    let equip = match &f.porch_item_equip_flag {
        None => return Err(coherence("cannot read PorchItem_EquipFlag flag")),
        Some(v) => v,
    };
    let value1 = match &f.porch_item_value1 {
        None => return Err(coherence("cannot read PorchItem_Value1 flag")),
        Some(v) => v,
    };
    let sword_flag = match &f.porch_sword_flag_sp {
        None => return Err(coherence("cannot read PorchSword_FlagSp flag")),
        Some(v) => v,
    };
    let sword_value = match &f.porch_sword_value_sp {
        None => return Err(coherence("cannot read PorchSword_ValueSp flag")),
        Some(v) => v,
    };
    let bow_flag = match &f.porch_bow_flag_sp {
        None => return Err(coherence("cannot read PorchBow_FlagSp flag")),
        Some(v) => v,
    };
    let bow_value = match &f.porch_bow_value_sp {
        None => return Err(coherence("cannot read PorchBow_ValueSp flag")),
        Some(v) => v,
    };
    let shield_flag = match &f.porch_shield_flag_sp {
        None => return Err(coherence("cannot read PorchShield_FlagSp flag")),
        Some(v) => v,
    };
    let shield_value = match &f.porch_shield_value_sp {
        None => return Err(coherence("cannot read PorchShield_ValueSp flag")),
        Some(v) => v,
    };
    let stamina = match &f.stamina_recover {
        None => return Err(coherence("cannot read StaminaRecover flag")),
        Some(v) => v,
    };
    let effect0 = match &f.cook_effect0 {
        None => return Err(coherence("cannot read CookEffect0 flag")),
        Some(v) => v,
    };
    let effect1 = match &f.cook_effect1 {
        None => return Err(coherence("cannot read CookEffect1 flag")),
        Some(v) => v,
    };
    let mat0 = match &f.cook_material0 {
        None => return Err(coherence("cannot read CookMaterialName0 flag")),
        Some(v) => v,
    };
    let mat1 = match &f.cook_material1 {
        None => return Err(coherence("cannot read CookMaterialName1 flag")),
        Some(v) => v,
    };
    let mat2 = match &f.cook_material2 {
        None => return Err(coherence("cannot read CookMaterialName2 flag")),
        Some(v) => v,
    };
    let mat3 = match &f.cook_material3 {
        None => return Err(coherence("cannot read CookMaterialName3 flag")),
        Some(v) => v,
    };
    let mat4 = match &f.cook_material4 {
        None => return Err(coherence("cannot read CookMaterialName4 flag")),
        Some(v) => v,
    };
    let mut items: Vec<iv::GdtItem> = Vec::new();
    let mut sword_idx: u32 = 0;
    let mut bow_idx: u32 = 0;
    let mut shield_idx: u32 = 0;
    let mut food_idx: u32 = 0;
    let mut i: usize = 0;
    while i < ITEM_MAX
        invariant
            spec_arrays_found(*f),
            f.porch_item == Some(*names),
            f.porch_item_equip_flag == Some(*equip),
            f.porch_item_value1 == Some(*value1),
            f.porch_sword_flag_sp == Some(*sword_flag),
            f.porch_sword_value_sp == Some(*sword_value),
            f.porch_bow_flag_sp == Some(*bow_flag),
            f.porch_bow_value_sp == Some(*bow_value),
            f.porch_shield_flag_sp == Some(*shield_flag),
            f.porch_shield_value_sp == Some(*shield_value),
            f.stamina_recover == Some(*stamina),
            f.cook_effect0 == Some(*effect0),
            f.cook_effect1 == Some(*effect1),
            f.cook_material0 == Some(*mat0),
            f.cook_material1 == Some(*mat1),
            f.cook_material2 == Some(*mat2),
            f.cook_material3 == Some(*mat3),
            f.cook_material4 == Some(*mat4),
            types@.len() >= names@.len(),
            i <= ITEM_MAX,
            i <= names@.len(),
            i <= equip@.len(),
            i <= value1@.len(),
            items@.len() == i,
            forall|k: int| 0 <= k < i ==> names@[k]@.len() > 0,
            forall|k: int| 0 <= k < i ==> #[trigger] spec_is_gdt_item(items@[k], *f, types@, k),
            sword_idx == spec_count_type(types@, i as int, 0),
            bow_idx == spec_count_type(types@, i as int, 1),
            shield_idx == spec_count_type(types@, i as int, 3),
            food_idx == spec_count_type(types@, i as int, 8),
            sword_idx <= i && bow_idx <= i && shield_idx <= i && food_idx <= i,
        ensures
            i <= ITEM_MAX,
            i < ITEM_MAX ==> i < names@.len() && names@[i as int]@.len() == 0,
        decreases ITEM_MAX - i,
    {
        if i >= names.len() {
            proof {
                assert forall|n: int| !spec_is_item_count(names@, n) by {
                    if spec_is_item_count(names@, n) {
                        assert(n < ITEM_MAX);
                        if n < i {
                            assert(names@[n]@.len() > 0);
                        }
                    }
                }
            }
            return Err(coherence("cannot read PorchItem element"));
        }
        if names[i].as_str().is_empty() {
            break;
        }
        if i >= equip.len() || i >= value1.len() {
            proof {
                assert forall|n: int| spec_is_item_count(names@, n) implies n > i by {
                    if n <= i {
                        assert(names@[n]@.len() > 0);
                    }
                }
            }
            return Err(coherence("cannot read PorchItem_EquipFlag or PorchItem_Value1 element"));
        }
        let t = types[i];
        let data = if t == 0 {
            let d = iv::GdtItemData::Sword {
                idx: sword_idx,
                info: iv::WeaponModifier {
                    flag: s32_at(sword_flag, sword_idx),
                    value: s32_at(sword_value, sword_idx),
                },
            };
            sword_idx += 1;
            d
        } else if t == 1 {
            let d = iv::GdtItemData::Bow {
                idx: bow_idx,
                info: iv::WeaponModifier {
                    flag: s32_at(bow_flag, bow_idx),
                    value: s32_at(bow_value, bow_idx),
                },
            };
            bow_idx += 1;
            d
        } else if t == 3 {
            let d = iv::GdtItemData::Shield {
                idx: shield_idx,
                info: iv::WeaponModifier {
                    flag: s32_at(shield_flag, shield_idx),
                    value: s32_at(shield_value, shield_idx),
                },
            };
            shield_idx += 1;
            d
        } else if t == 8 {
            // a value out of bounds falls back to the one read before
            let sr = vec2f_at(stamina, food_idx, (0, 0));
            let e0 = vec2f_at(effect0, food_idx, sr);
            let e1 = vec2f_at(effect1, food_idx, e0);
            let empty = String::new();
            let i0 = str_at(mat0, food_idx, &empty);
            let i1 = str_at(mat1, food_idx, &i0);
            let i2 = str_at(mat2, food_idx, &i1);
            let i3 = str_at(mat3, food_idx, &i2);
            let i4 = str_at(mat4, food_idx, &i3);
            let mut ingredients: Vec<String> = Vec::new();
            ingredients.push(i0);
            ingredients.push(i1);
            ingredients.push(i2);
            ingredients.push(i3);
            ingredients.push(i4);
            let d = iv::GdtItemData::Food {
                idx: food_idx,
                info: iv::ItemData {
                    effect_value: f32_bits_to_i32(sr.0),
                    effect_duration: f32_bits_to_i32(sr.1),
                    sell_price: f32_bits_to_i32(e1.0),
                    effect_id: e0.0,
                    effect_level: e0.1,
                },
                unused_effect_1y: e1.1,
                ingredients,
            };
            food_idx += 1;
            d
        } else {
            iv::GdtItemData::NoData
        };
        let item = iv::GdtItem {
            common: iv::CommonItem {
                actor_name: names[i].clone(),
                value: value1[i],
                is_equipped: equip[i],
            },
            idx: i as u32,
            data,
        };
        assert(spec_is_gdt_item(item, *f, types@, i as int));
        items.push(item);
        i += 1;
    }
    proof {
        assert(spec_is_item_count(names@, i as int));
        let n = choose|n: int| spec_is_item_count(names@, n);
        lemma_item_count_unique(names@, i as int, n);
    }
    let full_power = match f.master_sword_full_power {
        None => return Err(coherence("cannot read Open_MasterSword_FullPower flag")),
        Some(x) => x,
    };
    let add_power = match f.master_sword_add_power {
        None => return Err(coherence("cannot read MasterSword_Add_Power flag")),
        Some(x) => x,
    };
    let add_beam_power = match f.master_sword_add_beam_power {
        None => return Err(coherence("cannot read MasterSword_Add_BeamPower flag")),
        Some(x) => x,
    };
    let recover_time = match f.master_sword_recover_time {
        None => return Err(coherence("cannot read MasterSwordRecoverTime flag")),
        Some(x) => x,
    };
    let category = match &f.is_open_item_category {
        None => return Err(coherence("cannot read IsOpenItemCategory flag")),
        Some(x) => x,
    };
    let weapon_slots = match f.weapon_stock_num {
        None => return Err(coherence("cannot read WeaponPorchStockNum flag")),
        Some(x) => x,
    };
    let bow_slots = match f.bow_stock_num {
        None => return Err(coherence("cannot read BowPorchStockNum flag")),
        Some(x) => x,
    };
    let shield_slots = match f.shield_stock_num {
        None => return Err(coherence("cannot read ShieldPorchStockNum flag")),
        Some(x) => x,
    };
    Ok(
        iv::Gdt {
            items,
            master_sword: iv::GdtMasterSword {
                is_true_form: full_power,
                add_power,
                add_beam_power,
                recover_time,
            },
            info: iv::GdtInvInfo {
                num_weapon_slots: weapon_slots,
                num_bow_slots: bow_slots,
                num_shield_slots: shield_slots,
                sword_tab_discovered: bool_at(category, 0),
                bow_tab_discovered: bool_at(category, 1),
                shield_tab_discovered: bool_at(category, 2),
                armor_tab_discovered: bool_at(category, 3),
                material_tab_discovered: bool_at(category, 4),
                food_tab_discovered: bool_at(category, 5),
                key_item_tab_discovered: bool_at(category, 6),
            },
        },
    )
}

} // verus!
