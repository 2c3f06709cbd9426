//! The decisions of using items in the overworld (`use`): equipment loses durability
//! with each use, a bow shoots the equipped arrows, and other items are removed by name
use vstd::prelude::*;

use crate::amount::MAX_ITERATIONS;
use crate::cir::{ActorName, Category, ItemNameSpec, Span};
use crate::error::{spec_error, spec_warning, ErrorReport, RuntimeError};
use crate::memory::{Memory, MemoryError};
use crate::util::{name_spec_to_item_type, str_eq};

verus! {

/// How a `use` command uses the item
#[derive(Debug, Clone)]
pub enum UseKind {
    /// Use the equipped weapon, bow or shield, taking `step_by` durability each time
    Equipment { item_type: i32, step_by: i32 },
    /// Remove the actor by name this many times
    ByName { actor: ActorName, times: usize },
    /// Nothing is used (an error was reported)
    Nothing,
}

/// Pouch item type of a name spec
pub open spec fn spec_use_item_type(item: ItemNameSpec) -> i32 {
    match item {
        ItemNameSpec::Actor(a) => a.pouch_type,
        ItemNameSpec::Category(c) => crate::util::spec_category_to_item_type(c),
    }
}

/// How the item is used, with the diagnostics: equipment uses 100 durability unless
/// given; other items need a name (a per-use amount is useless for them) and are used at
/// most 3000 times
pub open spec fn spec_use_kind(
    item: ItemNameSpec,
    times: usize,
    per_use: Option<i32>,
    span: Span,
    before: Seq<ErrorReport>,
) -> (UseKind, Seq<ErrorReport>) {
    let t = spec_use_item_type(item);
    if t == 0 || t == 3 || t == 1 {
        (
            UseKind::Equipment {
                item_type: t,
                step_by: match per_use {
                    Some(x) => x,
                    None => 100,
                },
            },
            before,
        )
    } else {
        let warned = if per_use is Some {
            before.push(spec_warning(span, RuntimeError::UselessPerUseAmount))
        } else {
            before
        };
        match item {
            ItemNameSpec::Category(_) => (
                UseKind::Nothing,
                warned.push(spec_error(span, RuntimeError::CannotUseCategory)),
            ),
            ItemNameSpec::Actor(a) => if times > MAX_ITERATIONS {
                (
                    UseKind::ByName { actor: a, times: MAX_ITERATIONS },
                    warned.push(spec_error(span, RuntimeError::TooManyIterations)),
                )
            } else {
                (UseKind::ByName { actor: a, times }, warned)
            },
        }
    }
}

/// Using a sword, bow or shield (named, or by its category) uses the equipment of that
/// type, taking the per-use amount of durability each time (100 when none is given), with
/// no diagnostic; nothing else is used as equipment
pub proof fn lemma_equipment_is_used_as_equipment(
    item: ItemNameSpec,
    times: usize,
    per_use: Option<i32>,
    span: Span,
    before: Seq<ErrorReport>,
)
    ensures
        ({
            let t = match item {
                ItemNameSpec::Actor(a) => a.pouch_type,
                ItemNameSpec::Category(Category::Weapon) => 0,
                ItemNameSpec::Category(Category::Bow) => 1,
                ItemNameSpec::Category(Category::Shield) => 3,
                ItemNameSpec::Category(_) => -1i32,
            };
            let step = match per_use {
                Some(x) => x,
                None => 100,
            };
            &&& (t == 0 || t == 1 || t == 3) ==> spec_use_kind(item, times, per_use, span, before)
                == (UseKind::Equipment { item_type: t, step_by: step }, before)
            &&& !(t == 0 || t == 1 || t == 3) ==> !(spec_use_kind(
                item,
                times,
                per_use,
                span,
                before,
            ).0 is Equipment)
        }),
{
}

/// How the item of a `use` command is used
pub fn use_kind(
    item: &ItemNameSpec,
    times: usize,
    per_use: Option<i32>,
    span: Span,
    errors: &mut Vec<ErrorReport>,
) -> (r: UseKind)
    ensures
        (r, final(errors)@) == spec_use_kind(*item, times, per_use, span, old(errors)@),
{
    let t = name_spec_to_item_type(item);
    if t == 0 || t == 3 || t == 1 {
        let step_by = match per_use {
            Some(x) => x,
            None => 100,
        };
        return UseKind::Equipment { item_type: t, step_by };
    }
    if per_use.is_some() {
        errors.push(ErrorReport::warning(span, RuntimeError::UselessPerUseAmount));
    }
    let actor = match item {
        ItemNameSpec::Category(_) => {
            errors.push(ErrorReport::error(span, RuntimeError::CannotUseCategory));
            return UseKind::Nothing;
        },
        ItemNameSpec::Actor(a) => crate::actor::copy_name(a),
    };
    if times > MAX_ITERATIONS {
        errors.push(ErrorReport::error(span, RuntimeError::TooManyIterations));
        UseKind::ByName { actor, times: MAX_ITERATIONS }
    } else {
        UseKind::ByName { actor, times }
    }
}

/// Equipment that never loses durability
pub open spec fn spec_is_damagable(actor: Seq<char>) -> bool {
    !(actor == "Weapon_Bow_071"@ || actor == "Weapon_Sword_502"@ || actor == "Weapon_Sword_503"@)
}

/// If the equipment loses durability when used
pub fn is_damagable(actor: &str) -> (r: bool)
    ensures
        r == spec_is_damagable(actor@),
{
    !(str_eq(actor, "Weapon_Bow_071") || str_eq(actor, "Weapon_Sword_502") || str_eq(
        actor,
        "Weapon_Sword_503",
    ))
}

/// Bows that shoot without arrows
pub open spec fn spec_shoots_without_arrows(bow: Seq<char>) -> bool {
    bow == "Weapon_Bow_072"@ || bow == "Weapon_Bow_071"@
}

/// If the bow shoots without arrows
pub fn shoots_without_arrows(bow: &str) -> (r: bool)
    ensures
        r == spec_shoots_without_arrows(bow@),
{
    str_eq(bow, "Weapon_Bow_072") || str_eq(bow, "Weapon_Bow_071")
}

/// `r` is the arrow a bow shoots: the equipped arrow (at the address `arrow`, null when no
/// arrow is equipped) if it has at least one; else an error and no arrow
pub open spec fn spec_arrow_to_shoot(
    arrow: u64,
    memory: Memory,
    span: Span,
    before: Seq<ErrorReport>,
) -> (Result<Option<ActorName>, MemoryError>, Seq<ErrorReport>) {
    if arrow == 0 {
        (Ok(None), before.push(spec_error(span, RuntimeError::NoArrowsToShoot)))
    } else {
        match memory.spec_read(arrow) {
            None => (Err(MemoryError { addr: arrow }), before),
            Some(d) => if d.value < 1 {
                (Ok(None), before.push(spec_error(span, RuntimeError::NoArrowsToShoot)))
            } else {
                (Ok(Some(d.name)), before)
            },
        }
    }
}

/// The arrow that the bow shoots
pub fn arrow_to_shoot(arrow: u64, memory: &Memory, span: Span, errors: &mut Vec<ErrorReport>) -> (r:
    Result<Option<ActorName>, MemoryError>)
    ensures
        (r, final(errors)@) == spec_arrow_to_shoot(arrow, *memory, span, old(errors)@),
{
    if arrow == 0 {
        errors.push(ErrorReport::error(span, RuntimeError::NoArrowsToShoot));
        return Ok(None);
    }
    let d = match memory.read_item(arrow) {
        Err(e) => return Err(e),
        Ok(d) => d,
    };
    if d.value < 1 {
        errors.push(ErrorReport::error(span, RuntimeError::NoArrowsToShoot));
        return Ok(None);
    }
    Ok(Some(crate::actor::copy_name(&d.name)))
}

/// The diagnostic when the equipment cannot be used any more after use `i` (0-indexed)
/// of `times`: the number of uses left, unless it was the last one
pub fn cannot_use_more(i: usize, times: usize, span: Span, errors: &mut Vec<ErrorReport>)
    requires
        i < times,
    ensures
        final(errors)@ == if i != times - 1 {
            old(errors)@.push(spec_warning(span, RuntimeError::CannotUseMore((times - 1 - i) as usize)))
        } else {
            old(errors)@
        },
{
    if i != times - 1 {
        errors.push(ErrorReport::warning(span, RuntimeError::CannotUseMore(times - 1 - i)));
    }
}

} // verus!
