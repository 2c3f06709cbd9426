//! Writing a game data flag from a script
use vstd::prelude::*;

use crate::cir::{GdtMeta, GdtValueSpec, Span};
use crate::error::{ErrorReport, RuntimeError};

verus! {

/// Kind of a game data flag: its type, and whether it is an array
#[derive(Debug, Clone, Copy, PartialEq, Eq, Structural)]
pub enum GdtFlagKind {
    Bool,
    BoolArray,
    S32,
    S32Array,
    F32,
    F32Array,
    Str32,
    Str64,
    Str64Array,
    Str256,
    Str256Array,
    Vec2f,
    Vec2fArray,
    Vec3f,
    Vec3fArray,
}

/// Value of a game data flag (`f32` values are bit patterns)
#[derive(Debug, Clone)]
pub enum GdtFlagValue {
    Bool(bool),
    BoolArray(Vec<bool>),
    S32(i32),
    S32Array(Vec<i32>),
    F32(u32),
    F32Array(Vec<u32>),
    Str32(String),
    Str64(String),
    Str64Array(Vec<String>),
    Str256(String),
    Str256Array(Vec<String>),
    Vec2f(u32, u32),
    Vec2fArray(Vec<(u32, u32)>),
    Vec3f(u32, u32, u32),
    Vec3fArray(Vec<(u32, u32, u32)>),
}

/// The kind of flag a meta writes to; none for a `str32` array (the game has none)
pub open spec fn spec_flag_kind(meta: GdtMeta) -> Option<GdtFlagKind> {
    let arr = meta.array_idx is Some;
    match meta.value {
        GdtValueSpec::Bool(_) => Some(if arr { GdtFlagKind::BoolArray } else { GdtFlagKind::Bool }),
        GdtValueSpec::S32(_) => Some(if arr { GdtFlagKind::S32Array } else { GdtFlagKind::S32 }),
        GdtValueSpec::F32(_) => Some(if arr { GdtFlagKind::F32Array } else { GdtFlagKind::F32 }),
        GdtValueSpec::String32(_) => if arr {
            None
        } else {
            Some(GdtFlagKind::Str32)
        },
        GdtValueSpec::String64(_) => Some(
            if arr {
                GdtFlagKind::Str64Array
            } else {
                GdtFlagKind::Str64
            },
        ),
        GdtValueSpec::String256(_) => Some(
            if arr {
                GdtFlagKind::Str256Array
            } else {
                GdtFlagKind::Str256
            },
        ),
        GdtValueSpec::Vec2f(_, _) => Some(
            if arr {
                GdtFlagKind::Vec2fArray
            } else {
                GdtFlagKind::Vec2f
            },
        ),
        GdtValueSpec::Vec3f(_, _, _) => Some(
            if arr {
                GdtFlagKind::Vec3fArray
            } else {
                GdtFlagKind::Vec3f
            },
        ),
    }
}

/// The kind of a flag value
pub open spec fn spec_value_kind(v: GdtFlagValue) -> GdtFlagKind {
    match v {
        GdtFlagValue::Bool(_) => GdtFlagKind::Bool,
        GdtFlagValue::BoolArray(_) => GdtFlagKind::BoolArray,
        GdtFlagValue::S32(_) => GdtFlagKind::S32,
        GdtFlagValue::S32Array(_) => GdtFlagKind::S32Array,
        GdtFlagValue::F32(_) => GdtFlagKind::F32,
        GdtFlagValue::F32Array(_) => GdtFlagKind::F32Array,
        GdtFlagValue::Str32(_) => GdtFlagKind::Str32,
        GdtFlagValue::Str64(_) => GdtFlagKind::Str64,
        GdtFlagValue::Str64Array(_) => GdtFlagKind::Str64Array,
        GdtFlagValue::Str256(_) => GdtFlagKind::Str256,
        GdtFlagValue::Str256Array(_) => GdtFlagKind::Str256Array,
        GdtFlagValue::Vec2f(_, _) => GdtFlagKind::Vec2f,
        GdtFlagValue::Vec2fArray(_) => GdtFlagKind::Vec2fArray,
        GdtFlagValue::Vec3f(_, _, _) => GdtFlagKind::Vec3f,
        GdtFlagValue::Vec3fArray(_) => GdtFlagKind::Vec3fArray,
    }
}

/// How the kind of flag written by a meta is named in errors (a scalar `bool` is named
/// as an array)
pub open spec fn spec_kind_desc(meta: GdtMeta) -> Seq<char> {
    let arr = meta.array_idx is Some;
    match meta.value {
        GdtValueSpec::Bool(_) => "bool[]"@,
        GdtValueSpec::S32(_) => if arr { "s32[]"@ } else { "s32"@ },
        GdtValueSpec::F32(_) => if arr { "f32[]"@ } else { "f32"@ },
        GdtValueSpec::String32(_) => if arr { "str32[]"@ } else { "str32"@ },
        GdtValueSpec::String64(_) => if arr { "str64[]"@ } else { "str64"@ },
        GdtValueSpec::String256(_) => if arr { "str256[]"@ } else { "str256"@ },
        GdtValueSpec::Vec2f(_, _) => if arr { "vec2f[]"@ } else { "vec2f"@ },
        GdtValueSpec::Vec3f(_, _, _) => if arr { "vec3f[]"@ } else { "vec3f"@ },
    }
}

/// Length of an array flag
pub open spec fn spec_array_len(v: GdtFlagValue) -> int {
    match v {
        GdtFlagValue::BoolArray(a) => a@.len() as int,
        GdtFlagValue::S32Array(a) => a@.len() as int,
        GdtFlagValue::F32Array(a) => a@.len() as int,
        GdtFlagValue::Str64Array(a) => a@.len() as int,
        GdtFlagValue::Str256Array(a) => a@.len() as int,
        GdtFlagValue::Vec2fArray(a) => a@.len() as int,
        GdtFlagValue::Vec3fArray(a) => a@.len() as int,
        _ => 0,
    }
}

/// A vector component to write: the given one, or the current one
pub open spec fn spec_comp(given: Option<u32>, current: u32) -> u32 {
    match given {
        Some(x) => x,
        None => current,
    }
}

/// `r` is the flag `current` with the value of the meta written (at the index for an
/// array whose index is in bounds)
pub open spec fn spec_is_written(r: GdtFlagValue, meta: GdtMeta, current: GdtFlagValue) -> bool {
    let i = meta.array_idx->Some_0 as int;
    match (meta.value, current) {
        (GdtValueSpec::Bool(v), GdtFlagValue::Bool(_)) => r == GdtFlagValue::Bool(v),
        (GdtValueSpec::Bool(v), GdtFlagValue::BoolArray(a)) => r matches GdtFlagValue::BoolArray(
            b,
        ) && b@ == a@.update(i, v),
        (GdtValueSpec::S32(v), GdtFlagValue::S32(_)) => r == GdtFlagValue::S32(v),
        (GdtValueSpec::S32(v), GdtFlagValue::S32Array(a)) => r matches GdtFlagValue::S32Array(b)
            && b@ == a@.update(i, v),
        (GdtValueSpec::F32(v), GdtFlagValue::F32(_)) => r == GdtFlagValue::F32(v),
        (GdtValueSpec::F32(v), GdtFlagValue::F32Array(a)) => r matches GdtFlagValue::F32Array(b)
            && b@ == a@.update(i, v),
        (GdtValueSpec::String32(v), GdtFlagValue::Str32(_)) => r matches GdtFlagValue::Str32(s)
            && s@ == v@,
        (GdtValueSpec::String64(v), GdtFlagValue::Str64(_)) => r matches GdtFlagValue::Str64(s)
            && s@ == v@,
        (GdtValueSpec::String64(v), GdtFlagValue::Str64Array(a)) => r matches GdtFlagValue::Str64Array(
            b,
        ) && b@.len() == a@.len() && b@[i]@ == v@ && forall|k: int|
            0 <= k < a@.len() && k != i ==> b@[k] == a@[k],
        (GdtValueSpec::String256(v), GdtFlagValue::Str256(_)) => r matches GdtFlagValue::Str256(s)
            && s@ == v@,
        (GdtValueSpec::String256(v), GdtFlagValue::Str256Array(a)) => r matches GdtFlagValue::Str256Array(
            b,
        ) && b@.len() == a@.len() && b@[i]@ == v@ && forall|k: int|
            0 <= k < a@.len() && k != i ==> b@[k] == a@[k],
        (GdtValueSpec::Vec2f(x, y), GdtFlagValue::Vec2f(cx, cy)) => r == GdtFlagValue::Vec2f(
            spec_comp(x, cx),
            spec_comp(y, cy),
        ),
        (GdtValueSpec::Vec2f(x, y), GdtFlagValue::Vec2fArray(a)) => r matches GdtFlagValue::Vec2fArray(
            b,
        ) && b@ == a@.update(i, (spec_comp(x, a@[i].0), spec_comp(y, a@[i].1))),
        (GdtValueSpec::Vec3f(x, y, z), GdtFlagValue::Vec3f(cx, cy, cz)) => r
            == GdtFlagValue::Vec3f(spec_comp(x, cx), spec_comp(y, cy), spec_comp(z, cz)),
        (GdtValueSpec::Vec3f(x, y, z), GdtFlagValue::Vec3fArray(a)) => r matches GdtFlagValue::Vec3fArray(
            b,
        ) && b@ == a@.update(
            i,
            (spec_comp(x, a@[i].0), spec_comp(y, a@[i].1), spec_comp(z, a@[i].2)),
        ),
        _ => false,
    }
}

/// The error when the flag cannot be found
pub open spec fn spec_cannot_find(e: ErrorReport, span: Span, name: Seq<char>, meta: GdtMeta) -> bool {
    &&& e.span == span
    &&& !e.is_warning
    &&& e.error matches RuntimeError::CannotFindGdtFlag(n, d)
    &&& n@ == name
    &&& d@ == spec_kind_desc(meta)
}

/// The warning when the array index is out of bounds
pub open spec fn spec_invalid_index(e: ErrorReport, span: Span, name: Seq<char>, meta: GdtMeta) -> bool {
    &&& e.span == span
    &&& e.is_warning
    &&& e.error matches RuntimeError::InvalidGdtArrayIndex(n, d, i)
    &&& n@ == name
    &&& d@ == spec_kind_desc(meta)
    &&& i == meta.array_idx->Some_0
}

/// The kind of flag a meta writes to, if the game can have such a flag
pub fn flag_kind(meta: &GdtMeta) -> (r: Option<GdtFlagKind>)
    ensures
        r == spec_flag_kind(*meta),
{
    let arr = meta.array_idx.is_some();
    match meta.value {
        GdtValueSpec::Bool(_) => Some(if arr { GdtFlagKind::BoolArray } else { GdtFlagKind::Bool }),
        GdtValueSpec::S32(_) => Some(if arr { GdtFlagKind::S32Array } else { GdtFlagKind::S32 }),
        GdtValueSpec::F32(_) => Some(if arr { GdtFlagKind::F32Array } else { GdtFlagKind::F32 }),
        GdtValueSpec::String32(_) => if arr {
            None
        } else {
            Some(GdtFlagKind::Str32)
        },
        GdtValueSpec::String64(_) => Some(
            if arr {
                GdtFlagKind::Str64Array
            } else {
                GdtFlagKind::Str64
            },
        ),
        GdtValueSpec::String256(_) => Some(
            if arr {
                GdtFlagKind::Str256Array
            } else {
                GdtFlagKind::Str256
            },
        ),
        GdtValueSpec::Vec2f(_, _) => Some(
            if arr {
                GdtFlagKind::Vec2fArray
            } else {
                GdtFlagKind::Vec2f
            },
        ),
        GdtValueSpec::Vec3f(_, _, _) => Some(
            if arr {
                GdtFlagKind::Vec3fArray
            } else {
                GdtFlagKind::Vec3f
            },
        ),
    }
}

/// How the kind of flag written by a meta is named in errors
fn kind_desc(meta: &GdtMeta) -> (r: &'static str)
    ensures
        r@ == spec_kind_desc(*meta),
{
    let arr = meta.array_idx.is_some();
    match meta.value {
        GdtValueSpec::Bool(_) => "bool[]",
        GdtValueSpec::S32(_) => if arr { "s32[]" } else { "s32" },
        GdtValueSpec::F32(_) => if arr { "f32[]" } else { "f32" },
        GdtValueSpec::String32(_) => if arr { "str32[]" } else { "str32" },
        GdtValueSpec::String64(_) => if arr { "str64[]" } else { "str64" },
        GdtValueSpec::String256(_) => if arr { "str256[]" } else { "str256" },
        GdtValueSpec::Vec2f(_, _) => if arr { "vec2f[]" } else { "vec2f" },
        GdtValueSpec::Vec3f(_, _, _) => if arr { "vec3f[]" } else { "vec3f" },
    }
}

fn comp(given: Option<u32>, current: u32) -> (r: u32)
    ensures
        r == spec_comp(given, current),
{
    match given {
        Some(x) => x,
        None => current,
    }
}

/// The kind of a flag value
pub fn value_kind(v: &GdtFlagValue) -> (r: GdtFlagKind)
    ensures
        r == spec_value_kind(*v),
{
    match v {
        GdtFlagValue::Bool(_) => GdtFlagKind::Bool,
        GdtFlagValue::BoolArray(_) => GdtFlagKind::BoolArray,
        GdtFlagValue::S32(_) => GdtFlagKind::S32,
        GdtFlagValue::S32Array(_) => GdtFlagKind::S32Array,
        GdtFlagValue::F32(_) => GdtFlagKind::F32,
        GdtFlagValue::F32Array(_) => GdtFlagKind::F32Array,
        GdtFlagValue::Str32(_) => GdtFlagKind::Str32,
        GdtFlagValue::Str64(_) => GdtFlagKind::Str64,
        GdtFlagValue::Str64Array(_) => GdtFlagKind::Str64Array,
        GdtFlagValue::Str256(_) => GdtFlagKind::Str256,
        GdtFlagValue::Str256Array(_) => GdtFlagKind::Str256Array,
        GdtFlagValue::Vec2f(_, _) => GdtFlagKind::Vec2f,
        GdtFlagValue::Vec2fArray(_) => GdtFlagKind::Vec2fArray,
        GdtFlagValue::Vec3f(_, _, _) => GdtFlagKind::Vec3f,
        GdtFlagValue::Vec3fArray(_) => GdtFlagKind::Vec3fArray,
    }
}

/// The flag is of the kind the meta writes to
pub open spec fn spec_flag_found(meta: GdtMeta, flag: Option<GdtFlagValue>) -> bool {
    flag matches Some(f) && spec_flag_kind(meta) == Some(spec_value_kind(f))
}

/// The array index of the meta is out of the bounds of the array flag
pub open spec fn spec_out_of_bounds(meta: GdtMeta, f: GdtFlagValue) -> bool {
    meta.array_idx matches Some(i) && i >= spec_array_len(f)
}

/// Write a game data flag from a script
///
/// `flag` is the flag of the name, of the kind the meta writes to (`None` if the game has
/// no such flag). Returns the new value of the flag; `None` with an error if the flag
/// cannot be found, or with a warning if the array index is out of bounds
pub fn set_gdt(
    name: &str,
    meta: &GdtMeta,
    flag: Option<GdtFlagValue>,
    span: Span,
    errors: &mut Vec<ErrorReport>,
) -> (r: Option<GdtFlagValue>)
    ensures
        !spec_flag_found(*meta, flag) ==> r is None && final(errors)@.len() == old(errors)@.len()
            + 1 && final(errors)@.take(old(errors)@.len() as int) == old(errors)@
            && spec_cannot_find(final(errors)@.last(), span, name@, *meta),
        spec_flag_found(*meta, flag) && spec_out_of_bounds(*meta, flag->Some_0) ==> r is None && final(errors)@.len() == old(errors)@.len() + 1 && final(errors)@.take(
            old(errors)@.len() as int,
        ) == old(errors)@ && spec_invalid_index(final(errors)@.last(), span, name@, *meta),
        spec_flag_found(*meta, flag) && !spec_out_of_bounds(*meta, flag->Some_0) ==> (r matches Some(v) && spec_is_written(v, *meta, flag->Some_0)) && final(errors)@
            == old(errors)@,
{
    let kind = flag_kind(meta);
    let found = match (&kind, &flag) {
        (Some(k), Some(f)) => *k == value_kind(f),
        _ => false,
    };
    if !found {
        errors.push(
            ErrorReport::error(
                span,
                RuntimeError::CannotFindGdtFlag(name.to_owned(), kind_desc(meta).to_owned()),
            ),
        );
        assert(final(errors)@.take(old(errors)@.len() as int) =~= old(errors)@);
        return None;
    }
    let f = match flag {
        Some(f) => f,
        None => vstd::pervasive::unreached(),
    };
    let idx = meta.array_idx;
    let out_of_bounds = match (idx, &f) {
        (Some(i), GdtFlagValue::BoolArray(a)) => i >= a.len(),
        (Some(i), GdtFlagValue::S32Array(a)) => i >= a.len(),
        (Some(i), GdtFlagValue::F32Array(a)) => i >= a.len(),
        (Some(i), GdtFlagValue::Str64Array(a)) => i >= a.len(),
        (Some(i), GdtFlagValue::Str256Array(a)) => i >= a.len(),
        (Some(i), GdtFlagValue::Vec2fArray(a)) => i >= a.len(),
        (Some(i), GdtFlagValue::Vec3fArray(a)) => i >= a.len(),
        _ => false,
    };
    if out_of_bounds {
        let i = match idx {
            Some(i) => i,
            None => 0,
        };
        errors.push(
            ErrorReport::warning(
                span,
                RuntimeError::InvalidGdtArrayIndex(name.to_owned(), kind_desc(meta).to_owned(), i),
            ),
        );
        assert(final(errors)@.take(old(errors)@.len() as int) =~= old(errors)@);
        return None;
    }
    let i = match idx {
        Some(i) => i,
        None => 0,
    };
    match (&meta.value, f) {
        (GdtValueSpec::Bool(v), GdtFlagValue::Bool(_)) => Some(GdtFlagValue::Bool(*v)),
        (GdtValueSpec::Bool(v), GdtFlagValue::BoolArray(a)) => {
            let mut a = a;
            a.set(i, *v);
            Some(GdtFlagValue::BoolArray(a))
        },
        (GdtValueSpec::S32(v), GdtFlagValue::S32(_)) => Some(GdtFlagValue::S32(*v)),
        (GdtValueSpec::S32(v), GdtFlagValue::S32Array(a)) => {
            let mut a = a;
            a.set(i, *v);
            Some(GdtFlagValue::S32Array(a))
        },
        (GdtValueSpec::F32(v), GdtFlagValue::F32(_)) => Some(GdtFlagValue::F32(*v)),
        (GdtValueSpec::F32(v), GdtFlagValue::F32Array(a)) => {
            let mut a = a;
            a.set(i, *v);
            Some(GdtFlagValue::F32Array(a))
        },
        (GdtValueSpec::String32(v), GdtFlagValue::Str32(_)) => Some(GdtFlagValue::Str32(v.clone())),
        (GdtValueSpec::String64(v), GdtFlagValue::Str64(_)) => Some(GdtFlagValue::Str64(v.clone())),
        (GdtValueSpec::String64(v), GdtFlagValue::Str64Array(a)) => {
            let mut a = a;
            a.set(i, v.clone());
            Some(GdtFlagValue::Str64Array(a))
        },
        (GdtValueSpec::String256(v), GdtFlagValue::Str256(_)) => Some(
            GdtFlagValue::Str256(v.clone()),
        ),
        (GdtValueSpec::String256(v), GdtFlagValue::Str256Array(a)) => {
            let mut a = a;
            a.set(i, v.clone());
            Some(GdtFlagValue::Str256Array(a))
        },
        (GdtValueSpec::Vec2f(x, y), GdtFlagValue::Vec2f(cx, cy)) => Some(
            GdtFlagValue::Vec2f(comp(*x, cx), comp(*y, cy)),
        ),
        (GdtValueSpec::Vec2f(x, y), GdtFlagValue::Vec2fArray(a)) => {
            let mut a = a;
            let cur = a[i];
            a.set(i, (comp(*x, cur.0), comp(*y, cur.1)));
            Some(GdtFlagValue::Vec2fArray(a))
        },
        (GdtValueSpec::Vec3f(x, y, z), GdtFlagValue::Vec3f(cx, cy, cz)) => Some(
            GdtFlagValue::Vec3f(comp(*x, cx), comp(*y, cy), comp(*z, cz)),
        ),
        (GdtValueSpec::Vec3f(x, y, z), GdtFlagValue::Vec3fArray(a)) => {
            let mut a = a;
            let cur = a[i];
            a.set(i, (comp(*x, cur.0), comp(*y, cur.1), comp(*z, cur.2)));
            Some(GdtFlagValue::Vec3fArray(a))
        },
        _ => vstd::pervasive::unreached(),
    }
}

} // verus!
