//! Data model of the parsed simulator commands that the simulation reads:
//! item names, categories, item selectors, amounts and source spans.
use vstd::prelude::*;

verus! {

/// A byte range in the script, used to attach diagnostics to a step or an item
#[derive(Clone, Copy, PartialEq, Eq, Structural, Debug)]
pub struct Span {
    pub lo: usize,
    pub hi: usize,
}

impl Span {
    pub fn new(lo: usize, hi: usize) -> (s: Span)
        ensures
            s.lo == lo,
            s.hi == hi,
    {
        Span { lo, hi }
    }
}

/// Item category as written in a script
#[derive(Clone, Copy, PartialEq, Eq, Structural, Debug)]
pub enum Category {
    Weapon,
    Bow,
    Shield,
    Armor,
    ArmorHead,
    ArmorUpper,
    ArmorLower,
    Material,
    Food,
    KeyItem,
}

/// The armor sub-categories collapse to `Armor`, every other category stays
pub open spec fn spec_coerce_armor(c: Category) -> Category {
    match c {
        Category::ArmorHead | Category::ArmorUpper | Category::ArmorLower => Category::Armor,
        _ => c,
    }
}

/// Weapon, Bow and Shield are the equipment categories
pub open spec fn spec_is_equipment(c: Category) -> bool {
    c == Category::Weapon || c == Category::Bow || c == Category::Shield
}

impl Category {
    /// Treat all armor sub-categories as `Armor`
    pub fn coerce_armor(self) -> (r: Category)
        ensures
            r == spec_coerce_armor(self),
    {
        match self {
            Category::ArmorHead | Category::ArmorUpper | Category::ArmorLower => Category::Armor,
            _ => self,
        }
    }

    /// If the category is Weapon, Bow or Shield
    pub fn is_equipment(self) -> (r: bool)
        ensures
            r == spec_is_equipment(self),
    {
        matches!(self, Category::Weapon | Category::Bow | Category::Shield)
    }
}

/// An actor name together with the game data that the simulation reads for it
#[derive(Clone, Debug)]
pub struct ActorName {
    /// Name of the actor
    pub name: String,
    /// The pouch item type of the actor in the game data (`-1` when the actor has none)
    pub pouch_type: i32,
    /// If the actor has the CanStack tag in the game data
    pub can_stack: bool,
    /// If the actor can be used (eaten) from the pouch
    pub can_use: bool,
    /// If the actor can be sold
    pub can_sell: bool,
}

/// How an item is named in a command: by actor, or by category
#[derive(Clone, Debug)]
pub enum ItemNameSpec {
    Actor(ActorName),
    Category(Category),
}

/// Category and slot position of an item (row and column are 1-indexed)
#[derive(Clone, Copy, PartialEq, Eq, Structural, Debug)]
pub struct CategorySpec {
    pub category: Category,
    /// Which tab of that category (1-indexed)
    pub amount: u32,
    pub row: u32,
    pub col: u32,
}

/// Position meta property of an item selector
#[derive(Clone, Copy, PartialEq, Eq, Structural, Debug)]
pub enum ItemPosition {
    /// The n-th matching item (1-indexed)
    FromSlot(u32),
    /// Tab index and slot index (0-indexed)
    TabIdxAndSlot(u32, u32),
    /// Tab category and slot position
    TabCategoryAndSlot(CategorySpec),
}

/// Meta properties of an item in a command
///
/// Floating point properties are kept as the bit patterns of the `f32` values.
#[derive(Clone, Debug)]
pub struct ItemMeta {
    pub value: Option<i32>,
    pub equip: Option<bool>,
    pub life_recover: Option<i32>,
    pub effect_duration: Option<i32>,
    pub sell_price: Option<i32>,
    /// Bit pattern of the effect id as an `f32`
    pub effect_id: Option<u32>,
    /// Bit pattern of the effect level as an `f32`
    pub effect_level: Option<u32>,
    pub ingredients: Vec<String>,
    pub position: Option<ItemPosition>,
    pub held: Option<bool>,
}

/// Selector for an item: name, optional meta, and where it is written in the script
#[derive(Clone, Debug)]
pub struct ItemMatchSpec {
    pub name: ItemNameSpec,
    pub meta: Option<ItemMeta>,
    pub span: Span,
}

/// Amount of items a command operates on
#[derive(Clone, Copy, PartialEq, Eq, Structural, Debug)]
pub enum AmountSpec {
    /// Exactly this many
    Num(usize),
    /// All of them
    All,
    /// All except this many
    AllBut(usize),
}

/// An item selector with an amount
#[derive(Clone, Debug)]
pub struct ItemSelectSpec {
    pub matcher: ItemMatchSpec,
    pub amount: AmountSpec,
}

/// An item with an amount, as in a command that adds items
#[derive(Clone, Debug)]
pub struct ItemSpec {
    pub name: ActorName,
    pub amount: usize,
    pub meta: Option<ItemMeta>,
    pub span: Span,
}

/// Value to write to a game data flag (`f32` values are bit patterns); a vector
/// component that is not given keeps its value
#[derive(Clone, Debug)]
pub enum GdtValueSpec {
    Bool(bool),
    S32(i32),
    F32(u32),
    String32(String),
    String64(String),
    String256(String),
    Vec2f(Option<u32>, Option<u32>),
    Vec3f(Option<u32>, Option<u32>, Option<u32>),
}

/// Meta properties of a game data flag to write: the value, and the index for array
/// flags
#[derive(Clone, Debug)]
pub struct GdtMeta {
    pub value: GdtValueSpec,
    pub array_idx: Option<usize>,
}

} // verus!
