//! Errors and diagnostics reported by the simulation
use vstd::prelude::*;

use crate::cir::{Category, Span};

verus! {

/// Error or warning produced while simulating a step
#[derive(Debug, Clone)]
pub enum RuntimeError {
    Uninitialized,
    Crash,
    PreviousCrash,
    PreviousClosed,
    Executor,
    UselessScreenTransition,
    NotRightScreen,
    CannotAutoSwitchScreen,
    ItemMismatch(String, String),
    ItemMismatchCategory(String, Category),
    CannotFindItem,
    CannotFindItemNeedMore(usize),
    CannotFindItemDpadEquip,
    CannotFindItemDpadUnequip,
    CannotFindSellableItem,
    ItemNotSellable(String),
    CannotFindGroundItem,
    CannotFindGroundItemNeedMore(usize),
    NotEnoughForAllBut(usize, usize),
    InaccurateAllBut,
    CannotHoldMore,
    CannotDoWhileHolding,
    CannotDoWhileHoldingInOverworld,
    CannotDoWhileHoldingInInventory,
    NotHolding,
    PositionSpecNotAllowed,
    UselessItemMatchProp,
    UselessMetaForOverworldEquipment,
    UselessAmountForOverworldEquipment,
    UselessPerUseAmount,
    NotEquippedInOverworld,
    TooManyIterations,
    CannotFindPromptTarget,
    InvalidPromptTarget,
    CannotGetMore,
    CannotSortCategory,
    CannotUnequipArrow,
    CannotUseCategory,
    CannotUseMore(usize),
    InvalidDpadType,
    InvalidItemTarget,
    ItemAlreadyEquipped,
    ItemAlreadyUnequipped,
    NoArrowsToShoot,
    NoManualSave,
    NotDroppable,
    NotEatable,
    NotEquipment,
    NotHoldable,
    NotSellable,
    OperationNotComplete,
    ReloadFail,
    SaveNotFound(String),
    CannotFindGdtFlag(String, String),
    InvalidGdtArrayIndex(String, String, usize),
    Unimplemented,
}

/// A diagnostic at a span of the script
#[derive(Debug, Clone)]
pub struct ErrorReport {
    pub span: Span,
    pub is_warning: bool,
    pub error: RuntimeError,
}

impl ErrorReport {
    /// An error at the span
    pub fn error(span: Span, error: RuntimeError) -> (r: ErrorReport)
        ensures
            r == (ErrorReport { span, is_warning: false, error }),
    {
        ErrorReport { span, is_warning: false, error }
    }

    /// A warning at the span
    pub fn warning(span: Span, error: RuntimeError) -> (r: ErrorReport)
        ensures
            r == (ErrorReport { span, is_warning: true, error }),
    {
        ErrorReport { span, is_warning: true, error }
    }
}

/// The error pushed by `ErrorReport::error`
pub open spec fn spec_error(span: Span, error: RuntimeError) -> ErrorReport {
    ErrorReport { span, is_warning: false, error }
}

/// The warning pushed by `ErrorReport::warning`
pub open spec fn spec_warning(span: Span, error: RuntimeError) -> ErrorReport {
    ErrorReport { span, is_warning: true, error }
}

/// Error type for viewing results from the runtime
#[derive(Debug, Clone, Copy, PartialEq, Eq, Structural)]
pub enum RuntimeViewError {
    Crash,
    Closed,
    Memory,
    Coherence,
}

/// Error reading a view of the state from memory
#[derive(Debug, Clone)]
pub enum ViewError {
    /// Failed to read state from memory
    Memory(crate::memory::MemoryError),
    /// Coherence check failed when reading state (with what failed)
    Coherence(String),
}

impl ViewError {
    /// The view error reported to users
    pub fn to_runtime_view_error(&self) -> (r: RuntimeViewError)
        ensures
            r == match *self {
                ViewError::Memory(_) => RuntimeViewError::Memory,
                ViewError::Coherence(_) => RuntimeViewError::Coherence,
            },
    {
        match self {
            ViewError::Memory(_) => RuntimeViewError::Memory,
            ViewError::Coherence(_) => RuntimeViewError::Coherence,
        }
    }
}

/// Error type for initializing the runtime
#[derive(Debug, Clone, PartialEq, Eq)]
pub enum RuntimeInitError {
    Executor,
    BadDlcVersion(u32),
    UnsupportedVersion,
    BadImage,
    InvalidStackStart,
    InvalidPmdmAddr,
    ProgramStartMismatch(String, String),
    HeapTooBig,
    InitializeProcess,
}

/// Error type for the parser
#[derive(Debug, Clone)]
pub enum ParserError {
    Unexpected(String),
    SyntaxUnexpected,
    SyntaxUnexpectedEof,
    InvalidItem(String),
    InvalidEmptyItem,
    InvalidItemAmount,
    IntFormat(String),
    IntRange(String),
    FloatFormat(String),
    UnusedMetaKey(String),
    /// Meta key and the description of its value
    InvalidMetaValue(String, String),
    RequiredMetaValue(String),
    InvalidWeaponModifier(String),
    InvalidCookEffect(String),
    TooManyIngredients,
    InvalidArmorStarNum(i32),
    InvalidSlot(i32),
    InvalidTimesClause(i32),
    InvalidTrial(String),
    InvalidCategory(Category),
    InvalidCategoryName(String),
    InvalidInventoryRow(i32),
    InvalidInventoryCol(i32),
    UnusedItemPosition,
    InvalidStringLength(u32),
    GdtTypeNotSet,
    GdtTypeConflict,
    GdtInvalidIndex(i32),
    GdtMissingVecComp,
    InvalidEquipmentSlotNum(Category, i32),
}

/// Output of a task which may be aborted
#[derive(Debug, Clone)]
pub enum MaybeAborted<T> {
    Completed(T),
    Aborted,
}

impl<T> MaybeAborted<T> {
    /// Get the output of a task that was not aborted
    pub fn unwrap(self) -> (r: T)
        requires
            self is Completed,
        ensures
            self == MaybeAborted::Completed(r),
    {
        match self {
            MaybeAborted::Completed(x) => x,
            MaybeAborted::Aborted => vstd::pervasive::unreached(),
        }
    }
}

} // verus!
