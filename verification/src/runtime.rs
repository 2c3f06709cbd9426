//! Parameters of the runtime: the addresses and sizes a custom image is initialized with
use vstd::prelude::*;
use vstd::string::{StrSliceExecFns, StringExecFns};

use crate::error::RuntimeInitError;

verus! {

/// Default start of the stack region
pub const DEFAULT_STACK_START: u64 = 0x8888800000;

/// Default physical address of the PauseMenuDataMgr
pub const DEFAULT_PMDM_ADDR: u64 = 0x2222248358;

/// Default size of the free region of the heap
pub const DEFAULT_HEAP_FREE_SIZE: u32 = 20480000;

/// Largest supported size of the free region of the heap
pub const MAX_HEAP_FREE_SIZE: u32 = 40960000;

/// Default size of the stack
pub const DEFAULT_STACK_SIZE: u32 = 0x4000;

/// Bits that must be 0 in the address of a region
pub const REGION_ADDR_MASK: u64 = 0xffffff00000fffff;

/// Parameters for initializing a custom image
#[derive(Debug, Clone)]
pub struct RuntimeInitParams {
    /// DLC version to simulate
    ///
    /// 0 means no DLC, 1-3 means DLC version 1.0 (Day 1), 2.0 (Master Trials), or 3.0
    /// (Champion's Ballad)
    pub dlc: u32,
    /// Program start address
    ///
    /// The string should look like 0x000000XXXXX00000, where X is a hex digit
    ///
    /// Unspecified (empty string) means the script can run with any program start address
    pub program_start: String,
    /// Stack start address
    ///
    /// The string should look like 0x000000XXXXX00000, where X is a hex digit
    ///
    /// Unspecified (empty string) means using the internal default
    pub stack_start: String,
    /// Size of the stack
    ///
    /// Unspecified, or 0, means using the internal default
    pub stack_size: u32,
    /// Size of the free region of the heap
    ///
    /// Unspecified, or 0, means using the internal default
    pub heap_free_size: u32,
    /// Physical address of the PauseMenuDataMgr. Used to calculate heap start. Should be
    /// a hex string prefixed with 0x
    ///
    /// Unspecified (empty string) means using the internal default
    pub pmdm_addr: String,
}

/// Value of a hex digit
pub open spec fn spec_hex_digit(c: char) -> Option<int> {
    if '0' <= c <= '9' {
        Some(c as int - '0' as int)
    } else if 'a' <= c <= 'f' {
        Some(c as int - 'a' as int + 10)
    } else if 'A' <= c <= 'F' {
        Some(c as int - 'A' as int + 10)
    } else {
        None
    }
}

/// All characters are hex digits
pub open spec fn spec_all_hex(s: Seq<char>) -> bool {
    forall|i: int| 0 <= i < s.len() ==> #[trigger] spec_hex_digit(s[i]) is Some
}

/// The number written by hex digits, most significant first
pub open spec fn spec_hex_value(s: Seq<char>) -> int
    decreases s.len(),
{
    if s.len() == 0 {
        0
    } else {
        spec_hex_value(s.drop_last()) * 16 + spec_hex_digit(s.last())->Some_0
    }
}

/// The digits of an unsigned number: after an optional `+`
pub open spec fn spec_unsigned_digits(s: Seq<char>) -> Seq<char> {
    if s.len() > 0 && s[0] == '+' {
        s.skip(1)
    } else {
        s
    }
}

/// A `u64` written as hex digits after `0x`, with an optional `+` before the digits
pub open spec fn spec_parse_hex(s: Seq<char>) -> Option<u64> {
    if s.len() >= 2 && s[0] == '0' && s[1] == 'x' {
        let digits = spec_unsigned_digits(s.skip(2));
        if digits.len() > 0 && spec_all_hex(digits) && spec_hex_value(digits) <= u64::MAX {
            Some(spec_hex_value(digits) as u64)
        } else {
            None
        }
    } else {
        None
    }
}

/// The hex value of a prefix only grows with the prefix
pub proof fn lemma_hex_value_prefix(s: Seq<char>, i: int, j: int)
    requires
        0 <= i <= j <= s.len(),
        spec_all_hex(s.take(j)),
    ensures
        spec_hex_value(s.take(i)) <= spec_hex_value(s.take(j)),
        0 <= spec_hex_value(s.take(i)),
    decreases j - i,
{
    if i < j {
        assert(s.take(j).drop_last() =~= s.take(j - 1));
        assert(spec_all_hex(s.take(j - 1))) by {
            assert forall|k: int| 0 <= k < j - 1 implies #[trigger] spec_hex_digit(
                s.take(j - 1)[k],
            ) is Some by {
                assert(s.take(j - 1)[k] == s.take(j)[k]);
            }
        }
        assert(spec_hex_digit(s.take(j)[j - 1]) is Some);
        lemma_hex_value_prefix(s, i, j - 1);
    } else if i > 0 {
        lemma_hex_value_nonneg(s.take(i));
    }
}

/// Hex values are not negative
pub proof fn lemma_hex_value_nonneg(s: Seq<char>)
    requires
        spec_all_hex(s),
    ensures
        0 <= spec_hex_value(s),
    decreases s.len(),
{
    if s.len() > 0 {
        assert(spec_all_hex(s.drop_last())) by {
            assert forall|k: int| 0 <= k < s.len() - 1 implies #[trigger] spec_hex_digit(
                s.drop_last()[k],
            ) is Some by {
                assert(s.drop_last()[k] == s[k]);
            }
        }
        assert(spec_hex_digit(s[s.len() - 1]) is Some);
        lemma_hex_value_nonneg(s.drop_last());
    }
}

/// Value of a hex digit character
fn hex_digit(c: char) -> (r: Option<u64>)
    ensures
        match spec_hex_digit(c) {
            Some(v) => r == Some(v as u64),
            None => r is None,
        },
{
    if '0' <= c && c <= '9' {
        Some((c as u32 - '0' as u32) as u64)
    } else if 'a' <= c && c <= 'f' {
        Some((c as u32 - 'a' as u32 + 10) as u64)
    } else if 'A' <= c && c <= 'F' {
        Some((c as u32 - 'A' as u32 + 10) as u64)
    } else {
        None
    }
}

/// Parse a hex number prefixed with `0x`
pub fn parse_hex(s: &str) -> (r: Option<u64>)
    ensures
        r == spec_parse_hex(s@),
{
    let n = s.unicode_len();
    if n < 2 || s.get_char(0) != '0' || s.get_char(1) != 'x' {
        return None;
    }
    let mut start: usize = 2;
    if n > 2 && s.get_char(2) == '+' {
        start = 3;
    }
    let ghost digits = s@.skip(start as int);
    assert(digits =~= spec_unsigned_digits(s@.skip(2)));
    if start >= n {
        return None;
    }
    let mut value: u64 = 0;
    let mut i: usize = start;
    while i < n
        invariant
            n == s@.len(),
            2 <= start <= i <= n,
            s@[0] == '0' && s@[1] == 'x',
            digits == s@.skip(start as int),
            digits == spec_unsigned_digits(s@.skip(2)),
            spec_all_hex(digits.take(i - start)),
            value == spec_hex_value(digits.take(i - start)),
        decreases n - i,
    {
        let ghost k = i - start;
        let d = match hex_digit(s.get_char(i)) {
            None => {
                assert(digits[k] == s@[i as int]);
                assert(spec_hex_digit(digits[k]) is None);
                assert(!spec_all_hex(digits));
                return None;
            },
            Some(d) => d,
        };
        assert(digits.take(k + 1).drop_last() =~= digits.take(k));
        assert(digits.take(k + 1).last() == s@[i as int]);
        assert(spec_all_hex(digits.take(k + 1))) by {
            assert forall|j: int| 0 <= j < k + 1 implies #[trigger] spec_hex_digit(
                digits.take(k + 1)[j],
            ) is Some by {
                if j < k {
                    assert(digits.take(k + 1)[j] == digits.take(k)[j]);
                }
            }
        }
        if value > (u64::MAX - d) / 16 {
            proof {
                assert(spec_hex_value(digits.take(k + 1)) == value * 16 + d);
                assert(value * 16 + d > u64::MAX) by (nonlinear_arith)
                    requires
                        value > (u64::MAX - d) / 16,
                        d <= 15,
                ;
                if spec_all_hex(digits) {
                    assert(digits.take(digits.len() as int) =~= digits);
                    lemma_hex_value_prefix(digits, k + 1, digits.len() as int);
                }
            }
            return None;
        }
        assert(value * 16 + d <= u64::MAX) by (nonlinear_arith)
            requires
                value <= (u64::MAX - d) / 16,
                d <= 15,
        ;
        value = value * 16 + d;
        i += 1;
    }
    assert(digits.take(n - start) =~= digits);
    Some(value)
}

/// The address of a region: a hex number whose bits outside the region bits are 0
pub open spec fn spec_parse_region_addr(s: Seq<char>) -> Option<u64> {
    match spec_parse_hex(s) {
        Some(addr) => if addr & REGION_ADDR_MASK == 0 {
            Some(addr)
        } else {
            None
        },
        None => None,
    }
}

/// Parse the address of a region
pub fn parse_region_addr(s: &str) -> (r: Option<u64>)
    ensures
        r == spec_parse_region_addr(s@),
{
    let addr = match parse_hex(s) {
        None => return None,
        Some(a) => a,
    };
    if (addr & REGION_ADDR_MASK) != 0 {
        return None;
    }
    Some(addr)
}

/// Lowercase hex digit of a value below 16
pub open spec fn spec_hex_char(d: int) -> char {
    if d < 10 {
        (('0' as int) + d) as char
    } else {
        (('a' as int) + d - 10) as char
    }
}

/// `x` written as `0x` and 16 lowercase hex digits, most significant first
pub open spec fn spec_hex16(x: u64) -> Seq<char> {
    seq!['0', 'x'] + Seq::new(
        16,
        |i: int| spec_hex_char((x as int / vstd::arithmetic::power::pow(16, (15 - i) as nat)) % 16),
    )
}

/// The lowercase hex digits, in order
pub open spec fn spec_hex_digits() -> Seq<char> {
    seq!['0', '1', '2', '3', '4', '5', '6', '7', '8', '9', 'a', 'b', 'c', 'd', 'e', 'f']
}

/// The `d`-th hex digit is the digit of `d`
proof fn lemma_hex_digit_at(d: int)
    requires
        0 <= d < 16,
    ensures
        spec_hex_digits()[d] == spec_hex_char(d),
{
}

/// The hex digit of `d` as a string of one character
fn hex_digit_str(d: u64) -> (r: &'static str)
    requires
        d < 16,
    ensures
        r@ == seq![spec_hex_char(d as int)],
{
    let digits = "0123456789abcdef";
    proof {
        reveal_strlit("0123456789abcdef");
        assert(digits@ =~= spec_hex_digits());
        lemma_hex_digit_at(d as int);
        assert(digits@.subrange(d as int, d as int + 1) =~= seq![spec_hex_char(d as int)]);
    }
    digits.substring_char(d as usize, d as usize + 1)
}

/// Write `x` as `0x` and 16 lowercase hex digits, most significant first
fn fmt_hex16(x: u64) -> (r: String)
    ensures
        r@ == spec_hex16(x),
{
    let mut s = String::from_str("0x");
    proof {
        reveal_strlit("0x");
        reveal_with_fuel(vstd::arithmetic::power::pow, 16);
    }
    let mut d: u64 = 0x1000_0000_0000_0000;
    let mut i: usize = 0;
    while i < 16
        invariant
            i <= 16,
            s@ == spec_hex16(x).take(2 + i),
            i < 16 ==> d as int == vstd::arithmetic::power::pow(16, (15 - i) as nat),
            d > 0,
        decreases 16 - i,
    {
        let digit = (x / d) % 16;
        let ds = hex_digit_str(digit);
        s.append(ds);
        assert(s@ =~= spec_hex16(x).take(2 + i + 1));
        if i < 15 {
            proof {
                reveal(vstd::arithmetic::power::pow);
            }
            d = d / 16;
        }
        i += 1;
    }
    assert(spec_hex16(x).take(18) =~= spec_hex16(x));
    s
}

/// Where and how large the regions of the process are
#[derive(Debug, Clone, Copy, PartialEq, Eq, Structural)]
pub struct ProcessRegions {
    /// DLC version, 0 to 3
    pub dlc: u32,
    pub stack_start: u64,
    pub stack_size: u32,
    /// Physical address of the PauseMenuDataMgr
    pub pmdm_addr: u64,
    pub heap_free_size: u32,
}

/// The address of a region given by a parameter: the default if the parameter is empty,
/// `None` if it cannot be parsed
pub open spec fn spec_region_param(s: Seq<char>, default: u64) -> Option<u64> {
    if s.len() == 0 {
        Some(default)
    } else {
        spec_parse_region_addr(s)
    }
}

/// `r` is the result of resolving the parameters, with the program start of the image and
/// whether its game version is supported: the regions, or the first problem found (a
/// program start other than the one asked for, a DLC version above 3, an unsupported
/// game version, a stack start or PauseMenuDataMgr address that cannot be parsed, a heap
/// that is too large)
pub open spec fn spec_resolved(
    params: Option<RuntimeInitParams>,
    program_start: u64,
    version_supported: bool,
    r: Result<ProcessRegions, RuntimeInitError>,
) -> bool {
    let expected_start = match params {
        Some(p) => if p.program_start@.len() > 0 {
            spec_parse_region_addr(p.program_start@)
        } else {
            None
        },
        None => None,
    };
    let dlc = match params {
        Some(p) => p.dlc,
        None => 3,
    };
    let stack_start = match params {
        Some(p) => spec_region_param(p.stack_start@, DEFAULT_STACK_START),
        None => Some(DEFAULT_STACK_START),
    };
    let pmdm_addr = match params {
        Some(p) => spec_region_param(p.pmdm_addr@, DEFAULT_PMDM_ADDR),
        None => Some(DEFAULT_PMDM_ADDR),
    };
    let heap_free_size = match params {
        Some(p) => if p.heap_free_size != 0 {
            p.heap_free_size
        } else {
            DEFAULT_HEAP_FREE_SIZE
        },
        None => DEFAULT_HEAP_FREE_SIZE,
    };
    let stack_size = match params {
        Some(p) => if p.stack_size != 0 {
            p.stack_size
        } else {
            DEFAULT_STACK_SIZE
        },
        None => DEFAULT_STACK_SIZE,
    };
    if expected_start matches Some(e) && e != program_start {
        r matches Err(RuntimeInitError::ProgramStartMismatch(a, b)) && a@ == spec_hex16(
            program_start,
        ) && b@ == spec_hex16(expected_start->Some_0)
    } else if dlc > 3 {
        r == Err::<ProcessRegions, RuntimeInitError>(RuntimeInitError::BadDlcVersion(dlc))
    } else if !version_supported {
        r == Err::<ProcessRegions, RuntimeInitError>(RuntimeInitError::UnsupportedVersion)
    } else if stack_start is None {
        r == Err::<ProcessRegions, RuntimeInitError>(RuntimeInitError::InvalidStackStart)
    } else if pmdm_addr is None {
        r == Err::<ProcessRegions, RuntimeInitError>(RuntimeInitError::InvalidPmdmAddr)
    } else if heap_free_size > MAX_HEAP_FREE_SIZE {
        r == Err::<ProcessRegions, RuntimeInitError>(RuntimeInitError::HeapTooBig)
    } else {
        r == Ok::<ProcessRegions, RuntimeInitError>(
            ProcessRegions {
                dlc,
                stack_start: stack_start->Some_0,
                stack_size,
                pmdm_addr: pmdm_addr->Some_0,
                heap_free_size,
            },
        )
    }
}

/// The address of a region given by a parameter: the default if the parameter is empty,
/// `None` if it cannot be parsed
fn region_param(s: &str, default: u64) -> (r: Option<u64>)
    ensures
        r == spec_region_param(s@, default),
{
    if s.unicode_len() == 0 {
        Some(default)
    } else {
        parse_region_addr(s)
    }
}

/// Resolve the parameters of a custom image into the regions of the process, given the
/// program start of the image and whether its game version is supported
pub fn resolve_init_params(
    params: Option<&RuntimeInitParams>,
    program_start: u64,
    version_supported: bool,
) -> (r: Result<ProcessRegions, RuntimeInitError>)
    ensures
        spec_resolved(
            match params {
                Some(p) => Some(*p),
                None => None,
            },
            program_start,
            version_supported,
            r,
        ),
{
    if let Some(p) = params {
        if p.program_start.as_str().unicode_len() > 0 {
            // a program start that cannot be parsed is not checked
            if let Some(expected) = parse_region_addr(p.program_start.as_str()) {
                if expected != program_start {
                    return Err(
                        RuntimeInitError::ProgramStartMismatch(
                            fmt_hex16(program_start),
                            fmt_hex16(expected),
                        ),
                    );
                }
            }
        }
    }
    let dlc = match params {
        Some(p) => p.dlc,
        None => 3,
    };
    if dlc > 3 {
        return Err(RuntimeInitError::BadDlcVersion(dlc));
    }
    if !version_supported {
        return Err(RuntimeInitError::UnsupportedVersion);
    }
    let stack_start = match params {
        Some(p) => match region_param(p.stack_start.as_str(), DEFAULT_STACK_START) {
            Some(x) => x,
            None => return Err(RuntimeInitError::InvalidStackStart),
        },
        None => DEFAULT_STACK_START,
    };
    let pmdm_addr = match params {
        Some(p) => match region_param(p.pmdm_addr.as_str(), DEFAULT_PMDM_ADDR) {
            Some(x) => x,
            None => return Err(RuntimeInitError::InvalidPmdmAddr),
        },
        None => DEFAULT_PMDM_ADDR,
    };
    let heap_free_size = match params {
        Some(p) => if p.heap_free_size != 0 {
            p.heap_free_size
        } else {
            DEFAULT_HEAP_FREE_SIZE
        },
        None => DEFAULT_HEAP_FREE_SIZE,
    };
    if heap_free_size > MAX_HEAP_FREE_SIZE {
        return Err(RuntimeInitError::HeapTooBig);
    }
    let stack_size = match params {
        Some(p) => if p.stack_size != 0 {
            p.stack_size
        } else {
            DEFAULT_STACK_SIZE
        },
        None => DEFAULT_STACK_SIZE,
    };
    Ok(ProcessRegions { dlc, stack_start, stack_size, pmdm_addr, heap_free_size })
}

} // verus!
