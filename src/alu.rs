use vstd::prelude::*;
use crate::common::{signed32, w32};

verus! {

/// Whether the signed sum of two words leaves the signed 32-bit range.
pub open spec fn add_overflows(a: u32, b: u32) -> bool {
    let s = signed32(a) + signed32(b);
    s < -0x8000_0000 || s > 0x7FFF_FFFF
}

/// Whether the signed difference of two words leaves the signed 32-bit range.
pub open spec fn sub_overflows(a: u32, b: u32) -> bool {
    let s = signed32(a) - signed32(b);
    s < -0x8000_0000 || s > 0x7FFF_FFFF
}

/// Arithmetic right shift: a logical shift whose vacated high bits are
/// filled with the sign bit.
pub open spec fn sra_spec(x: u32, s: u32) -> u32 {
    if x >= 0x8000_0000 {
        (x >> s) | !(0xFFFF_FFFFu32 >> s)
    } else {
        x >> s
    }
}

/// Absolute value.
pub open spec fn abs(x: int) -> int {
    if x < 0 {
        -x
    } else {
        x
    }
}

/// Signed quotient rounded toward zero; a zero divisor gives -1 for a
/// non-negative dividend and 1 otherwise.
pub open spec fn div_quot(a: u32, b: u32) -> u32 {
    if b == 0 {
        if signed32(a) >= 0 {
            0xFFFF_FFFF
        } else {
            1
        }
    } else {
        let q = abs(signed32(a)) / abs(signed32(b));
        w32(
            if (signed32(a) < 0) != (signed32(b) < 0) {
                -q
            } else {
                q
            },
        )
    }
}

/// Signed remainder, with the sign of the dividend; a zero divisor gives the
/// dividend.
pub open spec fn div_rem(a: u32, b: u32) -> u32 {
    if b == 0 {
        a
    } else {
        let r = abs(signed32(a)) % abs(signed32(b));
        w32(
            if signed32(a) < 0 {
                -r
            } else {
                r
            },
        )
    }
}

/// Unsigned quotient; a zero divisor gives all ones.
pub open spec fn divu_quot(a: u32, b: u32) -> u32 {
    if b == 0 {
        0xFFFF_FFFF
    } else {
        a / b
    }
}

/// Unsigned remainder; a zero divisor gives the dividend.
pub open spec fn divu_rem(a: u32, b: u32) -> u32 {
    if b == 0 {
        a
    } else {
        a % b
    }
}

/// The bits of the register that LWL keeps, and that SWR keeps of memory,
/// for a byte offset `off` in 0..4.
pub open spec fn left_keep(off: u32) -> u32 {
    if off == 0 {
        0
    } else if off == 1 {
        0x0000_00FF
    } else if off == 2 {
        0x0000_FFFF
    } else {
        0x00FF_FFFF
    }
}

/// The bits of the register that LWR keeps, and that SWL keeps of memory,
/// for a byte offset `off` in 0..4.
pub open spec fn right_keep(off: u32) -> u32 {
    if off == 0 {
        0
    } else if off == 1 {
        0xFF00_0000
    } else if off == 2 {
        0xFFFF_0000
    } else {
        0xFFFF_FF00
    }
}

/// The byte offset LWL and SWL work with at `addr`.
pub open spec fn left_offset(addr: u32, little: bool) -> u32 {
    if little {
        (3 - addr % 4) as u32
    } else {
        addr % 4
    }
}

/// The byte offset LWR and SWR work with at `addr`.
pub open spec fn right_offset(addr: u32, little: bool) -> u32 {
    if little {
        addr % 4
    } else {
        (3 - addr % 4) as u32
    }
}

/// The register after LWL merges in the aligned memory word.
pub open spec fn lwl_merge(reg: u32, word: u32, off: u32) -> u32 {
    (reg & left_keep(off)) | (word << (off * 8))
}

/// The register after LWR merges in the aligned memory word.
pub open spec fn lwr_merge(reg: u32, word: u32, off: u32) -> u32 {
    (reg & right_keep(off)) | (word >> (off * 8))
}

/// The memory word after SWL merges in the register.
pub open spec fn swl_merge(word: u32, reg: u32, off: u32) -> u32 {
    (word & right_keep(off)) | (reg >> (off * 8))
}

/// The memory word after SWR merges in the register.
pub open spec fn swr_merge(word: u32, reg: u32, off: u32) -> u32 {
    (word & left_keep(off)) | (reg << (off * 8))
}

} // verus!
