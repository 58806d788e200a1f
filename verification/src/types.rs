//! The Windows integer types that the library speaks in, as the 64-bit
//! Windows ABI defines them.

#![allow(non_camel_case_types)]

use vstd::prelude::*;

verus! {

/// C `int`.
pub type c_int = i32;

/// 16-bit unsigned word.
pub type WORD = u16;

/// 32-bit unsigned double word.
pub type DWORD = u32;

/// 32-bit Windows `BOOL` (zero is false).
pub type BOOL = i32;

/// 32-bit unsigned `UINT`.
pub type UINT = u32;

/// Locale information type.
pub type LCTYPE = u32;

/// Message parameter `WPARAM`, pointer sized and unsigned.
pub type WPARAM = usize;

/// Message parameter `LPARAM`, pointer sized and signed.
pub type LPARAM = isize;

/// Message result `LRESULT`, pointer sized and signed.
pub type LRESULT = isize;

} // verus!
