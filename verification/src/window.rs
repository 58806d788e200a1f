//! Indices for the window and class long values, scroll bar codes, list box
//! directory attributes and a locale item that the `winapi` crate lacks or
//! types otherwise.

use vstd::prelude::*;
use crate::types::{c_int, LCTYPE, UINT};

verus! {

/// Locale item: the time format string.
pub const LOCALE_STIMEFORMAT: LCTYPE = 0x00001003;

/// `GetWindowLongPtrW` indices.
pub const GWLP_WNDPROC: c_int = -4;
/// The instance that owns the window; see `GetWindowInstance`.
pub const GWLP_HINSTANCE: c_int = -6;
/// The parent window; change it with `SetParent`.
pub const GWLP_HWNDPARENT: c_int = -8;
pub const GWL_STYLE: c_int = -16;
pub const GWL_EXSTYLE: c_int = -20;
pub const GWLP_USERDATA: c_int = -21;
pub const GWLP_ID: c_int = -12;

/// `GetClassLongPtrW` indices.
pub const GCLP_MENUNAME: c_int = -8;
pub const GCLP_HBRBACKGROUND: c_int = -10;
pub const GCLP_HCURSOR: c_int = -12;
pub const GCLP_HICON: c_int = -14;
pub const GCLP_HMODULE: c_int = -16;
pub const GCL_CBWNDEXTRA: c_int = -18;
pub const GCL_CBCLSEXTRA: c_int = -20;
pub const GCL_STYLE: c_int = -26;
pub const GCLP_WNDPROC: c_int = -24;
pub const GCLP_HICONSM: c_int = -34;
pub const GCW_ATOM: c_int = -32;

/// Scroll bar kinds.
pub const SB_HORZ: c_int = 0;
pub const SB_VERT: c_int = 1;
pub const SB_CTL: c_int = 2;
pub const SB_BOTH: c_int = 3;

/// Scroll bar request codes, as `GET_WM_HSCROLL_CODE` and
/// `GET_WM_VSCROLL_CODE` return them.
pub const SB_LINEUP: c_int = 0;
pub const SB_LINELEFT: c_int = 0;
pub const SB_LINEDOWN: c_int = 1;
pub const SB_LINERIGHT: c_int = 1;
pub const SB_PAGEUP: c_int = 2;
pub const SB_PAGELEFT: c_int = 2;
pub const SB_PAGEDOWN: c_int = 3;
pub const SB_PAGERIGHT: c_int = 3;
pub const SB_THUMBPOSITION: c_int = 4;
pub const SB_THUMBTRACK: c_int = 5;
pub const SB_TOP: c_int = 6;
pub const SB_LEFT: c_int = 6;
pub const SB_BOTTOM: c_int = 7;
pub const SB_RIGHT: c_int = 7;
pub const SB_ENDSCROLL: c_int = 8;

/// File attributes for `ListBox_Dir`.
pub const DDL_READWRITE: UINT = 0x0000;
pub const DDL_READONLY: UINT = 0x0001;
pub const DDL_HIDDEN: UINT = 0x0002;
pub const DDL_SYSTEM: UINT = 0x0004;
pub const DDL_DIRECTORY: UINT = 0x0010;
pub const DDL_ARCHIVE: UINT = 0x0020;
pub const DDL_POSTMSGS: UINT = 0x2000;
pub const DDL_DRIVES: UINT = 0x4000;
pub const DDL_EXCLUSIVE: UINT = 0x8000;

} // verus!
