//! Helpers around the Win32 API that the Windows headers define as macros
//! (`windowsx.h`) or that are missing from the `winapi` crate: message
//! packing and cracking, list box messages, GDI selectors, and the
//! conversion of Rust strings to NUL-terminated UTF-16 strings.
//!
//! Everything here computes on plain values; calling into Windows is the
//! business of the caller.

pub mod gdi;
pub mod listbox;
pub mod types;
pub mod wide;
pub mod window;
pub mod words;
