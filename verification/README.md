# extras

Helpers for programming the Win32 API from Rust that the Windows headers
provide as `windowsx.h` macros or that the `winapi` crate lacks, written in
Verus with their behaviour proved.

- `src/` is the verified library. It computes on plain values: packing and
  cracking message parameters (`words`), the message and parameters of each
  list box request and the reading of its reply (`listbox`), region
  operations and `InsetRect` offsets (`gdi`), Windows constants (`window`,
  `gdi`), and Rust strings as NUL-terminated UTF-16 (`wide`).
- `app/` holds the functions that call into Windows through `winapi`
  (`SendMessageW`, `CombineRgn`, `DeleteObject`, ...) under their
  `windowsx.h` names. Like `winapi` itself it only exists on Windows targets.
- `tests/` runs the library on concrete values.
