//! GDI constants that the `winapi` crate lacks or types differently, the
//! region combinations behind `CopyRgn` and its kin, and the offsets that
//! `InsetRect` hands `InflateRect`.

use vstd::prelude::*;
use crate::types::c_int;

verus! {

/// Background mix mode: the background is left as it is.
pub const TRANSPARENT: c_int = 1;
/// Background mix mode: the background is filled with the background colour.
pub const OPAQUE: c_int = 2;
pub const BKMODE_LAST: c_int = 2;

/// Mapping modes.
pub const MM_TEXT: c_int = 1;
pub const MM_LOMETRIC: c_int = 2;
pub const MM_HIMETRIC: c_int = 3;
pub const MM_LOENGLISH: c_int = 4;
pub const MM_HIENGLISH: c_int = 5;
pub const MM_TWIPS: c_int = 6;
pub const MM_ISOTROPIC: c_int = 7;
pub const MM_ANISOTROPIC: c_int = 8;
pub const MM_MIN: c_int = MM_TEXT;
pub const MM_MAX: c_int = MM_ANISOTROPIC;
pub const MM_MAX_FIXEDSCALE: c_int = MM_TWIPS;

/// `SetRelAbs` modes: absolute or relative coordinates.
pub const ABSOLUTE: c_int = 1;
pub const RELATIVE: c_int = 2;

/// Stock objects for `GetStockObject`.
pub const WHITE_BRUSH: c_int = 0;
pub const LTGRAY_BRUSH: c_int = 1;
pub const GRAY_BRUSH: c_int = 2;
pub const DKGRAY_BRUSH: c_int = 3;
pub const BLACK_BRUSH: c_int = 4;
pub const NULL_BRUSH: c_int = 5;
pub const HOLLOW_BRUSH: c_int = NULL_BRUSH;
pub const WHITE_PEN: c_int = 6;
pub const BLACK_PEN: c_int = 7;
pub const NULL_PEN: c_int = 8;
pub const OEM_FIXED_FONT: c_int = 10;
pub const ANSI_FIXED_FONT: c_int = 11;
pub const ANSI_VAR_FONT: c_int = 12;
pub const SYSTEM_FONT: c_int = 13;
pub const DEVICE_DEFAULT_FONT: c_int = 14;
pub const DEFAULT_PALETTE: c_int = 15;
pub const SYSTEM_FIXED_FONT: c_int = 16;
pub const DEFAULT_GUI_FONT: c_int = 17;
pub const DC_BRUSH: c_int = 18;
pub const DC_PEN: c_int = 19;
pub const STOCK_LAST: c_int = 19;

/// Pen styles.
pub const PS_SOLID: c_int = 0;
pub const PS_DASH: c_int = 1;
pub const PS_DOT: c_int = 2;
pub const PS_DASHDOT: c_int = 3;
pub const PS_DASHDOTDOT: c_int = 4;
pub const PS_NULL: c_int = 5;
pub const PS_INSIDEFRAME: c_int = 6;
pub const PS_USERSTYLE: c_int = 7;
pub const PS_ALTERNATE: c_int = 8;

/// `CombineRgn` modes.
pub const RGN_AND: c_int = 1;
pub const RGN_OR: c_int = 2;
pub const RGN_XOR: c_int = 3;
pub const RGN_DIFF: c_int = 4;
pub const RGN_COPY: c_int = 5;
pub const RGN_MIN: c_int = RGN_AND;
pub const RGN_MAX: c_int = RGN_COPY;

/// The region operations of `windowsx.h`, each one `CombineRgn` call.
#[derive(Clone, Copy, Debug, PartialEq, Eq, Structural)]
pub enum RegionOperation {
    /// `CopyRgn`: the destination becomes a copy of the first source.
    Copy,
    /// `IntersectRgn`: the part common to both sources.
    Intersect,
    /// `SubtractRgn`: the first source less the second.
    Subtract,
    /// `UnionRgn`: the part in either source.
    Union,
    /// `XorRgn`: the part in exactly one source.
    Xor,
}

impl RegionOperation {
    /// The `CombineRgn` mode of the operation.
    pub open spec fn mode_of(self) -> c_int {
        match self {
            RegionOperation::Copy => RGN_COPY,
            RegionOperation::Intersect => RGN_AND,
            RegionOperation::Subtract => RGN_DIFF,
            RegionOperation::Union => RGN_OR,
            RegionOperation::Xor => RGN_XOR,
        }
    }

    /// The mode to pass `CombineRgn` for the operation.
    pub fn combine_mode(self) -> (m: c_int)
        ensures
            m == self.mode_of(),
    {
        match self {
            RegionOperation::Copy => RGN_COPY,
            RegionOperation::Intersect => RGN_AND,
            RegionOperation::Subtract => RGN_DIFF,
            RegionOperation::Union => RGN_OR,
            RegionOperation::Xor => RGN_XOR,
        }
    }

    /// Whether the operation reads a second source region; `CopyRgn` passes
    /// a null one.
    pub fn uses_second_source(self) -> (b: bool)
        ensures
            b == !(self is Copy),
    {
        match self {
            RegionOperation::Copy => false,
            _ => true,
        }
    }
}

/// Each region operation has its own `CombineRgn` mode, and every mode is a
/// valid one.
pub proof fn lemma_region_modes(a: RegionOperation, b: RegionOperation)
    ensures
        RGN_MIN <= a.mode_of() <= RGN_MAX,
        a.mode_of() == b.mode_of() <==> a == b,
{
}

/// The `CombineRgn` mode of each operation (`wingdi.h` numbers): copy is 5
/// (`RGN_COPY`), intersect 1 (`RGN_AND`), subtract 4 (`RGN_DIFF`), union 2
/// (`RGN_OR`) and exclusive or 3 (`RGN_XOR`).
pub proof fn lemma_region_mode_values(op: RegionOperation)
    ensures
        op is Copy ==> op.mode_of() == 5,
        op is Intersect ==> op.mode_of() == 1,
        op is Subtract ==> op.mode_of() == 4,
        op is Union ==> op.mode_of() == 2,
        op is Xor ==> op.mode_of() == 3,
{
}

/// The amounts `InsetRect` asks `InflateRect` to grow a rectangle by: the
/// insets negated, so the rectangle shrinks by `dx` on the left and right
/// and by `dy` at the top and bottom.
pub fn inset_amounts(dx: c_int, dy: c_int) -> (r: (c_int, c_int))
    requires
        dx != i32::MIN,
        dy != i32::MIN,
    ensures
        r.0 == -dx,
        r.1 == -dy,
{
    (-dx, -dy)
}

} // verus!
