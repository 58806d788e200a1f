//! List box control messages (`windowsx.h` `ListBox_*` macros): which message
//! each operation sends with which parameters, and how the reply is read.

use vstd::prelude::*;
use crate::types::{c_int, BOOL, LPARAM, LRESULT, UINT, WORD, WPARAM};
use crate::words::{
    MAKELPARAM, carries_words, high_word, lemma_words_round_trip, lparam_of_words, long_ptr_to_uint_ptr,
    low_dword, low_word, signed_32,
};

verus! {

/// A list box operation succeeded.
pub const LB_OKAY: c_int = 0;

/// A list box operation failed.
pub const LB_ERR: c_int = -1;

/// A list box ran out of space for a new string.
pub const LB_ERRSPACE: c_int = -2;

pub const LB_ADDSTRING: UINT = 0x0180;
pub const LB_INSERTSTRING: UINT = 0x0181;
pub const LB_DELETESTRING: UINT = 0x0182;
pub const LB_RESETCONTENT: UINT = 0x0184;
pub const LB_SETSEL: UINT = 0x0185;
pub const LB_SETCURSEL: UINT = 0x0186;
pub const LB_GETSEL: UINT = 0x0187;
pub const LB_GETCURSEL: UINT = 0x0188;
pub const LB_GETTEXT: UINT = 0x0189;
pub const LB_GETTEXTLEN: UINT = 0x018A;
pub const LB_GETCOUNT: UINT = 0x018B;
pub const LB_SELECTSTRING: UINT = 0x018C;
pub const LB_DIR: UINT = 0x018D;
pub const LB_GETTOPINDEX: UINT = 0x018E;
pub const LB_FINDSTRING: UINT = 0x018F;
pub const LB_GETSELCOUNT: UINT = 0x0190;
pub const LB_GETSELITEMS: UINT = 0x0191;
pub const LB_SETTABSTOPS: UINT = 0x0192;
pub const LB_GETHORIZONTALEXTENT: UINT = 0x0193;
pub const LB_SETHORIZONTALEXTENT: UINT = 0x0194;
pub const LB_SETCOLUMNWIDTH: UINT = 0x0195;
pub const LB_SETTOPINDEX: UINT = 0x0197;
pub const LB_GETITEMRECT: UINT = 0x0198;
pub const LB_GETITEMDATA: UINT = 0x0199;
pub const LB_SETITEMDATA: UINT = 0x019A;
pub const LB_SELITEMRANGE: UINT = 0x019B;
pub const LB_SETCARETINDEX: UINT = 0x019E;
pub const LB_GETCARETINDEX: UINT = 0x019F;
pub const LB_SETITEMHEIGHT: UINT = 0x01A0;
pub const LB_GETITEMHEIGHT: UINT = 0x01A1;
pub const LB_FINDSTRINGEXACT: UINT = 0x01A2;

/// A window message ready to be sent with `SendMessageW`.
#[derive(Clone, Copy, Debug, PartialEq, Eq, Structural)]
pub struct WindowMessage {
    pub msg: UINT,
    pub wparam: WPARAM,
    pub lparam: LPARAM,
}

/// A C `int` widened to a `WPARAM` as `v as WPARAM` does: sign-extended, so a
/// negative index such as -1 keeps all its bits set.
pub open spec fn int_wparam(v: int) -> int {
    long_ptr_to_uint_ptr(v)
}

/// What a window procedure reads back as a C `int` from the low 32 bits of a
/// pointer-sized parameter or result.
pub open spec fn int_of_low_bits(v: int) -> int {
    signed_32(v % 0x1_0000_0000)
}

/// `v as WPARAM` for a C `int`.
pub fn int_to_wparam(v: c_int) -> (r: WPARAM)
    ensures
        r == int_wparam(v as int),
{
    proof {
        if usize::BITS == 64 {
            assert((v as usize) as int == (if v >= 0 { v as int } else { v + 0x1_0000_0000_0000_0000 }))
                by (bit_vector)
                requires
                    usize::BITS == 64,
            ;
        } else {
            assert((v as usize) as int == (if v >= 0 { v as int } else { v + 0x1_0000_0000 }))
                by (bit_vector)
                requires
                    usize::BITS == 32,
            ;
        }
    }
    v as WPARAM
}

/// Reads a message result the way the list box macros do (`r as DWORD as
/// c_int`): its low 32 bits as a C `int`.
pub fn reply_to_int(r: LRESULT) -> (v: c_int)
    ensures
        v == int_of_low_bits(r as int),
{
    let d: u32 = r as u32;
    proof {
        if usize::BITS == 64 {
            let ghost w: i64 = r as i64;
            assert(w == r) by (bit_vector)
                requires
                    w == r as i64,
                    usize::BITS == 64,
            ;
            assert(d == (if w >= 0 { w as int } else { w + 0x1_0000_0000_0000_0000 }) % 0x1_0000_0000)
                by (bit_vector)
                requires
                    w == r as i64,
                    d == r as u32,
                    usize::BITS == 64,
            ;
        } else {
            let ghost w: i32 = r as i32;
            assert(w == r) by (bit_vector)
                requires
                    w == r as i32,
                    usize::BITS == 32,
            ;
            assert(d == (if w >= 0 { w as int } else { w + 0x1_0000_0000 }))
                by (bit_vector)
                requires
                    w == r as i32,
                    d == r as u32,
                    usize::BITS == 32,
            ;
        }
        assert(d as int == r as int % 0x1_0000_0000);
        assert((d as i32) == signed_32(d as int)) by (bit_vector);
    }
    d as c_int
}

/// A request to a list box control. The operations follow the `ListBox_*`
/// macros of `windowsx.h`; a field of type `LPARAM` that is not data holds
/// the address of a buffer or string that the caller owns (a NUL-terminated
/// wide string for text, see [`crate::wide::to_wstr`]).
#[derive(Clone, Copy, Debug, PartialEq, Eq, Structural)]
pub enum ListBoxRequest {
    /// How many items the list holds.
    GetCount,
    /// Removes every item.
    ResetContent,
    /// Appends (or, in a sorted list, inserts) a string.
    AddString { text: LPARAM },
    /// Inserts a string at `index` (-1: at the end).
    InsertString { index: c_int, text: LPARAM },
    /// Adds an item to an owner-drawn list without strings.
    AddItemData { data: LPARAM },
    /// Inserts an item of an owner-drawn list without strings at `index`.
    InsertItemData { index: c_int, data: LPARAM },
    /// Deletes the item at `index`.
    DeleteString { index: c_int },
    /// The length of the item's string, in characters.
    GetTextLen { index: c_int },
    /// Copies the item's string into `buffer`.
    GetText { index: c_int, buffer: LPARAM },
    /// The value associated with the item.
    GetItemData { index: c_int },
    /// Sets the value associated with the item.
    SetItemData { index: c_int, data: LPARAM },
    /// The first item after `start` that begins with the text.
    FindString { start: c_int, text: LPARAM },
    /// The first item after `start` whose data equals `data`.
    FindItemData { start: c_int, data: LPARAM },
    /// Selects or deselects an item of a multiple-selection list (-1: all).
    SetSel { select: BOOL, index: c_int },
    /// Selects or deselects the items `first` to `last`.
    SelItemRange { select: BOOL, first: WORD, last: WORD },
    /// The selected item of a single-selection list.
    GetCurSel,
    /// Selects the item at `index` in a single-selection list.
    SetCurSel { index: c_int },
    /// Finds and selects the first item after `start` that begins with the text.
    SelectString { start: c_int, text: LPARAM },
    /// Finds and selects the first item after `start` whose data equals `data`.
    SelectItemData { start: c_int, data: LPARAM },
    /// Whether the item is selected.
    GetSel { index: c_int },
    /// How many items a multiple-selection list has selected.
    GetSelCount,
    /// The index of the first visible item.
    GetTopIndex,
    /// Copies the indices of up to `max_items` selected items into `items`.
    GetSelItems { max_items: c_int, items: LPARAM },
    /// Scrolls so that `index` is the first visible item.
    SetTopIndex { index: c_int },
    /// Sets the column width of a multicolumn list.
    SetColumnWidth { width: c_int },
    /// The width by which the list can scroll horizontally.
    GetHorizontalExtent,
    /// Sets the width by which the list can scroll horizontally.
    SetHorizontalExtent { extent: c_int },
    /// Sets `count` tab stops from the array at `tabs`.
    SetTabStops { count: c_int, tabs: LPARAM },
    /// Copies the item's rectangle into `rect`.
    GetItemRect { index: c_int, rect: LPARAM },
    /// Moves the focus rectangle to the item.
    SetCaretIndex { index: c_int },
    /// The item that has the focus rectangle.
    GetCaretIndex,
    /// The first item after `start` that matches the text exactly.
    FindStringExact { start: c_int, text: LPARAM },
    /// Sets the height of items (of the item, for a variable-height list).
    SetItemHeight { index: c_int, height: WORD },
    /// The height of items (of the item, for a variable-height list).
    GetItemHeight { index: c_int },
    /// Adds the names of the files that `file_spec` matches and that have
    /// the attributes `attrs` (`DDL_*`).
    Dir { attrs: UINT, file_spec: LPARAM },
}

impl ListBoxRequest {
    /// The message that carries the request.
    pub open spec fn msg_of(self) -> UINT {
        match self {
            ListBoxRequest::GetCount => LB_GETCOUNT,
            ListBoxRequest::ResetContent => LB_RESETCONTENT,
            ListBoxRequest::AddString { .. } => LB_ADDSTRING,
            ListBoxRequest::InsertString { .. } => LB_INSERTSTRING,
            ListBoxRequest::AddItemData { .. } => LB_ADDSTRING,
            ListBoxRequest::InsertItemData { .. } => LB_INSERTSTRING,
            ListBoxRequest::DeleteString { .. } => LB_DELETESTRING,
            ListBoxRequest::GetTextLen { .. } => LB_GETTEXTLEN,
            ListBoxRequest::GetText { .. } => LB_GETTEXT,
            ListBoxRequest::GetItemData { .. } => LB_GETITEMDATA,
            ListBoxRequest::SetItemData { .. } => LB_SETITEMDATA,
            ListBoxRequest::FindString { .. } => LB_FINDSTRING,
            ListBoxRequest::FindItemData { .. } => LB_FINDSTRING,
            ListBoxRequest::SetSel { .. } => LB_SETSEL,
            ListBoxRequest::SelItemRange { .. } => LB_SELITEMRANGE,
            ListBoxRequest::GetCurSel => LB_GETCURSEL,
            ListBoxRequest::SetCurSel { .. } => LB_SETCURSEL,
            ListBoxRequest::SelectString { .. } => LB_SELECTSTRING,
            ListBoxRequest::SelectItemData { .. } => LB_SELECTSTRING,
            ListBoxRequest::GetSel { .. } => LB_GETSEL,
            ListBoxRequest::GetSelCount => LB_GETSELCOUNT,
            ListBoxRequest::GetTopIndex => LB_GETTOPINDEX,
            ListBoxRequest::GetSelItems { .. } => LB_GETSELITEMS,
            ListBoxRequest::SetTopIndex { .. } => LB_SETTOPINDEX,
            ListBoxRequest::SetColumnWidth { .. } => LB_SETCOLUMNWIDTH,
            ListBoxRequest::GetHorizontalExtent => LB_GETHORIZONTALEXTENT,
            ListBoxRequest::SetHorizontalExtent { .. } => LB_SETHORIZONTALEXTENT,
            ListBoxRequest::SetTabStops { .. } => LB_SETTABSTOPS,
            ListBoxRequest::GetItemRect { .. } => LB_GETITEMRECT,
            ListBoxRequest::SetCaretIndex { .. } => LB_SETCARETINDEX,
            ListBoxRequest::GetCaretIndex => LB_GETCARETINDEX,
            ListBoxRequest::FindStringExact { .. } => LB_FINDSTRINGEXACT,
            ListBoxRequest::SetItemHeight { .. } => LB_SETITEMHEIGHT,
            ListBoxRequest::GetItemHeight { .. } => LB_GETITEMHEIGHT,
            ListBoxRequest::Dir { .. } => LB_DIR,
        }
    }

    /// The message's `WPARAM`: the index, start, count, width, selection flag
    /// or attributes of the request, or zero.
    pub open spec fn wparam_of(self) -> int {
        match self {
            ListBoxRequest::InsertString { index, .. } => int_wparam(index as int),
            ListBoxRequest::InsertItemData { index, .. } => int_wparam(index as int),
            ListBoxRequest::DeleteString { index } => int_wparam(index as int),
            ListBoxRequest::GetTextLen { index } => int_wparam(index as int),
            ListBoxRequest::GetText { index, .. } => int_wparam(index as int),
            ListBoxRequest::GetItemData { index } => int_wparam(index as int),
            ListBoxRequest::SetItemData { index, .. } => int_wparam(index as int),
            ListBoxRequest::FindString { start, .. } => int_wparam(start as int),
            ListBoxRequest::FindItemData { start, .. } => int_wparam(start as int),
            ListBoxRequest::SetSel { select, .. } => int_wparam(select as int),
            ListBoxRequest::SelItemRange { select, .. } => int_wparam(select as int),
            ListBoxRequest::SetCurSel { index } => int_wparam(index as int),
            ListBoxRequest::SelectString { start, .. } => int_wparam(start as int),
            ListBoxRequest::SelectItemData { start, .. } => int_wparam(start as int),
            ListBoxRequest::GetSel { index } => int_wparam(index as int),
            ListBoxRequest::GetSelItems { max_items, .. } => int_wparam(max_items as int),
            ListBoxRequest::SetTopIndex { index } => int_wparam(index as int),
            ListBoxRequest::SetColumnWidth { width } => int_wparam(width as int),
            ListBoxRequest::SetHorizontalExtent { extent } => int_wparam(extent as int),
            ListBoxRequest::SetTabStops { count, .. } => int_wparam(count as int),
            ListBoxRequest::GetItemRect { index, .. } => int_wparam(index as int),
            ListBoxRequest::SetCaretIndex { index } => int_wparam(index as int),
            ListBoxRequest::FindStringExact { start, .. } => int_wparam(start as int),
            ListBoxRequest::SetItemHeight { index, .. } => int_wparam(index as int),
            ListBoxRequest::GetItemHeight { index } => int_wparam(index as int),
            ListBoxRequest::Dir { attrs, .. } => attrs as int,
            _ => 0,
        }
    }

    /// The message's `LPARAM`: the text, data, buffer or index of the
    /// request, the packed range or height, or zero.
    pub open spec fn lparam_of(self) -> int {
        match self {
            ListBoxRequest::AddString { text } => text as int,
            ListBoxRequest::InsertString { text, .. } => text as int,
            ListBoxRequest::AddItemData { data } => data as int,
            ListBoxRequest::InsertItemData { data, .. } => data as int,
            ListBoxRequest::GetText { buffer, .. } => buffer as int,
            ListBoxRequest::SetItemData { data, .. } => data as int,
            ListBoxRequest::FindString { text, .. } => text as int,
            ListBoxRequest::FindItemData { data, .. } => data as int,
            ListBoxRequest::SetSel { index, .. } => index as int,
            ListBoxRequest::SelItemRange { first, last, .. } => lparam_of_words(
                first as int,
                last as int,
            ),
            ListBoxRequest::SelectString { text, .. } => text as int,
            ListBoxRequest::SelectItemData { data, .. } => data as int,
            ListBoxRequest::GetSelItems { items, .. } => items as int,
            ListBoxRequest::SetTabStops { tabs, .. } => tabs as int,
            ListBoxRequest::GetItemRect { rect, .. } => rect as int,
            ListBoxRequest::FindStringExact { text, .. } => text as int,
            ListBoxRequest::SetItemHeight { height, .. } => lparam_of_words(height as int, 0),
            ListBoxRequest::Dir { file_spec, .. } => file_spec as int,
            _ => 0,
        }
    }

    /// The message that asks a list box for this request.
    pub fn message(&self) -> (m: WindowMessage)
        ensures
            m.msg == self.msg_of(),
            m.wparam == self.wparam_of(),
            m.lparam == self.lparam_of(),
    {
        match *self {
            ListBoxRequest::GetCount => WindowMessage { msg: LB_GETCOUNT, wparam: 0, lparam: 0 },
            ListBoxRequest::ResetContent => WindowMessage {
                msg: LB_RESETCONTENT,
                wparam: 0,
                lparam: 0,
            },
            ListBoxRequest::AddString { text } => WindowMessage {
                msg: LB_ADDSTRING,
                wparam: 0,
                lparam: text,
            },
            ListBoxRequest::InsertString { index, text } => WindowMessage {
                msg: LB_INSERTSTRING,
                wparam: int_to_wparam(index),
                lparam: text,
            },
            ListBoxRequest::AddItemData { data } => WindowMessage {
                msg: LB_ADDSTRING,
                wparam: 0,
                lparam: data,
            },
            ListBoxRequest::InsertItemData { index, data } => WindowMessage {
                msg: LB_INSERTSTRING,
                wparam: int_to_wparam(index),
                lparam: data,
            },
            ListBoxRequest::DeleteString { index } => WindowMessage {
                msg: LB_DELETESTRING,
                wparam: int_to_wparam(index),
                lparam: 0,
            },
            ListBoxRequest::GetTextLen { index } => WindowMessage {
                msg: LB_GETTEXTLEN,
                wparam: int_to_wparam(index),
                lparam: 0,
            },
            ListBoxRequest::GetText { index, buffer } => WindowMessage {
                msg: LB_GETTEXT,
                wparam: int_to_wparam(index),
                lparam: buffer,
            },
            ListBoxRequest::GetItemData { index } => WindowMessage {
                msg: LB_GETITEMDATA,
                wparam: int_to_wparam(index),
                lparam: 0,
            },
            ListBoxRequest::SetItemData { index, data } => WindowMessage {
                msg: LB_SETITEMDATA,
                wparam: int_to_wparam(index),
                lparam: data,
            },
            ListBoxRequest::FindString { start, text } => WindowMessage {
                msg: LB_FINDSTRING,
                wparam: int_to_wparam(start),
                lparam: text,
            },
            ListBoxRequest::FindItemData { start, data } => WindowMessage {
                msg: LB_FINDSTRING,
                wparam: int_to_wparam(start),
                lparam: data,
            },
            ListBoxRequest::SetSel { select, index } => WindowMessage {
                msg: LB_SETSEL,
                wparam: int_to_wparam(select),
                lparam: index as LPARAM,
            },
            ListBoxRequest::SelItemRange { select, first, last } => WindowMessage {
                msg: LB_SELITEMRANGE,
                wparam: int_to_wparam(select),
                lparam: MAKELPARAM(first, last),
            },
            ListBoxRequest::GetCurSel => WindowMessage { msg: LB_GETCURSEL, wparam: 0, lparam: 0 },
            ListBoxRequest::SetCurSel { index } => WindowMessage {
                msg: LB_SETCURSEL,
                wparam: int_to_wparam(index),
                lparam: 0,
            },
            ListBoxRequest::SelectString { start, text } => WindowMessage {
                msg: LB_SELECTSTRING,
                wparam: int_to_wparam(start),
                lparam: text,
            },
            ListBoxRequest::SelectItemData { start, data } => WindowMessage {
                msg: LB_SELECTSTRING,
                wparam: int_to_wparam(start),
                lparam: data,
            },
            ListBoxRequest::GetSel { index } => WindowMessage {
                msg: LB_GETSEL,
                wparam: int_to_wparam(index),
                lparam: 0,
            },
            ListBoxRequest::GetSelCount => WindowMessage {
                msg: LB_GETSELCOUNT,
                wparam: 0,
                lparam: 0,
            },
            ListBoxRequest::GetTopIndex => WindowMessage {
                msg: LB_GETTOPINDEX,
                wparam: 0,
                lparam: 0,
            },
            ListBoxRequest::GetSelItems { max_items, items } => WindowMessage {
                msg: LB_GETSELITEMS,
                wparam: int_to_wparam(max_items),
                lparam: items,
            },
            ListBoxRequest::SetTopIndex { index } => WindowMessage {
                msg: LB_SETTOPINDEX,
                wparam: int_to_wparam(index),
                lparam: 0,
            },
            ListBoxRequest::SetColumnWidth { width } => WindowMessage {
                msg: LB_SETCOLUMNWIDTH,
                wparam: int_to_wparam(width),
                lparam: 0,
            },
            ListBoxRequest::GetHorizontalExtent => WindowMessage {
                msg: LB_GETHORIZONTALEXTENT,
                wparam: 0,
                lparam: 0,
            },
            ListBoxRequest::SetHorizontalExtent { extent } => WindowMessage {
                msg: LB_SETHORIZONTALEXTENT,
                wparam: int_to_wparam(extent),
                lparam: 0,
            },
            ListBoxRequest::SetTabStops { count, tabs } => WindowMessage {
                msg: LB_SETTABSTOPS,
                wparam: int_to_wparam(count),
                lparam: tabs,
            },
            ListBoxRequest::GetItemRect { index, rect } => WindowMessage {
                msg: LB_GETITEMRECT,
                wparam: int_to_wparam(index),
                lparam: rect,
            },
            ListBoxRequest::SetCaretIndex { index } => WindowMessage {
                msg: LB_SETCARETINDEX,
                wparam: int_to_wparam(index),
                lparam: 0,
            },
            ListBoxRequest::GetCaretIndex => WindowMessage {
                msg: LB_GETCARETINDEX,
                wparam: 0,
                lparam: 0,
            },
            ListBoxRequest::FindStringExact { start, text } => WindowMessage {
                msg: LB_FINDSTRINGEXACT,
                wparam: int_to_wparam(start),
                lparam: text,
            },
            ListBoxRequest::SetItemHeight { index, height } => WindowMessage {
                msg: LB_SETITEMHEIGHT,
                wparam: int_to_wparam(index),
                lparam: MAKELPARAM(height, 0),
            },
            ListBoxRequest::GetItemHeight { index } => WindowMessage {
                msg: LB_GETITEMHEIGHT,
                wparam: int_to_wparam(index),
                lparam: 0,
            },
            ListBoxRequest::Dir { attrs, file_spec } => WindowMessage {
                msg: LB_DIR,
                wparam: attrs as WPARAM,
                lparam: file_spec,
            },
        }
    }
}

/// A reply that fits a C `int` reads back unchanged, so `LB_OKAY`, `LB_ERR`
/// and `LB_ERRSPACE` come through as themselves.
pub proof fn lemma_reply_keeps_int(r: int)
    requires
        i32::MIN <= r <= i32::MAX,
    ensures
        int_of_low_bits(r) == r,
{
}

/// A C `int` argument sent in a `WPARAM` reads back as the same `int` on the
/// receiving side, negative indices included.
pub proof fn lemma_int_wparam_round_trip(v: c_int)
    ensures
        0 <= int_wparam(v as int) <= usize::MAX,
        int_of_low_bits(int_wparam(v as int)) == v,
{
}

/// Every list box request goes out as a list box message, with parameters
/// that fit their types, and a packed range or height reads back from the
/// `LPARAM`'s low and high words.
pub proof fn lemma_request_message(req: ListBoxRequest)
    ensures
        LB_ADDSTRING <= req.msg_of() <= LB_FINDSTRINGEXACT,
        0 <= req.wparam_of() <= usize::MAX,
        isize::MIN <= req.lparam_of() <= isize::MAX,
        req matches ListBoxRequest::SelItemRange { first, last, .. } ==> {
            &&& low_word(low_dword(req.lparam_of())) == first
            &&& high_word(low_dword(req.lparam_of())) == last
        },
        req matches ListBoxRequest::SetItemHeight { height, .. } ==> {
            &&& low_word(low_dword(req.lparam_of())) == height
            &&& high_word(low_dword(req.lparam_of())) == 0
        },
{
    match req {
        ListBoxRequest::SelItemRange { first, last, .. } => {
            lemma_words_round_trip(first, last);
        },
        ListBoxRequest::SetItemHeight { height, .. } => {
            lemma_words_round_trip(height, 0);
        },
        _ => {},
    }
}

/// How a C `int` argument `v` travels in a pointer-sized unsigned parameter
/// `w`: as itself when it is not negative, else with all the bits above it set
/// (so that `w` plus `-v` wraps around to zero), and the receiver reads `v`
/// back from the low 32 bits.
pub open spec fn sends_int(w: int, v: int) -> bool {
    &&& 0 <= w <= usize::MAX
    &&& (v >= 0 ==> w == v)
    &&& (v < 0 ==> w == usize::MAX + 1 + v)
    &&& int_of_low_bits(w) == v
}

/// Every C `int` is sent in a `WPARAM` as `sends_int` says.
pub proof fn lemma_sends_int(v: c_int)
    ensures
        sends_int(int_wparam(v as int), v as int),
{
    lemma_int_wparam_round_trip(v);
}

/// Each request goes out as its own list box message (`winuser.h` numbers):
/// an item added by string or by data both use `LB_ADDSTRING`, and so on for
/// the insert, find and select pairs.
pub proof fn lemma_request_message_id(req: ListBoxRequest)
    ensures
        req is GetCount ==> req.msg_of() == 0x018B,
        req is ResetContent ==> req.msg_of() == 0x0184,
        req is AddString ==> req.msg_of() == 0x0180,
        req is InsertString ==> req.msg_of() == 0x0181,
        req is AddItemData ==> req.msg_of() == 0x0180,
        req is InsertItemData ==> req.msg_of() == 0x0181,
        req is DeleteString ==> req.msg_of() == 0x0182,
        req is GetTextLen ==> req.msg_of() == 0x018A,
        req is GetText ==> req.msg_of() == 0x0189,
        req is GetItemData ==> req.msg_of() == 0x0199,
        req is SetItemData ==> req.msg_of() == 0x019A,
        req is FindString ==> req.msg_of() == 0x018F,
        req is FindItemData ==> req.msg_of() == 0x018F,
        req is SetSel ==> req.msg_of() == 0x0185,
        req is SelItemRange ==> req.msg_of() == 0x019B,
        req is GetCurSel ==> req.msg_of() == 0x0188,
        req is SetCurSel ==> req.msg_of() == 0x0186,
        req is SelectString ==> req.msg_of() == 0x018C,
        req is SelectItemData ==> req.msg_of() == 0x018C,
        req is GetSel ==> req.msg_of() == 0x0187,
        req is GetSelCount ==> req.msg_of() == 0x0190,
        req is GetTopIndex ==> req.msg_of() == 0x018E,
        req is GetSelItems ==> req.msg_of() == 0x0191,
        req is SetTopIndex ==> req.msg_of() == 0x0197,
        req is SetColumnWidth ==> req.msg_of() == 0x0195,
        req is GetHorizontalExtent ==> req.msg_of() == 0x0193,
        req is SetHorizontalExtent ==> req.msg_of() == 0x0194,
        req is SetTabStops ==> req.msg_of() == 0x0192,
        req is GetItemRect ==> req.msg_of() == 0x0198,
        req is SetCaretIndex ==> req.msg_of() == 0x019E,
        req is GetCaretIndex ==> req.msg_of() == 0x019F,
        req is FindStringExact ==> req.msg_of() == 0x01A2,
        req is SetItemHeight ==> req.msg_of() == 0x01A0,
        req is GetItemHeight ==> req.msg_of() == 0x01A1,
        req is Dir ==> req.msg_of() == 0x018D,
{
}

/// The `WPARAM` of each request is the index, start, count, width, extent or
/// selection flag that the caller gave, sent as a C `int`, or the file
/// attributes as they are; requests without such an argument send zero.
pub proof fn lemma_request_wparam(req: ListBoxRequest)
    ensures
        req is GetCount ==> req.wparam_of() == 0,
        req is ResetContent ==> req.wparam_of() == 0,
        req is AddString ==> req.wparam_of() == 0,
        req matches ListBoxRequest::InsertString { index, .. } ==> sends_int(req.wparam_of(), index as int),
        req is AddItemData ==> req.wparam_of() == 0,
        req matches ListBoxRequest::InsertItemData { index, .. } ==> sends_int(req.wparam_of(), index as int),
        req matches ListBoxRequest::DeleteString { index, .. } ==> sends_int(req.wparam_of(), index as int),
        req matches ListBoxRequest::GetTextLen { index, .. } ==> sends_int(req.wparam_of(), index as int),
        req matches ListBoxRequest::GetText { index, .. } ==> sends_int(req.wparam_of(), index as int),
        req matches ListBoxRequest::GetItemData { index, .. } ==> sends_int(req.wparam_of(), index as int),
        req matches ListBoxRequest::SetItemData { index, .. } ==> sends_int(req.wparam_of(), index as int),
        req matches ListBoxRequest::FindString { start, .. } ==> sends_int(req.wparam_of(), start as int),
        req matches ListBoxRequest::FindItemData { start, .. } ==> sends_int(req.wparam_of(), start as int),
        req matches ListBoxRequest::SetSel { select, .. } ==> sends_int(req.wparam_of(), select as int),
        req matches ListBoxRequest::SelItemRange { select, .. } ==> sends_int(req.wparam_of(), select as int),
        req is GetCurSel ==> req.wparam_of() == 0,
        req matches ListBoxRequest::SetCurSel { index, .. } ==> sends_int(req.wparam_of(), index as int),
        req matches ListBoxRequest::SelectString { start, .. } ==> sends_int(req.wparam_of(), start as int),
        req matches ListBoxRequest::SelectItemData { start, .. } ==> sends_int(req.wparam_of(), start as int),
        req matches ListBoxRequest::GetSel { index, .. } ==> sends_int(req.wparam_of(), index as int),
        req is GetSelCount ==> req.wparam_of() == 0,
        req is GetTopIndex ==> req.wparam_of() == 0,
        req matches ListBoxRequest::GetSelItems { max_items, .. } ==> sends_int(req.wparam_of(), max_items as int),
        req matches ListBoxRequest::SetTopIndex { index, .. } ==> sends_int(req.wparam_of(), index as int),
        req matches ListBoxRequest::SetColumnWidth { width, .. } ==> sends_int(req.wparam_of(), width as int),
        req is GetHorizontalExtent ==> req.wparam_of() == 0,
        req matches ListBoxRequest::SetHorizontalExtent { extent, .. } ==> sends_int(req.wparam_of(), extent as int),
        req matches ListBoxRequest::SetTabStops { count, .. } ==> sends_int(req.wparam_of(), count as int),
        req matches ListBoxRequest::GetItemRect { index, .. } ==> sends_int(req.wparam_of(), index as int),
        req matches ListBoxRequest::SetCaretIndex { index, .. } ==> sends_int(req.wparam_of(), index as int),
        req is GetCaretIndex ==> req.wparam_of() == 0,
        req matches ListBoxRequest::FindStringExact { start, .. } ==> sends_int(req.wparam_of(), start as int),
        req matches ListBoxRequest::SetItemHeight { index, .. } ==> sends_int(req.wparam_of(), index as int),
        req matches ListBoxRequest::GetItemHeight { index, .. } ==> sends_int(req.wparam_of(), index as int),
        req matches ListBoxRequest::Dir { attrs, .. } ==> req.wparam_of() == attrs as int,
{
    match req {
        ListBoxRequest::InsertString { index, .. } => lemma_sends_int(index),
        ListBoxRequest::InsertItemData { index, .. } => lemma_sends_int(index),
        ListBoxRequest::DeleteString { index, .. } => lemma_sends_int(index),
        ListBoxRequest::GetTextLen { index, .. } => lemma_sends_int(index),
        ListBoxRequest::GetText { index, .. } => lemma_sends_int(index),
        ListBoxRequest::GetItemData { index, .. } => lemma_sends_int(index),
        ListBoxRequest::SetItemData { index, .. } => lemma_sends_int(index),
        ListBoxRequest::FindString { start, .. } => lemma_sends_int(start),
        ListBoxRequest::FindItemData { start, .. } => lemma_sends_int(start),
        ListBoxRequest::SetSel { select, .. } => lemma_sends_int(select),
        ListBoxRequest::SelItemRange { select, .. } => lemma_sends_int(select),
        ListBoxRequest::SetCurSel { index, .. } => lemma_sends_int(index),
        ListBoxRequest::SelectString { start, .. } => lemma_sends_int(start),
        ListBoxRequest::SelectItemData { start, .. } => lemma_sends_int(start),
        ListBoxRequest::GetSel { index, .. } => lemma_sends_int(index),
        ListBoxRequest::GetSelItems { max_items, .. } => lemma_sends_int(max_items),
        ListBoxRequest::SetTopIndex { index, .. } => lemma_sends_int(index),
        ListBoxRequest::SetColumnWidth { width, .. } => lemma_sends_int(width),
        ListBoxRequest::SetHorizontalExtent { extent, .. } => lemma_sends_int(extent),
        ListBoxRequest::SetTabStops { count, .. } => lemma_sends_int(count),
        ListBoxRequest::GetItemRect { index, .. } => lemma_sends_int(index),
        ListBoxRequest::SetCaretIndex { index, .. } => lemma_sends_int(index),
        ListBoxRequest::FindStringExact { start, .. } => lemma_sends_int(start),
        ListBoxRequest::SetItemHeight { index, .. } => lemma_sends_int(index),
        ListBoxRequest::GetItemHeight { index, .. } => lemma_sends_int(index),
        _ => {},
    }
}

/// The `LPARAM` of each request is the string, data, buffer or array address
/// that the caller gave, the index for `SetSel`, the packed range for
/// `SelItemRange` and the packed height for `SetItemHeight`; requests without
/// such an argument send zero.
pub proof fn lemma_request_lparam(req: ListBoxRequest)
    ensures
        req is GetCount ==> req.lparam_of() == 0,
        req is ResetContent ==> req.lparam_of() == 0,
        req matches ListBoxRequest::AddString { text, .. } ==> req.lparam_of() == text as int,
        req matches ListBoxRequest::InsertString { text, .. } ==> req.lparam_of() == text as int,
        req matches ListBoxRequest::AddItemData { data, .. } ==> req.lparam_of() == data as int,
        req matches ListBoxRequest::InsertItemData { data, .. } ==> req.lparam_of() == data as int,
        req is DeleteString ==> req.lparam_of() == 0,
        req is GetTextLen ==> req.lparam_of() == 0,
        req matches ListBoxRequest::GetText { buffer, .. } ==> req.lparam_of() == buffer as int,
        req is GetItemData ==> req.lparam_of() == 0,
        req matches ListBoxRequest::SetItemData { data, .. } ==> req.lparam_of() == data as int,
        req matches ListBoxRequest::FindString { text, .. } ==> req.lparam_of() == text as int,
        req matches ListBoxRequest::FindItemData { data, .. } ==> req.lparam_of() == data as int,
        req matches ListBoxRequest::SetSel { index, .. } ==> req.lparam_of() == index as int,
        req matches ListBoxRequest::SelItemRange { first, last, .. } ==> carries_words(req.lparam_of(), first as int, last as int),
        req is GetCurSel ==> req.lparam_of() == 0,
        req is SetCurSel ==> req.lparam_of() == 0,
        req matches ListBoxRequest::SelectString { text, .. } ==> req.lparam_of() == text as int,
        req matches ListBoxRequest::SelectItemData { data, .. } ==> req.lparam_of() == data as int,
        req is GetSel ==> req.lparam_of() == 0,
        req is GetSelCount ==> req.lparam_of() == 0,
        req is GetTopIndex ==> req.lparam_of() == 0,
        req matches ListBoxRequest::GetSelItems { items, .. } ==> req.lparam_of() == items as int,
        req is SetTopIndex ==> req.lparam_of() == 0,
        req is SetColumnWidth ==> req.lparam_of() == 0,
        req is GetHorizontalExtent ==> req.lparam_of() == 0,
        req is SetHorizontalExtent ==> req.lparam_of() == 0,
        req matches ListBoxRequest::SetTabStops { tabs, .. } ==> req.lparam_of() == tabs as int,
        req matches ListBoxRequest::GetItemRect { rect, .. } ==> req.lparam_of() == rect as int,
        req is SetCaretIndex ==> req.lparam_of() == 0,
        req is GetCaretIndex ==> req.lparam_of() == 0,
        req matches ListBoxRequest::FindStringExact { text, .. } ==> req.lparam_of() == text as int,
        req matches ListBoxRequest::SetItemHeight { height, .. } ==> carries_words(req.lparam_of(), height as int, 0),
        req is GetItemHeight ==> req.lparam_of() == 0,
        req matches ListBoxRequest::Dir { file_spec, .. } ==> req.lparam_of() == file_spec as int,
{
    match req {
        ListBoxRequest::SelItemRange { first, last, .. } => {
            lemma_words_round_trip(first, last);
        },
        ListBoxRequest::SetItemHeight { height, .. } => {
            lemma_words_round_trip(height, 0);
        },
        _ => {},
    }
}

/// A reply read as a C `int` is the one `int` that has the reply's low 32
/// bits: within the range of `i32` and equal to the reply modulo 2^32.
pub proof fn lemma_reply_int(r: LRESULT)
    ensures
        i32::MIN <= int_of_low_bits(r as int) <= i32::MAX,
        (int_of_low_bits(r as int) - r) % 0x1_0000_0000 == 0,
{
}

} // verus!
