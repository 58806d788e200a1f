use extras::listbox::{
    reply_to_int, int_to_wparam, ListBoxRequest, WindowMessage, LB_ADDSTRING, LB_DELETESTRING,
    LB_DIR, LB_ERR, LB_ERRSPACE, LB_FINDSTRING, LB_FINDSTRINGEXACT, LB_GETCARETINDEX,
    LB_GETCOUNT, LB_GETCURSEL, LB_GETHORIZONTALEXTENT, LB_GETITEMDATA, LB_GETITEMHEIGHT,
    LB_GETITEMRECT, LB_GETSEL, LB_GETSELCOUNT, LB_GETSELITEMS, LB_GETTEXT, LB_GETTEXTLEN,
    LB_GETTOPINDEX, LB_INSERTSTRING, LB_OKAY, LB_RESETCONTENT, LB_SELECTSTRING,
    LB_SELITEMRANGE, LB_SETCARETINDEX, LB_SETCOLUMNWIDTH, LB_SETCURSEL,
    LB_SETHORIZONTALEXTENT, LB_SETITEMDATA, LB_SETITEMHEIGHT, LB_SETSEL, LB_SETTABSTOPS,
    LB_SETTOPINDEX,
};
use extras::window::{DDL_DIRECTORY, DDL_DRIVES, DDL_EXCLUSIVE};
use extras::words::MAKELPARAM;

fn msg(msg: u32, wparam: usize, lparam: isize) -> WindowMessage {
    WindowMessage { msg, wparam, lparam }
}

#[test]
fn message_ids_match_winuser() {
    assert_eq!(LB_ADDSTRING, 0x0180);
    assert_eq!(LB_GETCOUNT, 0x018B);
    assert_eq!(LB_FINDSTRINGEXACT, 0x01A2);
    assert_eq!(LB_OKAY, 0);
    assert_eq!(LB_ERR, -1);
    assert_eq!(LB_ERRSPACE, -2);
}

#[test]
fn requests_without_arguments() {
    assert_eq!(ListBoxRequest::GetCount.message(), msg(LB_GETCOUNT, 0, 0));
    assert_eq!(ListBoxRequest::ResetContent.message(), msg(LB_RESETCONTENT, 0, 0));
    assert_eq!(ListBoxRequest::GetCurSel.message(), msg(LB_GETCURSEL, 0, 0));
    assert_eq!(ListBoxRequest::GetSelCount.message(), msg(LB_GETSELCOUNT, 0, 0));
    assert_eq!(ListBoxRequest::GetTopIndex.message(), msg(LB_GETTOPINDEX, 0, 0));
    assert_eq!(ListBoxRequest::GetHorizontalExtent.message(), msg(LB_GETHORIZONTALEXTENT, 0, 0));
    assert_eq!(ListBoxRequest::GetCaretIndex.message(), msg(LB_GETCARETINDEX, 0, 0));
}

#[test]
fn strings_and_item_data_go_in_lparam() {
    assert_eq!(ListBoxRequest::AddString { text: 0x1000 }.message(), msg(LB_ADDSTRING, 0, 0x1000));
    assert_eq!(ListBoxRequest::AddItemData { data: -7 }.message(), msg(LB_ADDSTRING, 0, -7));
    assert_eq!(
        ListBoxRequest::InsertString { index: 2, text: 0x2000 }.message(),
        msg(LB_INSERTSTRING, 2, 0x2000)
    );
    assert_eq!(
        ListBoxRequest::InsertItemData { index: 3, data: 42 }.message(),
        msg(LB_INSERTSTRING, 3, 42)
    );
    assert_eq!(
        ListBoxRequest::SetItemData { index: 4, data: 9 }.message(),
        msg(LB_SETITEMDATA, 4, 9)
    );
    assert_eq!(
        ListBoxRequest::GetText { index: 1, buffer: 0x3000 }.message(),
        msg(LB_GETTEXT, 1, 0x3000)
    );
}

#[test]
fn negative_index_is_sign_extended() {
    assert_eq!(
        ListBoxRequest::InsertString { index: -1, text: 0x10 }.message(),
        msg(LB_INSERTSTRING, usize::MAX, 0x10)
    );
    assert_eq!(
        ListBoxRequest::FindString { start: -1, text: 0x20 }.message(),
        msg(LB_FINDSTRING, usize::MAX, 0x20)
    );
    assert_eq!(int_to_wparam(-2), usize::MAX - 1);
    assert_eq!(int_to_wparam(i32::MAX), i32::MAX as usize);
    // The window procedure reads the index back from the low 32 bits.
    assert_eq!(int_to_wparam(-5) as u32 as i32, -5);
}

#[test]
fn index_only_requests() {
    assert_eq!(ListBoxRequest::DeleteString { index: 5 }.message(), msg(LB_DELETESTRING, 5, 0));
    assert_eq!(ListBoxRequest::GetTextLen { index: 6 }.message(), msg(LB_GETTEXTLEN, 6, 0));
    assert_eq!(ListBoxRequest::GetItemData { index: 7 }.message(), msg(LB_GETITEMDATA, 7, 0));
    assert_eq!(ListBoxRequest::SetCurSel { index: -1 }.message(), msg(LB_SETCURSEL, usize::MAX, 0));
    assert_eq!(ListBoxRequest::GetSel { index: 8 }.message(), msg(LB_GETSEL, 8, 0));
    assert_eq!(ListBoxRequest::SetTopIndex { index: 9 }.message(), msg(LB_SETTOPINDEX, 9, 0));
    assert_eq!(ListBoxRequest::SetCaretIndex { index: 10 }.message(), msg(LB_SETCARETINDEX, 10, 0));
    assert_eq!(ListBoxRequest::GetItemHeight { index: 0 }.message(), msg(LB_GETITEMHEIGHT, 0, 0));
    assert_eq!(ListBoxRequest::SetColumnWidth { width: 120 }.message(), msg(LB_SETCOLUMNWIDTH, 120, 0));
    assert_eq!(
        ListBoxRequest::SetHorizontalExtent { extent: 300 }.message(),
        msg(LB_SETHORIZONTALEXTENT, 300, 0)
    );
}

#[test]
fn searches_start_after_an_index() {
    assert_eq!(
        ListBoxRequest::FindItemData { start: 3, data: 77 }.message(),
        msg(LB_FINDSTRING, 3, 77)
    );
    assert_eq!(
        ListBoxRequest::SelectString { start: -1, text: 0x40 }.message(),
        msg(LB_SELECTSTRING, usize::MAX, 0x40)
    );
    assert_eq!(
        ListBoxRequest::SelectItemData { start: 0, data: 1 }.message(),
        msg(LB_SELECTSTRING, 0, 1)
    );
    assert_eq!(
        ListBoxRequest::FindStringExact { start: 2, text: 0x50 }.message(),
        msg(LB_FINDSTRINGEXACT, 2, 0x50)
    );
}

#[test]
fn selection_requests() {
    assert_eq!(
        ListBoxRequest::SetSel { select: 1, index: -1 }.message(),
        msg(LB_SETSEL, 1, -1)
    );
    assert_eq!(
        ListBoxRequest::SelItemRange { select: 1, first: 2, last: 9 }.message(),
        msg(LB_SELITEMRANGE, 1, MAKELPARAM(2, 9))
    );
    assert_eq!(
        ListBoxRequest::SelItemRange { select: 0, first: 2, last: 9 }.message().lparam,
        0x0009_0002
    );
    assert_eq!(
        ListBoxRequest::GetSelItems { max_items: 16, items: 0x60 }.message(),
        msg(LB_GETSELITEMS, 16, 0x60)
    );
}

#[test]
fn layout_requests() {
    assert_eq!(
        ListBoxRequest::SetTabStops { count: 3, tabs: 0x70 }.message(),
        msg(LB_SETTABSTOPS, 3, 0x70)
    );
    assert_eq!(
        ListBoxRequest::GetItemRect { index: 1, rect: 0x80 }.message(),
        msg(LB_GETITEMRECT, 1, 0x80)
    );
    assert_eq!(
        ListBoxRequest::SetItemHeight { index: 0, height: 18 }.message(),
        msg(LB_SETITEMHEIGHT, 0, 18)
    );
}

#[test]
fn dir_attributes_are_zero_extended() {
    let attrs = DDL_DRIVES | DDL_DIRECTORY | DDL_EXCLUSIVE;
    assert_eq!(
        ListBoxRequest::Dir { attrs, file_spec: 0x90 }.message(),
        msg(LB_DIR, 0xC010, 0x90)
    );
    assert_eq!(
        ListBoxRequest::Dir { attrs: u32::MAX, file_spec: 0 }.message().wparam,
        u32::MAX as usize
    );
}

#[test]
fn replies_read_as_int() {
    assert_eq!(reply_to_int(-1), LB_ERR);
    assert_eq!(reply_to_int(-2), LB_ERRSPACE);
    assert_eq!(reply_to_int(0), LB_OKAY);
    assert_eq!(reply_to_int(42), 42);
    assert_eq!(reply_to_int(i32::MIN as isize), i32::MIN);
    assert_eq!(reply_to_int(0xFFFF_FFFF_u32 as isize), -1);
}

#[test]
fn replies_keep_only_the_low_32_bits() {
    if isize::BITS == 64 {
        assert_eq!(reply_to_int(((1u64 << 32) | 5) as isize), 5);
        assert_eq!(reply_to_int(0x7FFF_FFFF_0000_0003_u64 as isize), 3);
    }
}
