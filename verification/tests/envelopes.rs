//! Every command function maps its typed arguments to one fixed envelope;
//! these tests pin the method names and parameter shapes on the wire.

use xi_client::Client;
use xi_client::Json;
use xi_client::Message;
use xi_client::Outbound;
use xi_client::ViewId;

fn s(text: &str) -> String {
    text.to_string()
}

fn vid() -> ViewId {
    ViewId(s("view-id-1"))
}

fn edit_note(inner: &str, params: Json) -> Outbound {
    Outbound::Notification(Message {
        method: s("edit"),
        params: Json::Obj(vec![
            (s("method"), Json::Str(s(inner))),
            (s("view_id"), Json::Str(s("view-id-1"))),
            (s("params"), params),
        ]),
    })
}

fn edit_req(inner: &str, params: Json) -> Outbound {
    Outbound::Request(Message {
        method: s("edit"),
        params: Json::Obj(vec![
            (s("method"), Json::Str(s(inner))),
            (s("view_id"), Json::Str(s("view-id-1"))),
            (s("params"), params),
        ]),
    })
}

fn empty_params() -> Json {
    Json::Arr(vec![])
}

#[test]
fn scroll_sends_line_window() {
    let c = Client::new();
    let got = c.scroll(vid(), 21, 80).unwrap();
    let want = edit_note("scroll", Json::Arr(vec![Json::UInt(21), Json::UInt(80)]));
    assert_eq!(got, want);
}

#[test]
fn goto_line_sends_line_object() {
    let c = Client::new();
    let got = c.goto_line(vid(), 42).unwrap();
    let want = edit_note("goto_line", Json::Obj(vec![(s("line"), Json::UInt(42))]));
    assert_eq!(got, want);
}

#[test]
fn copy_and_cut_are_requests() {
    let c = Client::new();
    assert_eq!(c.copy(vid()).unwrap(), edit_req("copy", empty_params()));
    assert_eq!(c.cut(vid()).unwrap(), edit_req("cut", empty_params()));
}

#[test]
fn paste_sends_chars() {
    let c = Client::new();
    let got = c.paste(vid(), "hello").unwrap();
    let want = edit_note("paste", Json::Obj(vec![(s("chars"), Json::Str(s("hello")))]));
    assert_eq!(got, want);
}

#[test]
fn undo_redo_carry_empty_params() {
    let c = Client::new();
    assert_eq!(c.undo(vid()).unwrap(), edit_note("undo", empty_params()));
    assert_eq!(c.redo(vid()).unwrap(), edit_note("redo", empty_params()));
}

#[test]
fn find_sends_term_and_flags() {
    let c = Client::new();
    let got = c.find(vid(), "needle", true, false, true).unwrap();
    let want = edit_note(
        "find",
        Json::Obj(vec![
            (s("chars"), Json::Str(s("needle"))),
            (s("case_sensitive"), Json::Bool(true)),
            (s("regex"), Json::Bool(false)),
            (s("whole_words"), Json::Bool(true)),
        ]),
    );
    assert_eq!(got, want);
}

fn nav_params(wrap_around: bool, allow_same: bool, modify: &str) -> Json {
    Json::Obj(vec![
        (s("wrap_around"), Json::Bool(wrap_around)),
        (s("allow_same"), Json::Bool(allow_same)),
        (s("modify_selection"), Json::Str(s(modify))),
    ])
}

#[test]
fn find_next_and_prev_spell_modify_selection() {
    let c = Client::new();
    let got = c
        .find_next(vid(), true, false, xi_client::ModifySelection::Nothing)
        .unwrap();
    assert_eq!(got, edit_note("find_next", nav_params(true, false, "none")));
    let got = c
        .find_next(vid(), false, true, xi_client::ModifySelection::Assign)
        .unwrap();
    assert_eq!(got, edit_note("find_next", nav_params(false, true, "set")));
    let got = c
        .find_prev(vid(), true, true, xi_client::ModifySelection::Add)
        .unwrap();
    assert_eq!(
        got,
        edit_note("find_previous", nav_params(true, true, "add"))
    );
}

#[test]
fn find_all_and_highlight_find() {
    let c = Client::new();
    assert_eq!(c.find_all(vid()).unwrap(), edit_note("find_all", empty_params()));
    assert_eq!(
        c.highlight_find(vid(), true).unwrap(),
        edit_note("highlight_find", Json::Obj(vec![(s("visible"), Json::Bool(true))]))
    );
}

#[test]
fn movement_methods_use_their_wire_names() {
    let c = Client::new();
    assert_eq!(c.left(vid()).unwrap(), edit_note("move_left", empty_params()));
    assert_eq!(
        c.left_sel(vid()).unwrap(),
        edit_note("move_left_and_modify_selection", empty_params())
    );
    assert_eq!(c.right(vid()).unwrap(), edit_note("move_right", empty_params()));
    assert_eq!(
        c.right_sel(vid()).unwrap(),
        edit_note("move_right_and_modify_selection", empty_params())
    );
    assert_eq!(c.up(vid()).unwrap(), edit_note("move_up", empty_params()));
    assert_eq!(
        c.up_sel(vid()).unwrap(),
        edit_note("move_up_and_modify_selection", empty_params())
    );
    assert_eq!(c.down(vid()).unwrap(), edit_note("move_down", empty_params()));
    assert_eq!(
        c.down_sel(vid()).unwrap(),
        edit_note("move_down_and_modify_selection", empty_params())
    );
}

#[test]
fn page_and_line_movement_names() {
    let c = Client::new();
    assert_eq!(c.page_up(vid()).unwrap(), edit_note("scroll_page_up", empty_params()));
    assert_eq!(
        c.page_up_sel(vid()).unwrap(),
        edit_note("page_up_and_modify_selection", empty_params())
    );
    assert_eq!(c.page_down(vid()).unwrap(), edit_note("scroll_page_down", empty_params()));
    assert_eq!(
        c.page_down_sel(vid()).unwrap(),
        edit_note("page_down_and_modify_selection", empty_params())
    );
    assert_eq!(
        c.line_start(vid()).unwrap(),
        edit_note("move_to_left_end_of_line", empty_params())
    );
    assert_eq!(
        c.line_start_sel(vid()).unwrap(),
        edit_note("move_to_left_end_of_line_and_modify_selection", empty_params())
    );
    assert_eq!(
        c.line_end(vid()).unwrap(),
        edit_note("move_to_right_end_of_line", empty_params())
    );
    assert_eq!(
        c.line_end_sel(vid()).unwrap(),
        edit_note("move_to_right_end_of_line_and_modify_selection", empty_params())
    );
}

#[test]
fn deletion_methods_and_backspace_alias() {
    let c = Client::new();
    assert_eq!(c.delete(vid()).unwrap(), edit_note("delete_forward", empty_params()));
    assert_eq!(c.del(vid()).unwrap(), edit_note("delete_backward", empty_params()));
    assert_eq!(c.backspace(vid()).unwrap(), edit_note("delete_backward", empty_params()));
}

#[test]
fn selection_and_insertion_commands() {
    let c = Client::new();
    assert_eq!(c.select_all(vid()).unwrap(), edit_note("select_all", empty_params()));
    assert_eq!(
        c.collapse_selections(vid()).unwrap(),
        edit_note("collapse_selections", empty_params())
    );
    assert_eq!(c.insert_newline(vid()).unwrap(), edit_note("insert_newline", empty_params()));
    assert_eq!(c.insert_tab(vid()).unwrap(), edit_note("insert_tab", empty_params()));
}

#[test]
fn debug_commands() {
    let c = Client::new();
    assert_eq!(c.f1(vid()).unwrap(), edit_note("debug_rewrap", empty_params()));
    assert_eq!(c.f2(vid()).unwrap(), edit_note("debug_test_fg_spans", empty_params()));
}

#[test]
fn char_inserts_one_character() {
    let c = Client::new();
    let got = c.char(vid(), 'q').unwrap();
    let want = edit_note("insert", Json::Obj(vec![(s("chars"), Json::Str(s("q")))]));
    assert_eq!(got, want);
}

#[test]
fn click_sends_fixed_modifier_and_count() {
    let c = Client::new();
    let got = c.click(vid(), 3, 5).unwrap();
    let want = edit_note(
        "click",
        Json::Arr(vec![Json::UInt(3), Json::UInt(5), Json::UInt(0), Json::UInt(1)]),
    );
    assert_eq!(got, want);
}

fn gesture(line: u64, col: u64, ty: &str) -> Json {
    Json::Obj(vec![
        (s("line"), Json::UInt(line)),
        (s("col"), Json::UInt(col)),
        (s("ty"), Json::Str(s(ty))),
    ])
}

#[test]
fn gesture_clicks_send_their_kind() {
    let c = Client::new();
    assert_eq!(
        c.click_point_select(vid(), 3, 5).unwrap(),
        edit_note("gesture", gesture(3, 5, "point_select"))
    );
    assert_eq!(
        c.click_toggle_sel(vid(), 1, 2).unwrap(),
        edit_note("gesture", gesture(1, 2, "toggle_sel"))
    );
    assert_eq!(
        c.click_range_select(vid(), 4, 6).unwrap(),
        edit_note("gesture", gesture(4, 6, "range_select"))
    );
    assert_eq!(
        c.click_word_select(vid(), 3, 5).unwrap(),
        edit_note("gesture", gesture(3, 5, "word_select"))
    );
    assert_eq!(
        c.click_multi_line_select(vid(), 7, 8).unwrap(),
        edit_note("gesture", gesture(7, 8, "multi_line_select"))
    );
    assert_eq!(
        c.click_multi_word_select(vid(), 9, 10).unwrap(),
        edit_note("gesture", gesture(9, 10, "multi_word_select"))
    );
}

#[test]
fn line_select_click_rides_on_range_select() {
    let c = Client::new();
    assert_eq!(
        c.click_line_select(vid(), 4, 6).unwrap(),
        edit_note("gesture", gesture(4, 6, "range_select"))
    );
}

#[test]
fn drag_sends_fixed_modifier() {
    let c = Client::new();
    let got = c.drag(vid(), 3, 5).unwrap();
    let want = edit_note("drag", Json::Arr(vec![Json::UInt(3), Json::UInt(5), Json::UInt(0)]));
    assert_eq!(got, want);
}
