use std::cell::Cell;
use tumix::display::{convert_to_round_style, format_age, format_relative_time, select_sessions};
use tumix::pagination::{Pagination, SplitLayout};
use tumix::picker::{CacheLayer, PickerState, PreviewMessage, PreviewSource, SessionInfo, ViewMode};
use tumix::picker_events::{KeyInput, PickerEvent};

struct Files {
    reads: Cell<usize>,
}

impl PreviewSource for Files {
    fn recent_messages(&self, path: &String, _limit: usize) -> Vec<PreviewMessage> {
        self.reads.set(self.reads.get() + 1);
        vec![("User".to_string(), format!("from {path}"), "--:--:--".to_string())]
    }
}

fn session(i: usize) -> SessionInfo {
    SessionInfo {
        id: format!("s{i}"),
        path: format!("/sessions/s{i}.jsonl"),
        cwd: String::new(),
        age: "1m ago".to_string(),
        mtime: i as u64,
        message_count: i,
        last_role: "User".to_string(),
        total_tokens: 0,
        model: "m".to_string(),
    }
}

fn sessions(n: usize) -> Vec<SessionInfo> {
    (0..n).map(session).collect()
}

#[test]
fn split_layout_widths() {
    let l = SplitLayout::new(120, 30);
    assert_eq!(l.left_width, 41);
    assert_eq!(l.right_width, 78);
    assert_eq!(l.left_area(), (0, 0, 41, 30));
    assert_eq!(l.right_area(), (42, 0, 78, 30));
    let z = SplitLayout::new(0, 5);
    assert_eq!((z.left_width, z.right_width), (0, 0));
    let w = SplitLayout::new(21, 1);
    assert_eq!(w.left_width, 7);
}

#[test]
fn pagination_pages() {
    let mut p = Pagination::new(65, 30);
    assert_eq!(p.total_pages(), 3);
    assert_eq!(p.page_range(), 0..30);
    assert!(p.has_next() && !p.has_prev());
    assert!(p.next_page());
    assert!(p.next_page());
    assert_eq!(p.page_range(), 60..65);
    assert!(!p.next_page());
    assert!(p.prev_page());
    assert_eq!(p.current_page, 1);
    p.first_page();
    assert!(!p.prev_page());
    p.last_page();
    assert_eq!(p.current_page, 2);
    let mut e = Pagination::new(0, 30);
    assert_eq!(e.total_pages(), 0);
    e.last_page();
    assert_eq!(e.current_page, 0);
    assert_eq!(e.page_end(), 0);
}

#[test]
fn cache_counts_hits_and_misses() {
    let mut c = CacheLayer::new();
    assert!(c.get_preview("a").is_none());
    c.cache_preview("a".to_string(), vec![("User".into(), "hi".into(), "t".into())]);
    assert_eq!(c.get_preview("a").unwrap()[0].1, "hi");
    c.remove_preview("a");
    assert!(c.get_preview("a").is_none());
    let p = "/x".to_string();
    let first = c.get_or_insert_meta(&p, session(1));
    assert_eq!(first.id, "s1");
    let again = c.get_or_insert_meta(&p, session(2));
    assert_eq!(again.id, "s1");
    assert_eq!(c.stats(), (1, 1, 1, 2));
    c.cache_summary("/x".to_string(), 3, "User".to_string());
    assert!(c.get_summary(&p).is_some());
    c.clear();
    assert!(c.get_summary(&p).is_none());
    assert_eq!(CacheLayer::default().stats(), (0, 0, 0, 0));
}

#[test]
fn picker_prefetches_first_page_once() {
    let files = Files { reads: Cell::new(0) };
    let mut st = PickerState::new(sessions(35), &files);
    assert_eq!(files.reads.get(), 30);
    assert_eq!(st.current_page_sessions().len(), 30);
    let s0 = st.sessions[0].clone();
    let prev = st.get_or_fetch_preview(&s0, 6, &files);
    assert_eq!(prev[0].1, "from /sessions/s0.jsonl");
    assert_eq!(files.reads.get(), 30);
    st.next_page(&files);
    assert_eq!(st.selected_idx, 30);
    assert_eq!(st.current_page_sessions().len(), 5);
    assert_eq!(files.reads.get(), 35);
    st.prev_page(&files);
    assert_eq!(st.selected_idx, 0);
    st.clear_cache();
    assert_eq!(st.cache_stats().2 > 0, true);
}

#[test]
fn selection_moves_within_list() {
    let files = Files { reads: Cell::new(0) };
    let mut st = PickerState::new(sessions(3), &files);
    st.select_prev(&files);
    assert_eq!(st.selected_idx, 0);
    st.select_next(&files);
    st.select_next(&files);
    st.select_next(&files);
    assert_eq!(st.selected_idx, 2);
    st.select_first();
    assert_eq!(st.selected_idx, 0);
    st.select_last();
    assert_eq!(st.selected_idx, 2);
    st.scroll_preview_up();
    assert_eq!(st.scroll_offset_right, 0);
    st.scroll_preview_down();
    assert_eq!(st.scroll_offset_right, 1);
    st.toggle_view_mode();
    assert_eq!(st.view_mode, ViewMode::FullPreview);
    st.toggle_view_mode();
    st.toggle_view_mode();
    assert_eq!(st.view_mode, ViewMode::Split);
    assert_eq!(st.selected_session().unwrap().id, "s2");
}

#[test]
fn keys_map_to_events() {
    assert_eq!(PickerState::key_to_event(KeyInput::Up), Some(PickerEvent::SelectPrev));
    assert_eq!(PickerState::key_to_event(KeyInput::Char('j')), Some(PickerEvent::ScrollDown));
    assert_eq!(PickerState::key_to_event(KeyInput::Esc), Some(PickerEvent::Exit));
    assert_eq!(PickerState::key_to_event(KeyInput::Char('y')), Some(PickerEvent::ConfirmAction));
    assert_eq!(PickerState::key_to_event(KeyInput::Char('z')), None);
}

#[test]
fn delete_flow_removes_session() {
    let files = Files { reads: Cell::new(0) };
    let mut st = PickerState::new(sessions(2), &files);
    st.select_last();
    let out = st.handle_event(PickerEvent::Delete, &files);
    assert!(out.selection.is_none());
    assert!(st.modal_active);
    assert!(st.modal_message.starts_with("Delete session 's1'?"));
    let ignored = st.handle_event(PickerEvent::SelectFirst, &files);
    assert!(ignored.selection.is_none());
    assert_eq!(st.selected_idx, 1);
    let out = st.handle_event(PickerEvent::ConfirmAction, &files);
    assert_eq!(out.delete_path.as_deref(), Some("/sessions/s1.jsonl"));
    assert_eq!(st.sessions.len(), 1);
    assert_eq!(st.selected_idx, 0);
    assert_eq!(st.pagination.total_items, 1);
    assert!(!st.modal_active);
    st.confirm_delete();
    st.handle_event(PickerEvent::CancelAction, &files);
    assert!(!st.modal_active && st.modal_message.is_empty());
    let r = st.handle_event(PickerEvent::Resume, &files);
    assert_eq!(r.selection.as_deref(), Some("s0"));
    let e = st.handle_event(PickerEvent::Exit, &files);
    assert_eq!(e.selection.as_deref(), Some(""));
}

#[test]
fn ages_in_largest_unit() {
    assert_eq!(format_age(100, 100), "0s ago");
    assert_eq!(format_age(159, 100), "59s ago");
    assert_eq!(format_age(3700, 100), "1h ago");
    assert_eq!(format_age(1000, 880), "2m ago");
    assert_eq!(format_age(90000, 0), "1d ago");
    assert_eq!(format_age(604800 * 3, 0), "3w ago");
    assert_eq!(format_age(2592000 * 2, 0), "2mo ago");
    assert_eq!(format_age(31536000 * 5, 0), "5y ago");
    assert_eq!(format_age(0, 50), "0s ago");
    assert!(format_relative_time(0).ends_with("y ago"));
}

#[test]
fn graph_lines_in_round_style() {
    assert_eq!(convert_to_round_style("* | \\ / - x"), "● │ ╲ ╱ ─ x");
    assert_eq!(convert_to_round_style("|\\"), "│╲");
}

#[test]
fn listed_sessions_newest_first_in_directory() {
    let mut found = sessions(4);
    found[1].cwd = "/elsewhere".to_string();
    found[2].cwd = "/here".to_string();
    found[3].mtime = 0;
    let listed = select_sessions(found, "/here").unwrap();
    let ids: Vec<&str> = listed.iter().map(|s| s.id.as_str()).collect();
    assert_eq!(ids, vec!["s2", "s0", "s3"]);
    assert_eq!(
        select_sessions(sessions(0), "/here").unwrap_err(),
        "No sessions found in current working directory"
    );
    let many = select_sessions(sessions(150), "/").unwrap();
    assert_eq!(many.len(), 100);
    assert_eq!(many[0].id, "s149");
}

#[test]
fn largest_sizes_do_not_overflow() {
    let p = Pagination::new(usize::MAX, 1);
    assert_eq!(p.total_pages(), usize::MAX);
    let q = Pagination::new(usize::MAX, 2);
    assert_eq!(q.total_pages(), usize::MAX / 2 + 1);
    let l = SplitLayout::new(u16::MAX, u16::MAX);
    assert_eq!(l.left_width, 22936);
    assert_eq!(l.left_width + l.right_width, u16::MAX - 1);
    assert_eq!(l.right_area().0, 22937);
}
