use bridge_opencode::action::neovim::buffer::{
    find_buffer, get_buffer_status, resolve_path, scan_buffer, visual_selection_json,
    BufferEntry, BufferScan, FindBufferError, LuaReply, SelectionError,
};
use bridge_opencode::action::neovim::{
    delivery_outcome, merge_buffer_statuses, status_step, NeovimAction, SendError, StatusStep,
};
use bridge_opencode::action::BufferStatus;

fn st(is_current: bool, has_unsaved_changes: bool) -> BufferStatus {
    BufferStatus { is_current, has_unsaved_changes }
}

fn entry(name: &str, canonical: Option<&str>) -> Option<BufferEntry> {
    Some(BufferEntry { name: name.to_string(), canonical: canonical.map(|c| c.to_string()) })
}

#[test]
fn neovim_action_keeps_socket_order() {
    let paths = vec!["/tmp/bridge-1.sock".to_string(), "/tmp/bridge-2.sock".to_string()];
    let action = NeovimAction::new(paths.clone());
    assert_eq!(action.socket_paths(), &paths);
}

#[test]
fn merge_no_instances_reports_nothing() {
    assert_eq!(merge_buffer_statuses(&vec![]), st(false, false));
}

#[test]
fn merge_ors_flags() {
    let answers = vec![Some(st(false, false)), Some(st(true, false)), Some(st(false, false))];
    assert_eq!(merge_buffer_statuses(&answers), st(true, false));
}

#[test]
fn merge_stops_at_first_unsaved() {
    let answers = vec![Some(st(false, false)), Some(st(false, true)), None, Some(st(true, false))];
    assert_eq!(merge_buffer_statuses(&answers), st(false, true));
}

#[test]
fn merge_missing_answer_adds_nothing() {
    let answers = vec![Some(st(true, false)), None, Some(st(false, true))];
    assert_eq!(merge_buffer_statuses(&answers), st(true, true));
    assert_eq!(merge_buffer_statuses(&vec![None, Some(st(false, true))]), st(false, true));
    assert_eq!(merge_buffer_statuses(&vec![None, None]), st(false, false));
    assert_eq!(merge_buffer_statuses(&vec![None, Some(st(true, false)), None]), st(true, false));
}

#[test]
fn merge_current_counts_only_up_to_first_unsaved() {
    let answers = vec![Some(st(false, true)), Some(st(true, false))];
    assert_eq!(merge_buffer_statuses(&answers), st(false, true));
}

#[test]
fn delivery_needs_one_instance() {
    assert_eq!(delivery_outcome(&vec![]), Err(SendError::NotDelivered));
    assert_eq!(delivery_outcome(&vec![false, false]), Err(SendError::NotDelivered));
    assert_eq!(delivery_outcome(&vec![false, true, false]), Ok(()));
    assert_eq!(SendError::NotDelivered.message(), "couldn't send to Neovim");
}

#[test]
fn status_step_cases() {
    assert_eq!(status_step(st(true, false), None), StatusStep::Continue(st(true, false)));
    assert_eq!(status_step(st(true, false), Some(st(false, false))), StatusStep::Continue(st(true, false)));
    assert_eq!(status_step(st(false, false), Some(st(true, true))), StatusStep::Done(st(true, true)));
}

#[test]
fn resolve_prefers_canonical() {
    assert_eq!(resolve_path("a.txt", Some("/home/u/a.txt".to_string())), "/home/u/a.txt");
    assert_eq!(resolve_path("a.txt", None), "a.txt");
}

#[test]
fn scan_buffer_cases() {
    assert_eq!(scan_buffer("/p/a.rs", &None), BufferScan::Unreadable);
    assert_eq!(scan_buffer("/p/a.rs", &entry("", None)), BufferScan::Skip);
    assert_eq!(scan_buffer("/p/a.rs", &entry("a.rs", Some("/p/a.rs"))), BufferScan::Found);
    assert_eq!(scan_buffer("/p/a.rs", &entry("/p/b.rs", None)), BufferScan::Skip);
    assert_eq!(scan_buffer("/p/a.rs", &entry("/p//a.rs/", None)), BufferScan::Found);
}

#[test]
fn find_buffer_first_match() {
    let buffers = vec![
        entry("", None),
        entry("/p/b.rs", None),
        entry("a.rs", Some("/p/a.rs")),
        entry("/p/a.rs", None),
    ];
    assert_eq!(find_buffer("/p/a.rs", None, &buffers), Ok(2));
    assert_eq!(find_buffer("src/../a.rs", Some("/p/a.rs".to_string()), &buffers), Ok(2));
}

#[test]
fn find_buffer_unreadable_name_before_match() {
    let buffers = vec![entry("/p/b.rs", None), None, entry("/p/a.rs", None)];
    assert_eq!(find_buffer("/p/a.rs", None, &buffers), Err(FindBufferError::NameUnreadable(1)));
}

#[test]
fn find_buffer_match_before_unreadable_name() {
    let buffers = vec![entry("/p/a.rs", None), None];
    assert_eq!(find_buffer("/p/a.rs", None, &buffers), Ok(0));
}

#[test]
fn find_buffer_not_open() {
    let buffers = vec![entry("/p/b.rs", None), entry("", None)];
    assert_eq!(find_buffer("/p/a.rs", None, &buffers), Err(FindBufferError::NotOpen));
    assert_eq!(find_buffer("/p/a.rs", None, &vec![]), Err(FindBufferError::NotOpen));
}

#[test]
fn buffer_status_from_option() {
    assert_eq!(get_buffer_status(true, Some(true)), st(true, true));
    assert_eq!(get_buffer_status(false, Some(false)), st(false, false));
    assert_eq!(get_buffer_status(true, None), st(true, false));
}

#[test]
fn visual_selection_reply_cases() {
    assert_eq!(visual_selection_json(LuaReply::Nil), Ok(None));
    assert_eq!(
        visual_selection_json(LuaReply::Text("{\"a\":1}".to_string())),
        Ok(Some("{\"a\":1}".to_string()))
    );
    assert_eq!(visual_selection_json(LuaReply::Other), Err(SelectionError::UnexpectedResponse));
}
