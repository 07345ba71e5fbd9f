use std::collections::HashSet;
use sticky_windows::business::{BusinessLogic, Destination, EngineError, ToggleStep, WindowMove};
use sticky_windows::windows::WindowInfo;

fn live(ids: &[u64]) -> HashSet<u64> {
    ids.iter().copied().collect()
}

fn sorted(mut v: Vec<u64>) -> Vec<u64> {
    v.sort();
    v
}

fn window(id: u64, app_id: Option<&str>, title: Option<&str>) -> WindowInfo {
    WindowInfo { id, app_id: app_id.map(|s| s.to_string()), title: title.map(|s| s.to_string()) }
}

fn assert_disjoint(logic: &BusinessLogic, ids: &[u64]) {
    for id in ids {
        assert!(!(logic.is_window_sticky(*id) && logic.is_window_staged(*id)), "window {id} in both sets");
    }
}

#[test]
fn new_state_is_empty() {
    let logic = BusinessLogic::new();
    assert!(logic.list_sticky_windows(&live(&[1, 2])).is_empty());
    assert!(logic.list_staged_windows().is_empty());
}

#[test]
fn add_twice_reports_true_then_false() {
    let mut logic = BusinessLogic::new();
    let l = live(&[7]);
    assert_eq!(logic.add_sticky_window(&l, 7), Ok(true));
    assert_eq!(logic.add_sticky_window(&l, 7), Ok(false));
    assert!(logic.is_window_sticky(7));
}

#[test]
fn remove_twice_reports_true_then_false() {
    let mut logic = BusinessLogic::new();
    let l = live(&[7]);
    logic.add_sticky_window(&l, 7).unwrap();
    assert_eq!(logic.remove_sticky_window(&l, 7), Ok(true));
    assert_eq!(logic.remove_sticky_window(&l, 7), Ok(false));
    assert!(!logic.is_window_sticky(7));
}

#[test]
fn add_unknown_window_is_rejected() {
    let mut logic = BusinessLogic::new();
    let l = live(&[1, 2]);
    logic.add_sticky_window(&l, 1).unwrap();
    assert_eq!(logic.add_sticky_window(&l, 99), Err(EngineError::ResourceNotFound));
    assert_eq!(sorted(logic.list_sticky_windows(&l)), vec![1]);
    assert!(!logic.is_window_sticky(99));
}

#[test]
fn remove_unknown_window_is_rejected() {
    let mut logic = BusinessLogic::new();
    logic.add_sticky_window(&live(&[3]), 3).unwrap();
    assert_eq!(logic.remove_sticky_window(&live(&[1]), 3), Err(EngineError::ResourceNotFound));
    assert!(logic.is_window_sticky(3));
}

#[test]
fn list_sticky_filters_dead_windows() {
    let mut logic = BusinessLogic::new();
    let l = live(&[1, 2, 3]);
    for id in [1, 2, 3] {
        logic.add_sticky_window(&l, id).unwrap();
    }
    assert_eq!(sorted(logic.list_sticky_windows(&live(&[1, 3, 4]))), vec![1, 3]);
}

#[test]
fn stage_then_unstage_round_trip() {
    let mut logic = BusinessLogic::new();
    let l = live(&[5]);
    logic.add_sticky_window(&l, 5).unwrap();
    let mv = logic.stage_window(&l, 5).unwrap();
    assert_eq!(mv, WindowMove { window_id: 5, destination: Destination::Stage });
    assert_eq!(logic.finish_move(mv, true), Ok(()));
    assert!(logic.is_window_staged(5));
    assert!(!logic.is_window_sticky(5));
    let back = logic.unstage_window(&l, 5, 4).unwrap();
    assert_eq!(back, WindowMove { window_id: 5, destination: Destination::Workspace(4) });
    assert_eq!(logic.finish_move(back, true), Ok(()));
    assert!(logic.is_window_sticky(5));
    assert!(!logic.is_window_staged(5));
}

#[test]
fn stage_rollback_keeps_window_sticky() {
    let mut logic = BusinessLogic::new();
    let l = live(&[5]);
    logic.add_sticky_window(&l, 5).unwrap();
    let mv = logic.stage_window(&l, 5).unwrap();
    assert_eq!(logic.finish_move(mv, false), Err(EngineError::HostRejected));
    assert!(logic.is_window_sticky(5));
    assert!(!logic.is_window_staged(5));
}

#[test]
fn unstage_rollback_keeps_window_staged() {
    let mut logic = BusinessLogic::new();
    let l = live(&[5]);
    logic.add_sticky_window(&l, 5).unwrap();
    let mv = logic.stage_window(&l, 5).unwrap();
    logic.finish_move(mv, true).unwrap();
    let back = logic.unstage_window(&l, 5, 2).unwrap();
    assert_eq!(logic.finish_move(back, false), Err(EngineError::HostRejected));
    assert!(logic.is_window_staged(5));
    assert!(!logic.is_window_sticky(5));
}

#[test]
fn stage_errors() {
    let mut logic = BusinessLogic::new();
    let l = live(&[1, 2]);
    assert_eq!(logic.stage_window(&l, 9), Err(EngineError::ResourceNotFound));
    assert_eq!(logic.stage_window(&l, 1), Err(EngineError::NotSticky));
    logic.add_sticky_window(&l, 1).unwrap();
    let mv = logic.stage_active_window(&l, 1).unwrap();
    logic.finish_move(mv, true).unwrap();
    assert_eq!(logic.stage_window(&l, 1), Err(EngineError::AlreadyInTargetState));
}

#[test]
fn unstage_errors() {
    let mut logic = BusinessLogic::new();
    let l = live(&[1, 2]);
    assert_eq!(logic.unstage_window(&l, 9, 1), Err(EngineError::ResourceNotFound));
    assert_eq!(logic.unstage_window(&l, 2, 1), Err(EngineError::NotStaged));
    logic.add_sticky_window(&l, 2).unwrap();
    assert_eq!(logic.unstage_active_window(&l, 2, 1), Err(EngineError::AlreadyInTargetState));
}

#[test]
fn toggle_twice_sticks_then_releases() {
    let mut logic = BusinessLogic::new();
    let l = live(&[8]);
    let step = logic.toggle_window(&l, Some(8)).unwrap();
    assert_eq!(step, ToggleStep::MoveToActive { window_id: 8 });
    assert_eq!(logic.finish_toggle(8, true), Ok(true));
    assert!(logic.is_window_sticky(8));
    assert_eq!(logic.toggle_window(&l, Some(8)), Ok(ToggleStep::Unstuck));
    assert!(!logic.is_window_sticky(8));
    assert!(!logic.is_window_staged(8));
}

#[test]
fn toggle_of_staged_window_makes_it_sticky() {
    let mut logic = BusinessLogic::new();
    let l = live(&[8]);
    logic.add_sticky_window(&l, 8).unwrap();
    let mv = logic.stage_window(&l, 8).unwrap();
    logic.finish_move(mv, true).unwrap();
    assert_eq!(logic.toggle_window(&l, Some(8)), Ok(ToggleStep::MoveToActive { window_id: 8 }));
    assert_eq!(logic.finish_toggle(8, true), Ok(true));
    assert!(logic.is_window_sticky(8));
    assert!(!logic.is_window_staged(8));
}

#[test]
fn toggle_failed_move_changes_nothing() {
    let mut logic = BusinessLogic::new();
    let l = live(&[8]);
    logic.toggle_window(&l, Some(8)).unwrap();
    assert_eq!(logic.finish_toggle(8, false), Err(EngineError::HostRejected));
    assert!(!logic.is_window_sticky(8));
}

#[test]
fn toggle_errors() {
    let mut logic = BusinessLogic::new();
    assert_eq!(logic.toggle_window(&live(&[1]), None), Err(EngineError::NoMatch));
    assert_eq!(logic.toggle_window(&live(&[1]), Some(4)), Err(EngineError::ResourceNotFound));
}

#[test]
fn toggle_by_appid_picks_first_match() {
    let mut logic = BusinessLogic::new();
    let windows = vec![
        window(1, Some("term"), Some("a")),
        window(2, Some("firefox"), Some("b")),
        window(3, Some("firefox"), Some("c")),
    ];
    let l = live(&[1, 2, 3]);
    assert_eq!(
        logic.toggle_by_appid(&windows, &l, "firefox"),
        Ok(ToggleStep::MoveToActive { window_id: 2 })
    );
    assert_eq!(logic.toggle_by_appid(&windows, &l, "fire"), Err(EngineError::NoMatch));
}

#[test]
fn toggle_by_title_matches_substring() {
    let mut logic = BusinessLogic::new();
    let windows = vec![window(1, None, Some("Inbox - Mail")), window(2, None, Some("Music player"))];
    let l = live(&[1, 2]);
    logic.add_sticky_window(&l, 2).unwrap();
    assert_eq!(logic.toggle_by_title(&windows, &l, "sic pl"), Ok(ToggleStep::Unstuck));
    assert!(!logic.is_window_sticky(2));
    assert_eq!(logic.toggle_by_title(&windows, &l, "Calendar"), Err(EngineError::NoMatch));
}

#[test]
fn toggle_active_window_inverts_membership() {
    let mut logic = BusinessLogic::new();
    let l = live(&[4]);
    assert_eq!(logic.toggle_active_window(&l, 4), Ok(true));
    assert!(logic.is_window_sticky(4));
    assert_eq!(logic.toggle_active_window(&l, 4), Ok(false));
    assert!(!logic.is_window_sticky(4));
    assert_eq!(logic.toggle_active_window(&l, 5), Err(EngineError::ResourceNotFound));
}

#[test]
fn stage_toggle_moves_between_sets() {
    let mut logic = BusinessLogic::new();
    let windows = vec![window(1, Some("term"), Some("shell"))];
    let l = live(&[1]);
    assert_eq!(logic.toggle_stage_by_appid(&windows, &l, "term", 3), Err(EngineError::NotSticky));
    logic.add_sticky_window(&l, 1).unwrap();
    let mv = logic.toggle_stage_by_appid(&windows, &l, "term", 3).unwrap();
    assert_eq!(mv.destination, Destination::Stage);
    logic.finish_move(mv, true).unwrap();
    let back = logic.toggle_stage_by_title(&windows, &l, "she", 3).unwrap();
    assert_eq!(back, WindowMove { window_id: 1, destination: Destination::Workspace(3) });
    logic.finish_move(back, true).unwrap();
    assert!(logic.is_window_sticky(1));
    assert_eq!(logic.toggle_stage_by_title(&windows, &l, "zzz", 3), Err(EngineError::NoMatch));
}

#[test]
fn adding_a_staged_window_is_refused() {
    let mut logic = BusinessLogic::new();
    let l = live(&[6]);
    logic.add_sticky_window(&l, 6).unwrap();
    let mv = logic.stage_window(&l, 6).unwrap();
    logic.finish_move(mv, true).unwrap();
    assert_eq!(logic.add_sticky_window(&l, 6), Err(EngineError::AlreadyInTargetState));
    assert!(!logic.is_window_sticky(6));
    assert!(logic.is_window_staged(6));
    assert_eq!(
        logic.toggle_stage_window(&l, Some(6), 1),
        Ok(WindowMove { window_id: 6, destination: Destination::Workspace(1) })
    );
}

#[test]
fn toggling_a_staged_focused_window_is_refused() {
    let mut logic = BusinessLogic::new();
    let l = live(&[6]);
    logic.add_sticky_window(&l, 6).unwrap();
    let mv = logic.stage_window(&l, 6).unwrap();
    logic.finish_move(mv, true).unwrap();
    assert_eq!(logic.toggle_active_window(&l, 6), Err(EngineError::AlreadyInTargetState));
    assert!(!logic.is_window_sticky(6));
    assert!(logic.is_window_staged(6));
    assert_eq!(EngineError::AlreadyInTargetState.message(), "Window is already sticky or staged");
}

#[test]
fn stage_all_partial_failure() {
    let mut logic = BusinessLogic::new();
    let l = live(&[1, 2, 3]);
    for id in [1, 2, 3] {
        logic.add_sticky_window(&l, id).unwrap();
    }
    let plan = sorted(logic.stage_all_windows(&l));
    assert_eq!(plan, vec![1, 2, 3]);
    let outcomes: Vec<(u64, bool)> = plan.iter().map(|id| (*id, *id != 2)).collect();
    assert_eq!(logic.finish_stage_all(&outcomes), 2);
    assert_eq!(sorted(logic.list_sticky_windows(&l)), vec![2]);
    assert_eq!(sorted(logic.list_staged_windows()), vec![1, 3]);
}

#[test]
fn stage_all_skips_dead_windows() {
    let mut logic = BusinessLogic::new();
    let l = live(&[1, 2]);
    logic.add_sticky_window(&l, 1).unwrap();
    logic.add_sticky_window(&l, 2).unwrap();
    assert_eq!(logic.stage_all_windows(&live(&[2])), vec![2]);
    assert!(BusinessLogic::new().stage_all_windows(&l).is_empty());
}

#[test]
fn unstage_all_partial_failure() {
    let mut logic = BusinessLogic::new();
    let l = live(&[1, 2]);
    logic.add_sticky_window(&l, 1).unwrap();
    logic.add_sticky_window(&l, 2).unwrap();
    let plan = logic.stage_all_windows(&l);
    let ok: Vec<(u64, bool)> = plan.iter().map(|id| (*id, true)).collect();
    assert_eq!(logic.finish_stage_all(&ok), 2);
    assert_eq!(sorted(logic.unstage_all_windows(&l)), vec![1, 2]);
    assert_eq!(logic.finish_unstage_all(&vec![(1, false), (2, true)]), 1);
    assert_eq!(sorted(logic.list_staged_windows()), vec![1]);
    assert_eq!(sorted(logic.list_sticky_windows(&l)), vec![2]);
}

#[test]
fn reconciliation_prunes_dead_windows() {
    let mut logic = BusinessLogic::new();
    let l = live(&[1, 2]);
    logic.add_sticky_window(&l, 1).unwrap();
    logic.add_sticky_window(&l, 2).unwrap();
    let to_move = logic.handle_workspace_activation(&live(&[1]));
    assert_eq!(to_move, vec![1]);
    assert!(logic.is_window_sticky(1));
    assert!(!logic.is_window_sticky(2));
}

#[test]
fn reconciliation_with_no_live_windows_clears_sticky() {
    let mut logic = BusinessLogic::new();
    logic.add_sticky_window(&live(&[1]), 1).unwrap();
    assert!(logic.handle_workspace_activation(&HashSet::new()).is_empty());
    assert!(!logic.is_window_sticky(1));
}

#[test]
fn sets_stay_disjoint_through_a_session() {
    let mut logic = BusinessLogic::new();
    let ids = [1, 2, 3, 4];
    let l = live(&ids);
    for id in ids {
        logic.add_sticky_window(&l, id).unwrap();
    }
    let mv = logic.stage_window(&l, 1).unwrap();
    logic.finish_move(mv, true).unwrap();
    assert_disjoint(&logic, &ids);
    let mv = logic.stage_window(&l, 2).unwrap();
    logic.finish_move(mv, false).unwrap_err();
    assert_disjoint(&logic, &ids);
    let step = logic.toggle_window(&l, Some(1)).unwrap();
    assert_eq!(step, ToggleStep::MoveToActive { window_id: 1 });
    logic.finish_toggle(1, true).unwrap();
    assert_disjoint(&logic, &ids);
    let plan = logic.stage_all_windows(&l);
    let outcomes: Vec<(u64, bool)> = plan.iter().map(|id| (*id, id % 2 == 0)).collect();
    logic.finish_stage_all(&outcomes);
    assert_disjoint(&logic, &ids);
    let plan = logic.unstage_all_windows(&l);
    let outcomes: Vec<(u64, bool)> = plan.iter().map(|id| (*id, *id == 2)).collect();
    assert_eq!(logic.finish_unstage_all(&outcomes), 1);
    assert_disjoint(&logic, &ids);
    logic.handle_workspace_activation(&live(&[2, 3]));
    assert_disjoint(&logic, &ids);
}

#[test]
fn error_messages() {
    assert_eq!(EngineError::ResourceNotFound.message(), "Window not found in Niri");
    assert_eq!(EngineError::NotSticky.message(), "Window is not in sticky list, cannot stage");
    assert_eq!(EngineError::HostRejected.message(), "Failed to move window");
}
