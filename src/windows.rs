//! Choosing windows and workspaces out of the compositor's reports.
use vstd::prelude::*;
use std::collections::HashSet;
use crate::words::{contains_text, has_substring, opt_chars, same_text};

verus! {

broadcast use vstd::std_specs::hash::group_hash_axioms;

/// One window as the compositor reports it.
#[derive(Debug, Clone)]
pub struct WindowInfo {
    pub id: u64,
    pub app_id: Option<String>,
    pub title: Option<String>,
}

/// One workspace as the compositor reports it: its id, where the report
/// gives a valid one, and whether it is the active workspace.
#[derive(Debug, Clone, Copy, PartialEq, Eq, Structural)]
pub struct WorkspaceInfo {
    pub id: Option<u64>,
    pub is_active: bool,
}

/// The ids of all reported windows.
pub open spec fn window_ids(ws: Seq<WindowInfo>) -> Set<u64> {
    Set::new(|id: u64| exists|i: int| 0 <= i < ws.len() && ws[i].id == id)
}

/// The id of the first window whose application id is exactly `appid`.
pub open spec fn first_with_appid(ws: Seq<WindowInfo>, appid: Seq<char>) -> Option<u64>
    decreases ws.len(),
{
    if ws.len() == 0 {
        None
    } else if opt_chars(ws[0].app_id) == Some(appid) {
        Some(ws[0].id)
    } else {
        first_with_appid(ws.drop_first(), appid)
    }
}

pub open spec fn title_contains(w: WindowInfo, needle: Seq<char>) -> bool {
    match w.title {
        Some(t) => has_substring(t@, needle),
        None => false,
    }
}

/// The id of the first window whose title contains `needle`.
pub open spec fn first_with_title(ws: Seq<WindowInfo>, needle: Seq<char>) -> Option<u64>
    decreases ws.len(),
{
    if ws.len() == 0 {
        None
    } else if title_contains(ws[0], needle) {
        Some(ws[0].id)
    } else {
        first_with_title(ws.drop_first(), needle)
    }
}

/// The id of the first workspace that is active and has an id.
pub open spec fn first_active(ws: Seq<WorkspaceInfo>) -> Option<u64>
    decreases ws.len(),
{
    if ws.len() == 0 {
        None
    } else if ws[0].is_active && ws[0].id is Some {
        ws[0].id
    } else {
        first_active(ws.drop_first())
    }
}

/// The set of live window ids.
pub fn get_full_window_list(windows: &Vec<WindowInfo>) -> (r: HashSet<u64>)
    ensures
        r@ == window_ids(windows@),
{
    let mut ids: HashSet<u64> = HashSet::new();
    let mut i: usize = 0;
    while i < windows.len()
        invariant
            i <= windows.len(),
            ids@ == window_ids(windows@.take(i as int)),
        decreases windows.len() - i,
    {
        ids.insert(windows[i].id);
        proof {
            let before = windows@.take(i as int);
            let after = windows@.take(i + 1);
            assert forall|id: u64| window_ids(after).contains(id) <==> window_ids(
                before,
            ).insert(windows@[i as int].id).contains(id) by {
                if window_ids(after).contains(id) {
                    let k = choose|k: int| 0 <= k < after.len() && after[k].id == id;
                    if k < i {
                        assert(before[k].id == id);
                    }
                }
                if window_ids(before).contains(id) {
                    let k = choose|k: int| 0 <= k < before.len() && before[k].id == id;
                    assert(after[k].id == id);
                }
                assert(after[i as int].id == windows@[i as int].id);
            }
            assert(window_ids(after) =~= window_ids(before).insert(windows@[i as int].id));
        }
        i = i + 1;
    }
    proof {
        assert(windows@.take(windows.len() as int) =~= windows@);
    }
    ids
}

/// The first window whose application id is exactly `appid`.
pub fn find_window_by_appid(windows: &Vec<WindowInfo>, appid: &str) -> (r: Option<u64>)
    ensures
        r == first_with_appid(windows@, appid@),
{
    let mut i: usize = 0;
    proof {
        assert(windows@.skip(0) =~= windows@);
    }
    while i < windows.len()
        invariant
            i <= windows.len(),
            first_with_appid(windows@.skip(i as int), appid@) == first_with_appid(
                windows@,
                appid@,
            ),
        decreases windows.len() - i,
    {
        let w = &windows[i];
        proof {
            assert(windows@.skip(i as int).drop_first() =~= windows@.skip(i + 1));
            assert(windows@.skip(i as int)[0] == windows@[i as int]);
        }
        match &w.app_id {
            Some(a) => {
                if same_text(a.as_str(), appid) {
                    return Some(w.id);
                }
            },
            None => {},
        }
        i = i + 1;
    }
    None
}

/// The first window whose title contains `title`.
pub fn find_window_by_title(windows: &Vec<WindowInfo>, title: &str) -> (r: Option<u64>)
    ensures
        r == first_with_title(windows@, title@),
{
    let mut i: usize = 0;
    proof {
        assert(windows@.skip(0) =~= windows@);
    }
    while i < windows.len()
        invariant
            i <= windows.len(),
            first_with_title(windows@.skip(i as int), title@) == first_with_title(
                windows@,
                title@,
            ),
        decreases windows.len() - i,
    {
        let w = &windows[i];
        proof {
            assert(windows@.skip(i as int).drop_first() =~= windows@.skip(i + 1));
            assert(windows@.skip(i as int)[0] == windows@[i as int]);
        }
        match &w.title {
            Some(t) => {
                if contains_text(t.as_str(), title) {
                    return Some(w.id);
                }
            },
            None => {},
        }
        i = i + 1;
    }
    None
}

/// The id of the active workspace.
pub fn get_active_workspace_id(workspaces: &Vec<WorkspaceInfo>) -> (r: Option<u64>)
    ensures
        r == first_active(workspaces@),
{
    let mut i: usize = 0;
    proof {
        assert(workspaces@.skip(0) =~= workspaces@);
    }
    while i < workspaces.len()
        invariant
            i <= workspaces.len(),
            first_active(workspaces@.skip(i as int)) == first_active(workspaces@),
        decreases workspaces.len() - i,
    {
        let w = workspaces[i];
        proof {
            assert(workspaces@.skip(i as int).drop_first() =~= workspaces@.skip(i + 1));
            assert(workspaces@.skip(i as int)[0] == workspaces@[i as int]);
        }
        if w.is_active {
            if let Some(id) = w.id {
                return Some(id);
            }
        }
        i = i + 1;
    }
    None
}

} // verus!
