//! The sticky/staged policy state and its transitions.
//!
//! Every operation that needs the compositor is split in two: a decision
//! taken on the current sets and a fresh live-window snapshot, which names the
//! window move to perform, and a commit that takes the outcome of that move.
//! Between the two, no lock on the sets needs to be held.
use vstd::prelude::*;
use std::collections::HashSet;
use crate::windows::{find_window_by_appid, find_window_by_title, first_with_appid, first_with_title, WindowInfo};

verus! {

broadcast use vstd::std_specs::hash::group_hash_axioms;

/// The policy state: windows that follow workspace switches, and windows
/// parked on the staging workspace.
pub struct Policy {
    pub sticky: Set<u64>,
    pub staged: Set<u64>,
}

impl Policy {
    /// No window is both sticky and staged.
    pub open spec fn disjoint(self) -> bool {
        self.sticky.disjoint(self.staged)
    }
}

/// Why an operation was refused.
#[derive(Debug, Clone, Copy, PartialEq, Eq, Structural)]
pub enum EngineError {
    /// The window is not in the live-window snapshot.
    ResourceNotFound,
    /// No window matched the application id or title.
    NoMatch,
    /// Staging a staged window, unstaging a sticky one, or adding or toggling
    /// a staged one.
    AlreadyInTargetState,
    /// Staging a window that is not sticky.
    NotSticky,
    /// Unstaging a window that is not staged.
    NotStaged,
    /// The window is both sticky and staged.
    InvalidState,
    /// The compositor did not move the window.
    HostRejected,
}

impl EngineError {
    /// The one-line description of the error.
    pub fn message(&self) -> (r: String)
        ensures
            r@ == engine_error_text(*self),
    {
        let text = match self {
            EngineError::ResourceNotFound => "Window not found in Niri",
            EngineError::NoMatch => "No matching window found",
            EngineError::AlreadyInTargetState => "Window is already sticky or staged",
            EngineError::NotSticky => "Window is not in sticky list, cannot stage",
            EngineError::NotStaged => "Window is not in staged list, cannot unstage",
            EngineError::InvalidState => "Unexpected window state",
            EngineError::HostRejected => "Failed to move window",
        };
        text.to_owned()
    }
}

pub open spec fn engine_error_text(e: EngineError) -> Seq<char> {
    match e {
        EngineError::ResourceNotFound => "Window not found in Niri"@,
        EngineError::NoMatch => "No matching window found"@,
        EngineError::AlreadyInTargetState => "Window is already sticky or staged"@,
        EngineError::NotSticky => "Window is not in sticky list, cannot stage"@,
        EngineError::NotStaged => "Window is not in staged list, cannot unstage"@,
        EngineError::InvalidState => "Unexpected window state"@,
        EngineError::HostRejected => "Failed to move window"@,
    }
}

/// Where a window is to be moved.
#[derive(Debug, Clone, Copy, PartialEq, Eq, Structural)]
pub enum Destination {
    /// The reserved staging workspace.
    Stage,
    /// The workspace with this id.
    Workspace(u64),
}

/// A window move that the compositor is to perform before a commit.
#[derive(Debug, Clone, Copy, PartialEq, Eq, Structural)]
pub struct WindowMove {
    pub window_id: u64,
    pub destination: Destination,
}

/// What a sticky toggle decided.
#[derive(Debug, Clone, Copy, PartialEq, Eq, Structural)]
pub enum ToggleStep {
    /// The window was sticky and has been released; nothing is to be moved.
    Unstuck,
    /// The window is to be moved to the active workspace, then made sticky.
    MoveToActive { window_id: u64 },
}

pub open spec fn with_sticky(p: Policy, sticky: Set<u64>) -> Policy {
    Policy { sticky, staged: p.staged }
}

pub open spec fn with_staged(p: Policy, staged: Set<u64>) -> Policy {
    Policy { sticky: p.sticky, staged }
}

/// Adding a window: a staged window is refused, so that no window is both
/// sticky and staged.
pub open spec fn add_spec(p: Policy, live: Set<u64>, id: u64) -> (Policy, Result<bool, EngineError>) {
    if !live.contains(id) {
        (p, Err(EngineError::ResourceNotFound))
    } else if p.staged.contains(id) {
        (p, Err(EngineError::AlreadyInTargetState))
    } else {
        (with_sticky(p, p.sticky.insert(id)), Ok(!p.sticky.contains(id)))
    }
}

pub open spec fn remove_spec(p: Policy, live: Set<u64>, id: u64) -> (Policy, Result<bool, EngineError>) {
    if !live.contains(id) {
        (p, Err(EngineError::ResourceNotFound))
    } else {
        (with_sticky(p, p.sticky.remove(id)), Ok(p.sticky.contains(id)))
    }
}

/// Toggling the focused window: a staged window is refused, so that no window
/// is both sticky and staged.
pub open spec fn toggle_active_spec(p: Policy, live: Set<u64>, id: u64) -> (
    Policy,
    Result<bool, EngineError>,
) {
    if !live.contains(id) {
        (p, Err(EngineError::ResourceNotFound))
    } else if p.staged.contains(id) {
        (p, Err(EngineError::AlreadyInTargetState))
    } else if p.sticky.contains(id) {
        (with_sticky(p, p.sticky.remove(id)), Ok(false))
    } else {
        (with_sticky(p, p.sticky.insert(id)), Ok(true))
    }
}

/// The tri-state toggle's decision on the window that was found, if any.
pub open spec fn toggle_spec(p: Policy, live: Set<u64>, found: Option<u64>) -> (
    Policy,
    Result<ToggleStep, EngineError>,
) {
    match found {
        None => (p, Err(EngineError::NoMatch)),
        Some(id) => if !live.contains(id) {
            (p, Err(EngineError::ResourceNotFound))
        } else if p.staged.contains(id) {
            (p, Ok(ToggleStep::MoveToActive { window_id: id }))
        } else if p.sticky.contains(id) {
            (with_sticky(p, p.sticky.remove(id)), Ok(ToggleStep::Unstuck))
        } else {
            (p, Ok(ToggleStep::MoveToActive { window_id: id }))
        },
    }
}

/// The end of a tri-state toggle, once the move to the active workspace
/// succeeded or failed.
pub open spec fn finish_toggle_spec(p: Policy, id: u64, moved: bool) -> (
    Policy,
    Result<bool, EngineError>,
) {
    if moved {
        (Policy { sticky: p.sticky.insert(id), staged: p.staged.remove(id) }, Ok(true))
    } else {
        (p, Err(EngineError::HostRejected))
    }
}

pub open spec fn stage_spec(p: Policy, live: Set<u64>, id: u64) -> Result<WindowMove, EngineError> {
    if !live.contains(id) {
        Err(EngineError::ResourceNotFound)
    } else if p.staged.contains(id) {
        Err(EngineError::AlreadyInTargetState)
    } else if p.sticky.contains(id) {
        Ok(WindowMove { window_id: id, destination: Destination::Stage })
    } else {
        Err(EngineError::NotSticky)
    }
}

pub open spec fn unstage_spec(p: Policy, live: Set<u64>, id: u64, workspace_id: u64) -> Result<
    WindowMove,
    EngineError,
> {
    if !live.contains(id) {
        Err(EngineError::ResourceNotFound)
    } else if p.sticky.contains(id) {
        Err(EngineError::AlreadyInTargetState)
    } else if p.staged.contains(id) {
        Ok(WindowMove { window_id: id, destination: Destination::Workspace(workspace_id) })
    } else {
        Err(EngineError::NotStaged)
    }
}

/// The stage toggle's decision on the window that was found, if any.
pub open spec fn stage_toggle_spec(
    p: Policy,
    live: Set<u64>,
    found: Option<u64>,
    workspace_id: u64,
) -> Result<WindowMove, EngineError> {
    match found {
        None => Err(EngineError::NoMatch),
        Some(id) => if !live.contains(id) {
            Err(EngineError::ResourceNotFound)
        } else if !p.sticky.contains(id) && !p.staged.contains(id) {
            Err(EngineError::NotSticky)
        } else if p.sticky.contains(id) && !p.staged.contains(id) {
            Ok(WindowMove { window_id: id, destination: Destination::Stage })
        } else if !p.sticky.contains(id) && p.staged.contains(id) {
            Ok(WindowMove { window_id: id, destination: Destination::Workspace(workspace_id) })
        } else {
            Err(EngineError::InvalidState)
        },
    }
}

/// The commit of a single-window move: on success the window changes set;
/// on failure it is put back into the set it was taken from.
pub open spec fn finish_move_spec(p: Policy, mv: WindowMove, moved: bool) -> (
    Policy,
    Result<(), EngineError>,
) {
    let id = mv.window_id;
    match mv.destination {
        Destination::Stage => if moved {
            (Policy { sticky: p.sticky.remove(id), staged: p.staged.insert(id) }, Ok(()))
        } else {
            (with_sticky(p, p.sticky.insert(id)), Err(EngineError::HostRejected))
        },
        Destination::Workspace(_) => if moved {
            (Policy { sticky: p.sticky.insert(id), staged: p.staged.remove(id) }, Ok(()))
        } else {
            (with_staged(p, p.staged.insert(id)), Err(EngineError::HostRejected))
        },
    }
}

/// The windows whose move succeeded in a list of `(window, moved)` outcomes.
pub open spec fn moved_ids(outcomes: Seq<(u64, bool)>) -> Set<u64> {
    Set::new(|id: u64| exists|i: int| 0 <= i < outcomes.len() && #[trigger] outcomes[i] == (id, true))
}

/// The number of successful moves in a list of outcomes.
pub open spec fn count_moved(outcomes: Seq<(u64, bool)>) -> nat
    decreases outcomes.len(),
{
    if outcomes.len() == 0 {
        0
    } else {
        count_moved(outcomes.drop_last()) + if outcomes.last().1 {
            1nat
        } else {
            0nat
        }
    }
}

proof fn lemma_last_key(keys: Seq<u64>, set: Set<u64>, seen: Set<u64>, idx: int)
    requires
        keys.to_set() == set,
        0 <= idx < keys.len(),
        forall|e: u64| #[trigger] seen.contains(e) <==> exists|j: int| 0 <= j < idx && keys[j] == e,
    ensures
        idx + 1 == keys.len() ==> seen.insert(keys[idx]) == set,
{
    if idx + 1 == keys.len() {
        assert forall|e: u64| set.contains(e) <==> seen.insert(keys[idx]).contains(e) by {
            if set.contains(e) {
                assert(keys.to_set().contains(e));
                let j = choose|j: int| 0 <= j < keys.len() && keys[j] == e;
                if j < idx {
                    assert(seen.contains(e));
                }
            }
            if seen.contains(e) {
                let j = choose|j: int| 0 <= j < idx && keys[j] == e;
                assert(keys.to_set().contains(keys[j]));
            }
            assert(keys.to_set().contains(keys[idx]));
        }
        assert(seen.insert(keys[idx]) =~= set);
    }
}

fn members_in(set: &HashSet<u64>, live: &HashSet<u64>) -> (r: Vec<u64>)
    ensures
        r@.no_duplicates(),
        r@.to_set() == set@.intersect(live@),
{
    let mut out: Vec<u64> = Vec::new();
    let ghost mut seen: Set<u64> = Set::empty();
    for x in it: set.iter()
        invariant
            it.seq().unref().to_set() == set@,
            it.seq().no_duplicates(),
            out@.no_duplicates(),
            forall|e: u64|
                #[trigger] seen.contains(e) <==> exists|j: int|
                    0 <= j < it.index() && it.seq().unref()[j] == e,
            out@.to_set() == seen.intersect(live@),
            it.index() == it.seq().len() ==> seen == set@,
    {
        let ghost before = out@;
        let ghost before_seen = seen;
        proof {
            assert(*it.seq()[it.index()] == *x);
            if seen.contains(*x) {
                let j = choose|j: int| 0 <= j < it.index() && *it.seq()[j] == *x;
                assert(it.seq()[j] == it.seq()[it.index()]);
            }
            assert(!before.to_set().contains(*x));
            seen = seen.insert(*x);
        }
        proof {
            lemma_last_key(it.seq().unref(), set@, before_seen, it.index());
        }
        if live.contains(x) {
            out.push(*x);
            proof {
                assert(out@ == before.push(*x));
                assert forall|e: u64| out@.contains(e) <==> before.contains(e) || e == *x by {
                    if before.contains(e) {
                        let k = choose|k: int| 0 <= k < before.len() && before[k] == e;
                        assert(out@[k] == e);
                    }
                    if out@.contains(e) && e != *x {
                        let k = choose|k: int| 0 <= k < out@.len() && out@[k] == e;
                        assert(before[k] == e);
                    }
                    if e == *x {
                        assert(out@[before.len() as int] == e);
                    }
                }
                assert(out@.to_set() =~= before.to_set().insert(*x));
            }
        } else {
            assert(out@ == before);
        }
        proof {
            assert(out@.to_set() =~= seen.intersect(live@));
        }
    }
    out
}

proof fn lemma_moved_step(outcomes: Seq<(u64, bool)>, i: int)
    requires
        0 <= i < outcomes.len(),
    ensures
        moved_ids(outcomes.take(i + 1)) == if outcomes[i].1 {
            moved_ids(outcomes.take(i)).insert(outcomes[i].0)
        } else {
            moved_ids(outcomes.take(i))
        },
        count_moved(outcomes.take(i + 1)) == count_moved(outcomes.take(i)) + if outcomes[i].1 {
            1nat
        } else {
            0nat
        },
        count_moved(outcomes.take(i)) <= i,
    decreases i,
{
    let a = outcomes.take(i);
    let b = outcomes.take(i + 1);
    assert(b.drop_last() =~= a);
    if i > 0 {
        lemma_moved_step(outcomes, i - 1);
    }
    assert forall|id: u64| moved_ids(b).contains(id) <==> (moved_ids(a).contains(id) || (
    outcomes[i].1 && id == outcomes[i].0)) by {
        if moved_ids(b).contains(id) {
            let k = choose|k: int| 0 <= k < b.len() && b[k] == (id, true);
            if k < i {
                assert(a[k] == (id, true));
            }
        }
        if moved_ids(a).contains(id) {
            let k = choose|k: int| 0 <= k < a.len() && a[k] == (id, true);
            assert(b[k] == (id, true));
        }
        if outcomes[i].1 && id == outcomes[i].0 {
            assert(b[i] == (id, true));
        }
    }
    if outcomes[i].1 {
        assert(moved_ids(b) =~= moved_ids(a).insert(outcomes[i].0));
    } else {
        assert(moved_ids(b) =~= moved_ids(a));
    }
}

/// The policy state.
pub struct BusinessLogic {
    sticky_windows: HashSet<u64>,
    staged_set: HashSet<u64>,
}

impl View for BusinessLogic {
    type V = Policy;

    closed spec fn view(&self) -> Policy {
        Policy { sticky: self.sticky_windows@, staged: self.staged_set@ }
    }
}

impl BusinessLogic {
    /// Both sets start empty.
    pub fn new() -> (r: Self)
        ensures
            r@.sticky == Set::<u64>::empty(),
            r@.staged == Set::<u64>::empty(),
    {
        BusinessLogic { sticky_windows: HashSet::new(), staged_set: HashSet::new() }
    }

    /// Marks a live window sticky; tells whether it was not sticky before. A
    /// staged window is refused and the state is left unchanged.
    pub fn add_sticky_window(&mut self, live: &HashSet<u64>, window_id: u64) -> (r: Result<
        bool,
        EngineError,
    >)
        ensures
            (final(self)@, r) == add_spec(old(self)@, live@, window_id),
            old(self)@.disjoint() ==> final(self)@.disjoint(),
    {
        if !live.contains(&window_id) {
            return Err(EngineError::ResourceNotFound);
        }
        if self.staged_set.contains(&window_id) {
            return Err(EngineError::AlreadyInTargetState);
        }
        Ok(self.sticky_windows.insert(window_id))
    }

    /// Releases a live window from the sticky set; tells whether it was sticky.
    pub fn remove_sticky_window(&mut self, live: &HashSet<u64>, window_id: u64) -> (r: Result<
        bool,
        EngineError,
    >)
        ensures
            (final(self)@, r) == remove_spec(old(self)@, live@, window_id),
            old(self)@.disjoint() ==> final(self)@.disjoint(),
    {
        if !live.contains(&window_id) {
            return Err(EngineError::ResourceNotFound);
        }
        Ok(self.sticky_windows.remove(&window_id))
    }

    /// The sticky windows that are live, each once, in no particular order.
    pub fn list_sticky_windows(&self, live: &HashSet<u64>) -> (r: Vec<u64>)
        ensures
            r@.no_duplicates(),
            r@.to_set() == self@.sticky.intersect(live@),
    {
        members_in(&self.sticky_windows, live)
    }

    /// Inverts the sticky membership of the focused window; tells whether it
    /// is sticky now. A staged window is refused and the state is left
    /// unchanged.
    pub fn toggle_active_window(&mut self, live: &HashSet<u64>, active_id: u64) -> (r: Result<
        bool,
        EngineError,
    >)
        ensures
            (final(self)@, r) == toggle_active_spec(old(self)@, live@, active_id),
            old(self)@.disjoint() ==> final(self)@.disjoint(),
    {
        if !live.contains(&active_id) {
            return Err(EngineError::ResourceNotFound);
        }
        if self.staged_set.contains(&active_id) {
            return Err(EngineError::AlreadyInTargetState);
        }
        if self.sticky_windows.contains(&active_id) {
            self.sticky_windows.remove(&active_id);
            Ok(false)
        } else {
            self.sticky_windows.insert(active_id);
            Ok(true)
        }
    }

    /// The tri-state toggle on the window that was found: a staged or free
    /// window is to be moved to the active workspace (then `finish_toggle`),
    /// a sticky one is released at once.
    pub fn toggle_window(&mut self, live: &HashSet<u64>, found: Option<u64>) -> (r: Result<
        ToggleStep,
        EngineError,
    >)
        ensures
            (final(self)@, r) == toggle_spec(old(self)@, live@, found),
            old(self)@.disjoint() ==> final(self)@.disjoint(),
    {
        let id = match found {
            None => return Err(EngineError::NoMatch),
            Some(id) => id,
        };
        if !live.contains(&id) {
            return Err(EngineError::ResourceNotFound);
        }
        if self.staged_set.contains(&id) {
            Ok(ToggleStep::MoveToActive { window_id: id })
        } else if self.sticky_windows.contains(&id) {
            self.sticky_windows.remove(&id);
            Ok(ToggleStep::Unstuck)
        } else {
            Ok(ToggleStep::MoveToActive { window_id: id })
        }
    }

    /// The tri-state toggle on the first window whose application id is `appid`.
    pub fn toggle_by_appid(
        &mut self,
        windows: &Vec<WindowInfo>,
        live: &HashSet<u64>,
        appid: &str,
    ) -> (r: Result<ToggleStep, EngineError>)
        ensures
            (final(self)@, r) == toggle_spec(
                old(self)@,
                live@,
                first_with_appid(windows@, appid@),
            ),
            old(self)@.disjoint() ==> final(self)@.disjoint(),
    {
        let found = find_window_by_appid(windows, appid);
        self.toggle_window(live, found)
    }

    /// The tri-state toggle on the first window whose title contains `title`.
    pub fn toggle_by_title(&mut self, windows: &Vec<WindowInfo>, live: &HashSet<u64>, title: &str) -> (r:
        Result<ToggleStep, EngineError>)
        ensures
            (final(self)@, r) == toggle_spec(
                old(self)@,
                live@,
                first_with_title(windows@, title@),
            ),
            old(self)@.disjoint() ==> final(self)@.disjoint(),
    {
        let found = find_window_by_title(windows, title);
        self.toggle_window(live, found)
    }

    /// Ends a tri-state toggle: once the window reached the active workspace
    /// it leaves the staged set and becomes sticky; tells that it is sticky.
    pub fn finish_toggle(&mut self, window_id: u64, moved: bool) -> (r: Result<bool, EngineError>)
        ensures
            (final(self)@, r) == finish_toggle_spec(old(self)@, window_id, moved),
            old(self)@.disjoint() ==> final(self)@.disjoint(),
    {
        if !moved {
            return Err(EngineError::HostRejected);
        }
        self.staged_set.remove(&window_id);
        self.sticky_windows.insert(window_id);
        Ok(true)
    }

    /// The stage toggle on the window that was found: a sticky window goes to
    /// the staging workspace, a staged one to `workspace_id`.
    pub fn toggle_stage_window(
        &self,
        live: &HashSet<u64>,
        found: Option<u64>,
        workspace_id: u64,
    ) -> (r: Result<WindowMove, EngineError>)
        ensures
            r == stage_toggle_spec(self@, live@, found, workspace_id),
    {
        let id = match found {
            None => return Err(EngineError::NoMatch),
            Some(id) => id,
        };
        if !live.contains(&id) {
            return Err(EngineError::ResourceNotFound);
        }
        let sticky = self.sticky_windows.contains(&id);
        let staged = self.staged_set.contains(&id);
        if !sticky && !staged {
            Err(EngineError::NotSticky)
        } else if sticky && !staged {
            Ok(WindowMove { window_id: id, destination: Destination::Stage })
        } else if !sticky && staged {
            Ok(WindowMove { window_id: id, destination: Destination::Workspace(workspace_id) })
        } else {
            Err(EngineError::InvalidState)
        }
    }

    /// The stage toggle on the first window whose application id is `appid`.
    pub fn toggle_stage_by_appid(
        &self,
        windows: &Vec<WindowInfo>,
        live: &HashSet<u64>,
        appid: &str,
        workspace_id: u64,
    ) -> (r: Result<WindowMove, EngineError>)
        ensures
            r == stage_toggle_spec(
                self@,
                live@,
                first_with_appid(windows@, appid@),
                workspace_id,
            ),
    {
        let found = find_window_by_appid(windows, appid);
        self.toggle_stage_window(live, found, workspace_id)
    }

    /// The stage toggle on the first window whose title contains `title`.
    pub fn toggle_stage_by_title(
        &self,
        windows: &Vec<WindowInfo>,
        live: &HashSet<u64>,
        title: &str,
        workspace_id: u64,
    ) -> (r: Result<WindowMove, EngineError>)
        ensures
            r == stage_toggle_spec(
                self@,
                live@,
                first_with_title(windows@, title@),
                workspace_id,
            ),
    {
        let found = find_window_by_title(windows, title);
        self.toggle_stage_window(live, found, workspace_id)
    }

    /// Decides the staging of a window: it must be live, sticky and not staged.
    pub fn stage_window(&self, live: &HashSet<u64>, window_id: u64) -> (r: Result<
        WindowMove,
        EngineError,
    >)
        ensures
            r == stage_spec(self@, live@, window_id),
    {
        if !live.contains(&window_id) {
            return Err(EngineError::ResourceNotFound);
        }
        if self.staged_set.contains(&window_id) {
            return Err(EngineError::AlreadyInTargetState);
        }
        if self.sticky_windows.contains(&window_id) {
            Ok(WindowMove { window_id, destination: Destination::Stage })
        } else {
            Err(EngineError::NotSticky)
        }
    }

    /// Decides the staging of the focused window.
    pub fn stage_active_window(&self, live: &HashSet<u64>, active_id: u64) -> (r: Result<
        WindowMove,
        EngineError,
    >)
        ensures
            r == stage_spec(self@, live@, active_id),
    {
        self.stage_window(live, active_id)
    }

    /// Decides the unstaging of a window to `workspace_id`: it must be live,
    /// staged and not sticky.
    pub fn unstage_window(&self, live: &HashSet<u64>, window_id: u64, workspace_id: u64) -> (r:
        Result<WindowMove, EngineError>)
        ensures
            r == unstage_spec(self@, live@, window_id, workspace_id),
    {
        if !live.contains(&window_id) {
            return Err(EngineError::ResourceNotFound);
        }
        if self.sticky_windows.contains(&window_id) {
            return Err(EngineError::AlreadyInTargetState);
        }
        if self.staged_set.contains(&window_id) {
            Ok(WindowMove { window_id, destination: Destination::Workspace(workspace_id) })
        } else {
            Err(EngineError::NotStaged)
        }
    }

    /// Decides the unstaging of the focused window.
    pub fn unstage_active_window(&self, live: &HashSet<u64>, active_id: u64, workspace_id: u64) -> (r:
        Result<WindowMove, EngineError>)
        ensures
            r == unstage_spec(self@, live@, active_id, workspace_id),
    {
        self.unstage_window(live, active_id, workspace_id)
    }

    /// Commits a single-window move decided by a stage, unstage or stage
    /// toggle, given whether the compositor performed it.
    pub fn finish_move(&mut self, mv: WindowMove, moved: bool) -> (r: Result<(), EngineError>)
        ensures
            (final(self)@, r) == finish_move_spec(old(self)@, mv, moved),
            old(self)@.disjoint() && (moved || match mv.destination {
                Destination::Stage => !old(self)@.staged.contains(mv.window_id),
                Destination::Workspace(_) => !old(self)@.sticky.contains(mv.window_id),
            }) ==> final(self)@.disjoint(),
    {
        let id = mv.window_id;
        match mv.destination {
            Destination::Stage => {
                if moved {
                    self.sticky_windows.remove(&id);
                    self.staged_set.insert(id);
                    Ok(())
                } else {
                    self.sticky_windows.insert(id);
                    Err(EngineError::HostRejected)
                }
            },
            Destination::Workspace(_) => {
                if moved {
                    self.staged_set.remove(&id);
                    self.sticky_windows.insert(id);
                    Ok(())
                } else {
                    self.staged_set.insert(id);
                    Err(EngineError::HostRejected)
                }
            },
        }
    }

    pub fn is_window_staged(&self, window_id: u64) -> (r: bool)
        ensures
            r == self@.staged.contains(window_id),
    {
        self.staged_set.contains(&window_id)
    }

    pub fn is_window_sticky(&self, window_id: u64) -> (r: bool)
        ensures
            r == self@.sticky.contains(window_id),
    {
        self.sticky_windows.contains(&window_id)
    }

    /// The windows that staging everything is to move: the live sticky ones.
    pub fn stage_all_windows(&self, live: &HashSet<u64>) -> (r: Vec<u64>)
        ensures
            r@.no_duplicates(),
            r@.to_set() == self@.sticky.intersect(live@),
    {
        members_in(&self.sticky_windows, live)
    }

    /// Commits staging everything: each window whose move succeeded leaves
    /// the sticky set for the staged set; returns how many moves succeeded.
    pub fn finish_stage_all(&mut self, outcomes: &Vec<(u64, bool)>) -> (r: usize)
        ensures
            r == count_moved(outcomes@),
            final(self)@.sticky == old(self)@.sticky.difference(moved_ids(outcomes@)),
            final(self)@.staged == old(self)@.staged.union(moved_ids(outcomes@)),
            old(self)@.disjoint() ==> final(self)@.disjoint(),
    {
        let ghost start = self@;
        let mut count: usize = 0;
        let mut i: usize = 0;
        proof {
            assert(outcomes@.take(0) =~= Seq::<(u64, bool)>::empty());
            assert(moved_ids(outcomes@.take(0)) =~= Set::<u64>::empty());
            assert(start.sticky.difference(Set::empty()) =~= start.sticky);
            assert(start.staged.union(Set::empty()) =~= start.staged);
        }
        while i < outcomes.len()
            invariant
                i <= outcomes.len(),
                count == count_moved(outcomes@.take(i as int)),
                self@.sticky == start.sticky.difference(moved_ids(outcomes@.take(i as int))),
                self@.staged == start.staged.union(moved_ids(outcomes@.take(i as int))),
            decreases outcomes.len() - i,
        {
            let (id, ok) = outcomes[i];
            proof {
                lemma_moved_step(outcomes@, i as int);
            }
            if ok {
                self.sticky_windows.remove(&id);
                self.staged_set.insert(id);
                count = count + 1;
                proof {
                    let m = moved_ids(outcomes@.take(i as int));
                    assert(start.sticky.difference(m).remove(id) =~= start.sticky.difference(
                        m.insert(id),
                    ));
                    assert(start.staged.union(m).insert(id) =~= start.staged.union(m.insert(id)));
                }
            }
            i = i + 1;
        }
        proof {
            assert(outcomes@.take(outcomes.len() as int) =~= outcomes@);
            assert(start.disjoint() ==> self@.disjoint());
        }
        count
    }

    /// The staged windows, each once, in no particular order.
    pub fn list_staged_windows(&self) -> (r: Vec<u64>)
        ensures
            r@.no_duplicates(),
            r@.to_set() == self@.staged,
    {
        let r = members_in(&self.staged_set, &self.staged_set);
        proof {
            assert(self@.staged.intersect(self@.staged) =~= self@.staged);
        }
        r
    }

    /// The windows that unstaging everything is to move: the live staged ones.
    pub fn unstage_all_windows(&self, live: &HashSet<u64>) -> (r: Vec<u64>)
        ensures
            r@.no_duplicates(),
            r@.to_set() == self@.staged.intersect(live@),
    {
        members_in(&self.staged_set, live)
    }

    /// Commits unstaging everything: each window whose move succeeded leaves
    /// the staged set for the sticky set; returns how many moves succeeded.
    pub fn finish_unstage_all(&mut self, outcomes: &Vec<(u64, bool)>) -> (r: usize)
        ensures
            r == count_moved(outcomes@),
            final(self)@.staged == old(self)@.staged.difference(moved_ids(outcomes@)),
            final(self)@.sticky == old(self)@.sticky.union(moved_ids(outcomes@)),
            old(self)@.disjoint() ==> final(self)@.disjoint(),
    {
        let ghost start = self@;
        let mut count: usize = 0;
        let mut i: usize = 0;
        proof {
            assert(outcomes@.take(0) =~= Seq::<(u64, bool)>::empty());
            assert(moved_ids(outcomes@.take(0)) =~= Set::<u64>::empty());
            assert(start.staged.difference(Set::empty()) =~= start.staged);
            assert(start.sticky.union(Set::empty()) =~= start.sticky);
        }
        while i < outcomes.len()
            invariant
                i <= outcomes.len(),
                count == count_moved(outcomes@.take(i as int)),
                self@.staged == start.staged.difference(moved_ids(outcomes@.take(i as int))),
                self@.sticky == start.sticky.union(moved_ids(outcomes@.take(i as int))),
            decreases outcomes.len() - i,
        {
            let (id, ok) = outcomes[i];
            proof {
                lemma_moved_step(outcomes@, i as int);
            }
            if ok {
                self.staged_set.remove(&id);
                self.sticky_windows.insert(id);
                count = count + 1;
                proof {
                    let m = moved_ids(outcomes@.take(i as int));
                    assert(start.staged.difference(m).remove(id) =~= start.staged.difference(
                        m.insert(id),
                    ));
                    assert(start.sticky.union(m).insert(id) =~= start.sticky.union(m.insert(id)));
                }
            }
            i = i + 1;
        }
        proof {
            assert(outcomes@.take(outcomes.len() as int) =~= outcomes@);
            assert(start.disjoint() ==> self@.disjoint());
        }
        count
    }

    /// On activation of a workspace, drops the sticky windows that are no
    /// longer live and returns the remaining sticky windows, each once: the
    /// ones to move to the new workspace.
    pub fn handle_workspace_activation(&mut self, live: &HashSet<u64>) -> (r: Vec<u64>)
        ensures
            final(self)@.sticky == old(self)@.sticky.intersect(live@),
            final(self)@.staged == old(self)@.staged,
            r@.no_duplicates(),
            r@.to_set() == final(self)@.sticky,
            old(self)@.disjoint() ==> final(self)@.disjoint(),
    {
        let keep = members_in(&self.sticky_windows, live);
        let mut next: HashSet<u64> = HashSet::new();
        let mut i: usize = 0;
        while i < keep.len()
            invariant
                i <= keep.len(),
                next@ == keep@.take(i as int).to_set(),
            decreases keep.len() - i,
        {
            next.insert(keep[i]);
            proof {
                assert(keep@.take(i + 1) =~= keep@.take(i as int).push(keep@[i as int]));
                keep@.take(i as int).lemma_push_to_set_commute(keep@[i as int]);
            }
            i = i + 1;
        }
        proof {
            assert(keep@.take(keep.len() as int) =~= keep@);
        }
        self.sticky_windows = next;
        keep
    }
}

/// Every transition keeps sticky and staged disjoint: adding, removing,
/// toggling the focused window, the tri-state toggle and its commit, the
/// commits of staging and unstaging everything, and the pruning on workspace
/// activation.
pub proof fn lemma_transitions_keep_disjoint(
    p: Policy,
    live: Set<u64>,
    id: u64,
    found: Option<u64>,
    moved: bool,
    outcomes: Seq<(u64, bool)>,
)
    requires
        p.disjoint(),
    ensures
        add_spec(p, live, id).0.disjoint(),
        remove_spec(p, live, id).0.disjoint(),
        toggle_active_spec(p, live, id).0.disjoint(),
        toggle_spec(p, live, found).0.disjoint(),
        finish_toggle_spec(p, id, moved).0.disjoint(),
        (Policy {
            sticky: p.sticky.difference(moved_ids(outcomes)),
            staged: p.staged.union(moved_ids(outcomes)),
        }).disjoint(),
        (Policy {
            sticky: p.sticky.union(moved_ids(outcomes)),
            staged: p.staged.difference(moved_ids(outcomes)),
        }).disjoint(),
        with_sticky(p, p.sticky.intersect(live)).disjoint(),
{
}

/// A move decided by `stage_window`, `unstage_window` or a stage toggle and
/// then committed, whether or not the compositor performed it, never leaves a
/// window both sticky and staged.
pub proof fn lemma_decided_moves_keep_disjoint(
    p: Policy,
    live: Set<u64>,
    id: u64,
    found: Option<u64>,
    workspace_id: u64,
    moved: bool,
)
    requires
        p.disjoint(),
    ensures
        stage_spec(p, live, id) is Ok ==> finish_move_spec(
            p,
            stage_spec(p, live, id)->Ok_0,
            moved,
        ).0.disjoint(),
        unstage_spec(p, live, id, workspace_id) is Ok ==> finish_move_spec(
            p,
            unstage_spec(p, live, id, workspace_id)->Ok_0,
            moved,
        ).0.disjoint(),
        stage_toggle_spec(p, live, found, workspace_id) is Ok ==> finish_move_spec(
            p,
            stage_toggle_spec(p, live, found, workspace_id)->Ok_0,
            moved,
        ).0.disjoint(),
{
}

/// Adding a live window that is neither sticky nor staged reports `true`;
/// adding it again reports `false`.
pub proof fn lemma_add_twice(p: Policy, live: Set<u64>, id: u64)
    requires
        live.contains(id),
        !p.sticky.contains(id),
        !p.staged.contains(id),
    ensures
        add_spec(p, live, id).1 == Ok::<bool, EngineError>(true),
        add_spec(add_spec(p, live, id).0, live, id).1 == Ok::<bool, EngineError>(false),
{
}

/// Removing a live sticky window reports `true`; removing it again reports
/// `false`.
pub proof fn lemma_remove_twice(p: Policy, live: Set<u64>, id: u64)
    requires
        live.contains(id),
        p.sticky.contains(id),
    ensures
        remove_spec(p, live, id).1 == Ok::<bool, EngineError>(true),
        remove_spec(remove_spec(p, live, id).0, live, id).1 == Ok::<bool, EngineError>(false),
{
}

/// Staging a live sticky window and then unstaging it, with both moves
/// performed, leaves it sticky and not staged: the state is restored.
pub proof fn lemma_stage_round_trip(p: Policy, live: Set<u64>, id: u64, workspace_id: u64)
    requires
        live.contains(id),
        p.sticky.contains(id),
        !p.staged.contains(id),
    ensures
        stage_spec(p, live, id) is Ok,
        ({
            let mid = finish_move_spec(p, stage_spec(p, live, id)->Ok_0, true).0;
            &&& unstage_spec(mid, live, id, workspace_id) is Ok
            &&& ({
                let last = finish_move_spec(
                    mid,
                    unstage_spec(mid, live, id, workspace_id)->Ok_0,
                    true,
                ).0;
                &&& last.sticky.contains(id)
                &&& !last.staged.contains(id)
                &&& last == p
            })
        }),
{
    let mid = finish_move_spec(p, stage_spec(p, live, id)->Ok_0, true).0;
    let last = finish_move_spec(mid, unstage_spec(mid, live, id, workspace_id)->Ok_0, true).0;
    assert(last.sticky =~= p.sticky);
    assert(last.staged =~= p.staged);
}

/// When the move that staging decided fails, the window stays sticky, is not
/// staged, and the state is unchanged.
pub proof fn lemma_stage_rollback(p: Policy, live: Set<u64>, id: u64)
    requires
        stage_spec(p, live, id) is Ok,
    ensures
        ({
            let (mid, r) = finish_move_spec(p, stage_spec(p, live, id)->Ok_0, false);
            &&& r == Err::<(), EngineError>(EngineError::HostRejected)
            &&& mid.sticky.contains(id)
            &&& !mid.staged.contains(id)
            &&& mid == p
        }),
{
    let mid = finish_move_spec(p, stage_spec(p, live, id)->Ok_0, false).0;
    assert(mid.sticky =~= p.sticky);
}

/// Toggling a live window that is in neither set, with the move performed,
/// makes it sticky; toggling it again leaves it in neither set.
pub proof fn lemma_toggle_twice(p: Policy, live: Set<u64>, id: u64)
    requires
        live.contains(id),
        !p.sticky.contains(id),
        !p.staged.contains(id),
    ensures
        toggle_spec(p, live, Some(id)) == (p, Ok::<ToggleStep, EngineError>(
            ToggleStep::MoveToActive { window_id: id },
        )),
        ({
            let mid = finish_toggle_spec(p, id, true).0;
            let (last, r_again) = toggle_spec(mid, live, Some(id));
            &&& mid.sticky.contains(id)
            &&& !mid.staged.contains(id)
            &&& r_again == Ok::<ToggleStep, EngineError>(ToggleStep::Unstuck)
            &&& !last.sticky.contains(id)
            &&& !last.staged.contains(id)
        }),
{
}

} // verus!
