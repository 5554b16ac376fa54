//! The desktop of the window manager, as the bar shows it: what has to be
//! asked anew after a change, and the list of workspaces that is made of the
//! answers.

use vstd::prelude::*;

use crate::data::{BasicDesktopState, BasicWorkspace, WorkspaceId};

verus! {

/// What the window manager reports, or what else makes the bar look again.
#[derive(Debug, Clone, Copy, PartialEq, Eq, Structural)]
pub enum DesktopChange {
    MonitorAdded,
    ActiveMonitorChanged,
    MonitorRemoved,
    WorkspaceChanged,
    WorkspaceMoved,
    WorkspaceAdded,
    WorkspaceDeleted,
    WorkspaceRenamed,
    /// A reload was asked for.
    Reload,
    /// Anything that does not bear on workspaces or monitors.
    Other,
}

/// What has to be asked of the window manager anew.
#[derive(Debug, Clone, Copy, PartialEq, Eq, Structural)]
pub struct Refetch {
    pub workspaces: bool,
    pub monitors: bool,
}

/// What has to be asked anew after `change`: the monitors after a change of
/// monitors or of the workspace shown, the workspaces after a change in the
/// list of workspaces, both after a reload, nothing after anything else.
pub open spec fn refetch_of(change: DesktopChange) -> Refetch {
    match change {
        DesktopChange::MonitorAdded
        | DesktopChange::ActiveMonitorChanged
        | DesktopChange::MonitorRemoved
        | DesktopChange::WorkspaceChanged => Refetch { workspaces: false, monitors: true },
        DesktopChange::WorkspaceMoved
        | DesktopChange::WorkspaceAdded
        | DesktopChange::WorkspaceDeleted
        | DesktopChange::WorkspaceRenamed => Refetch { workspaces: true, monitors: false },
        DesktopChange::Reload => Refetch { workspaces: true, monitors: true },
        DesktopChange::Other => Refetch { workspaces: false, monitors: false },
    }
}

/// What has to be asked anew after `change`: see `refetch_of`.
pub fn refetch_for(change: DesktopChange) -> (r: Refetch)
    ensures
        r == refetch_of(change),
{
    match change {
        DesktopChange::MonitorAdded
        | DesktopChange::ActiveMonitorChanged
        | DesktopChange::MonitorRemoved
        | DesktopChange::WorkspaceChanged => Refetch { workspaces: false, monitors: true },
        DesktopChange::WorkspaceMoved
        | DesktopChange::WorkspaceAdded
        | DesktopChange::WorkspaceDeleted
        | DesktopChange::WorkspaceRenamed => Refetch { workspaces: true, monitors: false },
        DesktopChange::Reload => Refetch { workspaces: true, monitors: true },
        DesktopChange::Other => Refetch { workspaces: false, monitors: false },
    }
}

/// A monitor as the window manager knows it: its name, and the number of the
/// workspace that it shows.
#[derive(Debug, Clone)]
pub struct MonitorSlot {
    pub name: String,
    pub active_workspace: i32,
}

/// A workspace as the window manager reports it: its number, the number as
/// text, its name, and the name of its monitor.
#[derive(Debug, Clone)]
pub struct WorkspaceSeen {
    pub id: i32,
    pub label: String,
    pub name: String,
    pub monitor: String,
}

/// The place of the first monitor of `monitors` named `name`, or the number
/// of monitors where none is.
pub open spec fn monitor_position(monitors: Seq<MonitorSlot>, name: Seq<char>) -> int
    decreases monitors.len(),
{
    if monitors.len() == 0 {
        0
    } else if monitors[0].name@ == name {
        0
    } else {
        1 + monitor_position(monitors.drop_first(), name)
    }
}

/// The monitor of the workspace `seen` among `monitors`, if it is known.
pub open spec fn monitor_of(seen: WorkspaceSeen, monitors: Seq<MonitorSlot>) -> Option<MonitorSlot> {
    if monitor_position(monitors, seen.monitor@) < monitors.len() {
        Some(monitors[monitor_position(monitors, seen.monitor@)])
    } else {
        None
    }
}

/// Whether `shown` is the workspace `seen` as the bar shows it: named as it
/// is, on the monitor it belongs to, and active where that monitor shows it.
pub open spec fn shows(shown: BasicWorkspace, seen: WorkspaceSeen, monitors: Seq<MonitorSlot>) -> bool {
    &&& shown.id@ == seen.label@
    &&& shown.name@ == seen.name@
    &&& match monitor_of(seen, monitors) {
        Some(monitor) => {
            &&& shown.monitor matches Some(name)
            &&& name@ == monitor.name@
            &&& shown.is_active == (monitor.active_workspace == seen.id)
        },
        None => shown.monitor is None && !shown.is_active,
    }
}

/// A place that holds the name, with none before it that does, is
/// `monitor_position`.
pub proof fn lemma_monitor_position(monitors: Seq<MonitorSlot>, name: Seq<char>, i: int)
    requires
        0 <= i <= monitors.len(),
        forall|j: int| 0 <= j < i ==> (#[trigger] monitors[j]).name@ != name,
        i < monitors.len() ==> monitors[i].name@ == name,
    ensures
        monitor_position(monitors, name) == i,
    decreases monitors.len(),
{
    if i > 0 {
        let rest = monitors.drop_first();
        assert(monitors[0].name@ != name);
        assert forall|j: int| 0 <= j < i - 1 implies (#[trigger] rest[j]).name@ != name by {
            assert(rest[j] == monitors[j + 1]);
        }
        lemma_monitor_position(rest, name, i - 1);
    }
}

/// The workspace `seen` as the bar shows it.
pub fn basic_workspace(seen: &WorkspaceSeen, monitors: &Vec<MonitorSlot>) -> (r: BasicWorkspace)
    ensures
        shows(r, *seen, monitors@),
{
    let mut monitor: Option<String> = None;
    let mut is_active = false;
    let n = monitors.len();
    let mut i: usize = 0;
    while i < n && !(monitors[i].name == seen.monitor)
        invariant
            i <= n,
            n == monitors@.len(),
            forall|j: int| 0 <= j < i ==> (#[trigger] monitors@[j]).name@ != seen.monitor@,
        decreases n - i,
    {
        i = i + 1;
    }
    proof {
        lemma_monitor_position(monitors@, seen.monitor@, i as int);
    }
    if i < n {
        monitor = Some(monitors[i].name.clone());
        is_active = monitors[i].active_workspace == seen.id;
    }
    BasicWorkspace {
        id: WorkspaceId::new(seen.label.clone()),
        name: seen.name.clone(),
        monitor,
        is_active,
    }
}

/// Whether the text `a` comes before the text `b` or is the same: texts are
/// ordered by their bytes, the first byte that differs deciding, and a text
/// comes before every longer text that starts with it.
pub open spec fn bytes_le(a: Seq<u8>, b: Seq<u8>) -> bool
    decreases a.len(),
{
    if a.len() == 0 {
        true
    } else if b.len() == 0 {
        false
    } else if a[0] != b[0] {
        a[0] < b[0]
    } else {
        bytes_le(a.drop_first(), b.drop_first())
    }
}

/// Whether the workspaces stand in the order of their names.
pub open spec fn in_name_order(workspaces: Seq<BasicWorkspace>) -> bool {
    forall|i: int, j: int|
        0 <= i < j < workspaces.len() ==> bytes_le(
            vstd::utf8::encode_utf8((#[trigger] workspaces[i]).name@),
            vstd::utf8::encode_utf8((#[trigger] workspaces[j]).name@),
        )
}

/// Sorts `workspaces` with the standard library's `sort_by_key` on the slice,
/// the key of a workspace being its name.
///
/// Taken on trust, as the standard library documents it: afterwards the list
/// holds what it held before, and it is in the order of the names, which for
/// strings is the order of their bytes.
#[verifier::external_body]
fn sort_by_name(workspaces: &mut Vec<BasicWorkspace>)
    ensures
        final(workspaces)@.to_multiset() == old(workspaces)@.to_multiset(),
        in_name_order(final(workspaces)@),
{
    workspaces.sort_by_key(|workspace| workspace.name.clone());
}

/// Whether `made` holds, at each place, the workspace of `seen` at that place
/// as the bar shows it.
pub open spec fn all_shown(
    made: Seq<BasicWorkspace>,
    seen: Seq<WorkspaceSeen>,
    monitors: Seq<MonitorSlot>,
) -> bool {
    &&& made.len() == seen.len()
    &&& forall|i: int| 0 <= i < made.len() ==> shows(#[trigger] made[i], seen[i], monitors)
}

/// The desktop that the bar shows for the workspaces `seen` and the monitors
/// `monitors`: every workspace, as `basic_workspace` makes it, in the order
/// of the names.
pub fn desktop_state(seen: &Vec<WorkspaceSeen>, monitors: &Vec<MonitorSlot>) -> (r: BasicDesktopState)
    ensures
        r.workspaces@.len() == seen@.len(),
        in_name_order(r.workspaces@),
        exists|made: Seq<BasicWorkspace>| #[trigger]
            all_shown(made, seen@, monitors@) && r.workspaces@.to_multiset() == made.to_multiset(),
{
    let n = seen.len();
    let mut workspaces: Vec<BasicWorkspace> = Vec::new();
    let mut i: usize = 0;
    while i < n
        invariant
            i <= n,
            n == seen@.len(),
            workspaces@.len() == i,
            forall|j: int| 0 <= j < i ==> shows(#[trigger] workspaces@[j], seen@[j], monitors@),
        decreases n - i,
    {
        workspaces.push(basic_workspace(&seen[i], monitors));
        i = i + 1;
    }
    let ghost made = workspaces@;
    sort_by_name(&mut workspaces);
    proof {
        made.to_multiset_ensures();
        workspaces@.to_multiset_ensures();
        assert(all_shown(made, seen@, monitors@));
    }
    BasicDesktopState { workspaces }
}

} // verus!
