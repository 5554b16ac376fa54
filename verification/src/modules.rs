//! What the data sources of the bar exchange with it, and the rules by which
//! the clock and the power-profile source act.

use vstd::prelude::*;

use crate::data::Position32;
use crate::tui::layout::TuiInteract;
use crate::tui::Element;

verus! {

/// The name of a data source.
#[derive(Debug, PartialEq, Eq, PartialOrd, Ord, Hash)]
pub struct ModuleId(String);

impl View for ModuleId {
    type V = Seq<char>;

    closed spec fn view(&self) -> Seq<char> {
        self.0@
    }
}

impl Clone for ModuleId {
    fn clone(&self) -> (r: Self)
        ensures
            r@ == self@,
    {
        ModuleId(self.0.clone())
    }
}

impl ModuleId {
    /// The source named `name`.
    pub fn new(name: String) -> (r: Self)
        ensures
            r@ == name@,
    {
        ModuleId(name)
    }

    /// The source's name.
    pub fn as_str(&self) -> (r: &str)
        ensures
            r@ == self@,
    {
        self.0.as_str()
    }
}

/// What the bar tells a data source.
#[derive(Debug)]
pub enum ModuleUpd {
    Pause,
    Unpause,
    Interact(TuiInteract),
}

/// The two kinds of menu.
#[derive(Debug, Clone, Copy, PartialEq, Eq, Structural)]
pub enum MenuKind {
    Tooltip,
    Context,
}

/// A request to open a menu on a monitor.
#[derive(Debug)]
pub struct OpenMenu {
    pub monitor: String,
    pub tui: Element,
    pub location: Position32,
    pub menu_kind: MenuKind,
}

/// What a data source asks the bar to do.
#[derive(Debug)]
#[non_exhaustive]
pub enum ModuleAct {
    /// Show, on each of these monitors, the element that goes with it.
    RenderByMonitor(Vec<(String, Element)>),
    /// Show this element on every monitor.
    RenderAll(Element),
    HideModule,
    OpenMenu(OpenMenu),
}

/// A power profile as the power-profile service describes it.
#[derive(Debug, Clone)]
pub struct Profile {
    pub profile: String,
    pub driver: String,
    pub platform_driver: Option<String>,
    pub cpu_driver: Option<String>,
}

/// The clock.
#[derive(Debug, Clone, Copy, PartialEq, Eq, Structural)]
pub struct TimeModule;

/// The shortest sleep of the clock, in milliseconds.
pub const MIN_SLEEP_MS: u64 = 250;

/// What the clock does next.
#[derive(Debug, Clone, Copy, PartialEq, Eq, Structural)]
pub enum ClockStep {
    /// Show the time, and remember this minute as shown.
    Render { minute: u32 },
    /// Sleep this many milliseconds, then look again; a reload request wakes
    /// the clock earlier and has it show the time anew.
    Sleep { millis: u64 },
}

/// What the clock does at `minute` and `second` of the hour when the minute
/// it showed last was `shown`: it shows the time when the minute has changed
/// or none was shown yet; else it sleeps half the time that is left of the
/// minute, and never less than `MIN_SLEEP_MS`.
pub open spec fn clock_step_of(shown: Option<u32>, minute: u32, second: u32) -> ClockStep {
    if shown != Some(minute) {
        ClockStep::Render { minute }
    } else {
        let left: int = if second >= 60 {
            0
        } else {
            60 - second
        };
        ClockStep::Sleep {
            millis: if 500 * left > MIN_SLEEP_MS {
                (500 * left) as u64
            } else {
                MIN_SLEEP_MS
            },
        }
    }
}

impl TimeModule {
    /// What the clock does next: see `clock_step_of`.
    pub fn step(shown: Option<u32>, minute: u32, second: u32) -> (r: ClockStep)
        ensures
            r == clock_step_of(shown, minute, second),
    {
        let same = match shown {
            Some(m) => m == minute,
            None => false,
        };
        if !same {
            ClockStep::Render { minute }
        } else {
            let left: u64 = if second >= 60 {
                0
            } else {
                60 - second as u64
            };
            let half = 500 * left;
            ClockStep::Sleep {
                millis: if half > MIN_SLEEP_MS {
                    half
                } else {
                    MIN_SLEEP_MS
                },
            }
        }
    }
}

/// The place of the first profile of `profiles` named `name`, or the number
/// of profiles where none is.
pub open spec fn profile_position(profiles: Seq<Profile>, name: Seq<char>) -> int
    decreases profiles.len(),
{
    if profiles.len() == 0 {
        0
    } else if profiles[0].profile@ == name {
        0
    } else {
        1 + profile_position(profiles.drop_first(), name)
    }
}

/// The profile to switch to from the one named `current` after `steps`
/// requests to cycle: that many places on in `profiles`, going round; the
/// first profile where the current one is not among them; none where there
/// are no profiles.
pub open spec fn next_profile_of(profiles: Seq<Profile>, current: Seq<char>, steps: nat) -> Option<
    int,
> {
    if profiles.len() == 0 {
        None
    } else {
        let at = profile_position(profiles, current);
        if at < profiles.len() {
            Some((at + steps) % (profiles.len() as int))
        } else {
            Some(0)
        }
    }
}

/// A place that holds the name, with none before it that does, is
/// `profile_position`.
pub proof fn lemma_profile_position(profiles: Seq<Profile>, name: Seq<char>, i: int)
    requires
        0 <= i <= profiles.len(),
        forall|j: int| 0 <= j < i ==> (#[trigger] profiles[j]).profile@ != name,
        i < profiles.len() ==> profiles[i].profile@ == name,
    ensures
        profile_position(profiles, name) == i,
    decreases profiles.len(),
{
    if i > 0 {
        let rest = profiles.drop_first();
        assert(profiles[0].profile@ != name);
        assert forall|j: int| 0 <= j < i - 1 implies (#[trigger] rest[j]).profile@
            != name by {
            assert(rest[j] == profiles[j + 1]);
        }
        lemma_profile_position(rest, name, i - 1);
    }
}

/// The place in `profiles` of the profile to switch to: see
/// `next_profile_of`.
pub fn next_profile(profiles: &Vec<Profile>, current: &str, steps: usize) -> (r: Option<usize>)
    ensures
        r is Some <==> profiles@.len() > 0,
        r matches Some(i) ==> i < profiles@.len() && Some(i as int) == next_profile_of(
            profiles@,
            current@,
            steps as nat,
        ),
{
    let n = profiles.len();
    if n == 0 {
        return None;
    }
    let wanted = current.to_owned();
    let mut i: usize = 0;
    while i < n && !(profiles[i].profile == wanted)
        invariant
            i <= n,
            n == profiles@.len(),
            wanted@ == current@,
            forall|j: int|
                0 <= j < i ==> (#[trigger] profiles@[j]).profile@
                    != current@,
        decreases n - i,
    {
        i = i + 1;
    }
    proof {
        lemma_profile_position(profiles@, current@, i as int);
    }
    if i < n {
        let at: u128 = (i as u128 + steps as u128) % (n as u128);
        Some(at as usize)
    } else {
        Some(0)
    }
}

} // verus!
