//! Plain values that pass between the bar and its data sources.

use vstd::prelude::*;

verus! {

/// A pointer button.
#[derive(Debug, Clone, Copy, PartialEq, Eq, Hash, Structural)]
pub enum MouseButton {
    Left,
    Right,
    Middle,
}

/// A scroll direction.
#[derive(Debug, Clone, Copy, PartialEq, Eq, Structural)]
pub enum Direction {
    Up,
    Down,
    Left,
    Right,
}

/// What the user did with the pointer.
#[derive(Debug, Clone, Copy, PartialEq, Eq, Structural)]
pub enum InteractKind {
    Hover,
    Click(MouseButton),
    Scroll(Direction),
}

/// A place on screen, in pixels.
#[derive(Clone, Copy, Debug, PartialEq, Eq, Structural)]
pub struct Position32 {
    pub x: u32,
    pub y: u32,
}

impl Default for Position32 {
    fn default() -> (r: Self)
        ensures
            r == (Position32 { x: 0, y: 0 }),
    {
        Position32 { x: 0, y: 0 }
    }
}

/// An interaction: where it is reported, what it was aimed at, and its kind.
#[derive(Debug)]
pub struct InteractGeneric<T> {
    pub location: Position32,
    pub target: T,
    pub kind: InteractKind,
}

/// The name of a workspace of the window manager.
#[derive(Debug, PartialEq, Eq, PartialOrd, Ord)]
pub struct WorkspaceId(String);

impl View for WorkspaceId {
    type V = Seq<char>;

    closed spec fn view(&self) -> Seq<char> {
        self.0@
    }
}

impl Clone for WorkspaceId {
    fn clone(&self) -> (r: Self)
        ensures
            r@ == self@,
    {
        WorkspaceId(self.0.clone())
    }
}

impl From<String> for WorkspaceId {
    fn from(value: String) -> (r: Self) {
        WorkspaceId(value)
    }
}

impl vstd::std_specs::convert::FromSpecImpl<String> for WorkspaceId {
    open spec fn obeys_from_spec() -> bool {
        true
    }

    closed spec fn from_spec(value: String) -> Self {
        WorkspaceId(value)
    }
}

impl WorkspaceId {
    /// The identifier that reads `value`.
    pub fn new(value: String) -> (r: Self)
        ensures
            r@ == value@,
    {
        WorkspaceId(value)
    }

    /// The identifier's text.
    pub fn as_str(&self) -> (r: &str)
        ensures
            r@ == self@,
    {
        self.0.as_str()
    }
}

/// A workspace as the bar shows it.
#[derive(Clone, Debug)]
pub struct BasicWorkspace {
    pub id: WorkspaceId,
    pub name: String,
    pub monitor: Option<String>,
    pub is_active: bool,
}

/// The workspaces of the desktop, in the order in which they are shown.
#[derive(Clone, Debug)]
pub struct BasicDesktopState {
    pub workspaces: Vec<BasicWorkspace>,
}

impl Default for BasicDesktopState {
    fn default() -> (r: Self)
        ensures
            r.workspaces@.len() == 0,
    {
        BasicDesktopState { workspaces: Vec::new() }
    }
}

} // verus!
