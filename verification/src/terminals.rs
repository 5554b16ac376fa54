//! Panel instances: their identity, the messages exchanged with them, the
//! frames those messages travel in, and the rules of their supervision.

pub mod bridge;
pub mod frame;
pub mod instance;
pub mod manager;
pub mod panel;

pub use panel::INTERNAL_ARG;

use vstd::prelude::*;
use vstd::slice::slice_to_vec;

use crate::tui::layout::{MouseEvent, Sizes};

verus! {

/// The stable identity of a panel instance: by convention one per monitor.
#[derive(Debug, PartialEq, Eq, PartialOrd, Ord, Hash)]
pub struct TermId(Vec<u8>);

impl View for TermId {
    type V = Seq<u8>;

    closed spec fn view(&self) -> Seq<u8> {
        self.0@
    }
}

impl Clone for TermId {
    fn clone(&self) -> (r: Self)
        ensures
            r@ == self@,
    {
        TermId(self.0.clone())
    }
}

/// Whether two byte strings are the same.
pub fn same_bytes(a: &[u8], b: &[u8]) -> (r: bool)
    ensures
        r == (a@ == b@),
{
    if a.len() != b.len() {
        return false;
    }
    let n = a.len();
    let mut i: usize = 0;
    while i < n
        invariant
            i <= n,
            n == a@.len(),
            n == b@.len(),
            forall|j: int| 0 <= j < i ==> a@[j] == b@[j],
        decreases n - i,
    {
        if a[i] != b[i] {
            return false;
        }
        i = i + 1;
    }
    assert(a@ =~= b@);
    true
}

impl TermId {
    /// The identity's bytes.
    pub fn as_bytes(&self) -> (r: &[u8])
        ensures
            r@ == self@,
    {
        self.0.as_slice()
    }

    /// The identity made of the bytes `s`.
    pub fn from_bytes(s: &[u8]) -> (r: Self)
        ensures
            r@ == s@,
    {
        TermId(slice_to_vec(s))
    }

    /// The identity's bytes, owned.
    pub fn into_bytes(self) -> (r: Vec<u8>)
        ensures
            r@ == self@,
    {
        self.0
    }

    /// Whether this and `other` are the same identity.
    pub fn same(&self, other: &TermId) -> (r: bool)
        ensures
            r == (self@ == other@),
    {
        same_bytes(self.0.as_slice(), other.0.as_slice())
    }
}

/// `crossterm::event::KeyEvent`, a key as the terminal reports it: passed on
/// and never looked into.
#[verifier::external_type_specification]
#[verifier::external_body]
pub struct ExKeyEvent(crossterm::event::KeyEvent);

/// `crossterm::event::KeyEvent` is a plain `Copy` struct: its clone is the
/// value itself.
pub assume_specification[ <crossterm::event::KeyEvent as Clone>::clone ](
    key: &crossterm::event::KeyEvent,
) -> (r: crossterm::event::KeyEvent)
    ensures
        r == *key,
;

/// A raw input event of the terminal that hosts a panel.
#[derive(Debug, Clone)]
pub enum InputEvent {
    FocusGained,
    FocusLost,
    /// A key, passed on as the terminal library reports it.
    Key(crossterm::event::KeyEvent),
    Mouse(MouseEvent),
    Paste(String),
    /// The terminal now has this many columns and rows.
    Resize(u16, u16),
}

/// A message from the controller to a panel process.
#[derive(Debug, Clone)]
pub enum TermUpdate {
    /// Bytes to write to the panel's output.
    Print(Vec<u8>),
    /// Flush what was written.
    Flush,
    /// Call the host terminal's remote control with these arguments.
    RemoteControl(Vec<Vec<u8>>),
    /// Run this command with these arguments.
    Shell(Vec<u8>, Vec<Vec<u8>>),
    /// Exit.
    Shutdown,
}

/// A message from a panel process to the controller.
#[derive(Debug, Clone)]
pub enum TermEvent {
    /// Raw input.
    Crossterm(InputEvent),
    /// The panel's extent: sent at start and after every resize.
    Sizes(Sizes),
}

/// A request to start a panel instance.
#[derive(Debug)]
pub struct SpawnTerm<E> {
    pub term_id: TermId,
    pub extra_args: Vec<Vec<u8>>,
    pub extra_envs: Vec<(Vec<u8>, Vec<u8>)>,
    /// Where the instance's events go.
    pub event_tx: E,
}

/// What the manager of the panel instances is asked to do.
#[derive(Debug)]
pub enum TermMgrUpdate<E> {
    /// Send the update to each of these instances.
    TermUpdate(Vec<TermId>, TermUpdate),
    SpawnPanel(SpawnTerm<E>),
}

} // verus!
