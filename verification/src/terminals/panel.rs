//! The panel side: how the host terminal is asked to run a panel process, and
//! what that process does with the updates and the input it gets.

use vstd::prelude::*;
use vstd::string::StrSliceExecFns;
use vstd::string::StringSliceAdditionalSpecFns;

use crate::terminals::{InputEvent, TermEvent, TermId, TermUpdate};
use crate::tui::layout::Sizes;

verus! {

/// The argument by which the program knows that it was started as a panel
/// process.
pub const INTERNAL_ARG: &'static str = "internal-managed-terminal";

/// The environment variable that tells a panel process the path of its socket.
pub const SOCK_PATH_VAR: &'static str = "BAR_TERM_INSTANCE_SOCK_PATH";

/// The environment variable that tells a panel process its identity.
pub const TERM_ID_VAR: &'static str = "BAR_TERM_INSTANCE_ID";

/// The command of the host terminal.
pub const HOST_COMMAND: &'static str = "kitten";

/// The environment variable in which the host terminal tells where its remote
/// control listens.
pub const LISTEN_ON_VAR: &'static str = "KITTY_LISTEN_ON";

/// A command to run: the program, its arguments, and the environment
/// variables to set for it, later ones over earlier ones.
#[derive(Debug)]
pub struct Command {
    pub program: Vec<u8>,
    pub args: Vec<Vec<u8>>,
    pub envs: Vec<(Vec<u8>, Vec<u8>)>,
}

/// The byte strings that the vectors of `v` hold.
pub open spec fn contents(v: Seq<Vec<u8>>) -> Seq<Seq<u8>> {
    v.map_values(|x: Vec<u8>| x@)
}

/// The pairs of byte strings that the pairs of `v` hold.
pub open spec fn pair_contents(v: Seq<(Vec<u8>, Vec<u8>)>) -> Seq<(Seq<u8>, Seq<u8>)> {
    v.map_values(|x: (Vec<u8>, Vec<u8>)| (x.0@, x.1@))
}

/// The command that starts the panel process of the instance `id`.
///
/// The host terminal is run in panel mode with the caller's extra arguments,
/// then this program's own path `exe` and the argument that marks a panel
/// process. The caller's extra variables are set, then the socket's path and
/// the instance's identity.
pub fn panel_command(
    id: &TermId,
    exe: Vec<u8>,
    sock_path: Vec<u8>,
    extra_args: Vec<Vec<u8>>,
    extra_envs: Vec<(Vec<u8>, Vec<u8>)>,
) -> (r: Command)
    ensures
        r.program@ == HOST_COMMAND.spec_bytes(),
        contents(r.args@) == seq!["panel".spec_bytes()] + contents(extra_args@) + seq![
            exe@,
            INTERNAL_ARG.spec_bytes(),
        ],
        pair_contents(r.envs@) == pair_contents(extra_envs@) + seq![
            (SOCK_PATH_VAR.spec_bytes(), sock_path@),
            (TERM_ID_VAR.spec_bytes(), id@),
        ],
{
    let ghost given_args = extra_args@;
    let ghost given_envs = extra_envs@;
    let mut args: Vec<Vec<u8>> = Vec::new();
    args.push("panel".as_bytes_vec());
    let mut rest = extra_args;
    args.append(&mut rest);
    args.push(exe);
    args.push(INTERNAL_ARG.as_bytes_vec());
    let mut envs = extra_envs;
    envs.push((SOCK_PATH_VAR.as_bytes_vec(), sock_path));
    envs.push((TERM_ID_VAR.as_bytes_vec(), id.clone().into_bytes()));
    assert(contents(args@) =~= seq!["panel".spec_bytes()] + contents(given_args) + seq![
        exe@,
        INTERNAL_ARG.spec_bytes(),
    ]);
    assert(pair_contents(envs@) =~= pair_contents(given_envs) + seq![
        (SOCK_PATH_VAR.spec_bytes(), sock_path@),
        (TERM_ID_VAR.spec_bytes(), id@),
    ]);
    Command { program: HOST_COMMAND.as_bytes_vec(), args, envs }
}

/// What a panel process does with an update.
#[derive(Debug)]
pub enum PanelAction {
    /// Write these bytes to the panel's output.
    Write(Vec<u8>),
    /// Flush the panel's output.
    Flush,
    /// Run this command and wait for it.
    Run(Command),
    /// Do nothing but report that the host terminal did not tell where its
    /// remote control listens.
    NoListenAddress,
    /// Stop taking updates.
    Stop,
}

/// What a panel process does with `update`, where `listen_on` is the address
/// of the host terminal's remote control, if the environment gives it.
///
/// Remote control goes through the host terminal's own command: `@`, `--to`,
/// the address, then the arguments of the update. Without an address it is
/// not run.
pub fn panel_action(update: TermUpdate, listen_on: Option<Vec<u8>>) -> (r: PanelAction)
    ensures
        match update {
            TermUpdate::Print(bytes) => r matches PanelAction::Write(out) && out@ == bytes@,
            TermUpdate::Flush => r is Flush,
            TermUpdate::Shutdown => r is Stop,
            TermUpdate::Shell(program, args) => {
                &&& r matches PanelAction::Run(command)
                &&& command.program@ == program@
                &&& contents(command.args@) == contents(args@)
                &&& command.envs@.len() == 0
            },
            TermUpdate::RemoteControl(args) => match listen_on {
                None => r is NoListenAddress,
                Some(address) => {
                    &&& r matches PanelAction::Run(command)
                    &&& command.program@ == HOST_COMMAND.spec_bytes()
                    &&& contents(command.args@) == seq![
                        "@".spec_bytes(),
                        "--to".spec_bytes(),
                        address@,
                    ] + contents(args@)
                    &&& command.envs@.len() == 0
                },
            },
        },
{
    match update {
        TermUpdate::Print(bytes) => PanelAction::Write(bytes),
        TermUpdate::Flush => PanelAction::Flush,
        TermUpdate::Shutdown => PanelAction::Stop,
        TermUpdate::Shell(program, args) => PanelAction::Run(
            Command { program, args, envs: Vec::new() },
        ),
        TermUpdate::RemoteControl(args) => match listen_on {
            None => PanelAction::NoListenAddress,
            Some(address) => {
                let ghost given = args@;
                let mut all: Vec<Vec<u8>> = Vec::new();
                all.push("@".as_bytes_vec());
                all.push("--to".as_bytes_vec());
                all.push(address);
                let mut rest = args;
                all.append(&mut rest);
                assert(contents(all@) =~= seq![
                    "@".spec_bytes(),
                    "--to".spec_bytes(),
                    address@,
                ] + contents(given));
                PanelAction::Run(
                    Command { program: HOST_COMMAND.as_bytes_vec(), args: all, envs: Vec::new() },
                )
            },
        },
    }
}

/// Whether the panel's extent has to be asked for before `event` is passed
/// on: after a resize it has.
pub fn wants_sizes(event: &InputEvent) -> (r: bool)
    ensures
        r == (*event is Resize),
{
    match event {
        InputEvent::Resize(_, _) => true,
        _ => false,
    }
}

/// The events that a panel process sends for the input `event`: the event
/// itself, and before it, after a resize, the panel's new extent `sizes`,
/// where it could be had.
pub fn events_for_input(event: InputEvent, sizes: Option<Sizes>) -> (r: Vec<TermEvent>)
    ensures
        event is Resize && sizes is Some ==> r@.len() == 2 && r@[0] == TermEvent::Sizes(
            sizes.unwrap(),
        ) && r@[1] == TermEvent::Crossterm(event),
        !(event is Resize && sizes is Some) ==> r@.len() == 1 && r@[0] == TermEvent::Crossterm(
            event,
        ),
{
    let mut out: Vec<TermEvent> = Vec::new();
    if wants_sizes(&event) {
        if let Some(sizes) = sizes {
            out.push(TermEvent::Sizes(sizes));
        }
    }
    out.push(TermEvent::Crossterm(event));
    out
}

} // verus!
