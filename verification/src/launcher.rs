//! Launch supervision: resolving which file in an installed bundle is the
//! executable, and the per-launch state machine that orders install, manifest
//! load, resolution, permissioning and process supervision.
//!
//! The machine decides; its caller performs each returned action (an install,
//! a directory listing, a spawn) and feeds the outcome back as the next
//! event. The lemmas at the bottom pin down how often a launch installs.

use vstd::prelude::*;
use crate::game::DevcadeGame;
use crate::game::game_is_empty;
use crate::text::ends_with;
use crate::text::prefix_before_dot;
use crate::text::prefix_before_dot_of;
use crate::text::str_ends_with;

verus! {

/// A runtime-descriptor file names the executable: `Foo.runtimeconfig.json`
/// means the executable is `Foo`.
pub open spec fn is_runtime_descriptor(name: Seq<char>) -> bool {
    ends_with(name, "runtimeconfig.json"@)
}

/// The views of a list of file names.
pub open spec fn names_of(files: Seq<String>) -> Seq<Seq<char>> {
    files.map_values(|s: String| s@)
}

/// The executable name: the before-the-dot prefix of the first
/// runtime-descriptor file, or the fallback (the manifest's game name) when
/// no descriptor is present.
pub open spec fn spec_resolve_executable(names: Seq<Seq<char>>, fallback: Seq<char>) -> Seq<char>
    decreases names.len(),
{
    if names.len() == 0 {
        fallback
    } else if is_runtime_descriptor(names[0]) {
        prefix_before_dot(names[0])
    } else {
        spec_resolve_executable(names.skip(1), fallback)
    }
}

/// Scan the runnable directory's file names for a runtime descriptor and
/// derive the executable name from it; fall back to the game's display name.
pub fn resolve_executable(files: &Vec<String>, game_name: &String) -> (r: String)
    ensures
        r@ == spec_resolve_executable(names_of(files@), game_name@),
{
    let ghost names = names_of(files@);
    proof {
        assert(names.skip(0) =~= names);
    }
    let mut i: usize = 0;
    while i < files.len()
        invariant
            i <= files@.len(),
            names == names_of(files@),
            names.len() == files@.len(),
            spec_resolve_executable(names, game_name@) == spec_resolve_executable(
                names.skip(i as int),
                game_name@,
            ),
        decreases files@.len() - i,
    {
        proof {
            assert(names.skip(i as int)[0] == names[i as int]);
        }
        if str_ends_with(files[i].as_str(), "runtimeconfig.json") {
            return prefix_before_dot_of(files[i].as_str());
        }
        proof {
            assert(names.skip(i as int).skip(1) =~= names.skip(i + 1));
        }
        i += 1;
    }
    proof {
        assert(names.skip(files@.len() as int) =~= Seq::<Seq<char>>::empty());
    }
    game_name.clone()
}

/// Why a launch attempt ended without a running game.
#[derive(Clone, Copy, PartialEq, Eq, Structural, Debug)]
pub enum FailReason {
    /// The installer could not bring the bundle onto disk.
    InstallFailed,
    /// The manifest beside the bundle was missing or malformed.
    ManifestUnreadable,
    /// The runnable directory could not be listed.
    PublishUnreadable,
    /// No file exists at the resolved executable path.
    ExecutableNotFound,
    /// The execute bits could not be set.
    PermissionDenied,
    /// The child process could not be spawned or awaited.
    ProcessFailed,
    /// An event arrived that the current state does not expect.
    ProtocolError,
}

impl FailReason {
    /// A descriptive reason for the caller, instead of a raw I/O code.
    pub fn message(&self) -> (r: &'static str)
        ensures
            *self is ExecutableNotFound ==> r@ == "Game executable not found"@,
            *self is InstallFailed ==> r@ == "Game install failed"@,
            *self is ManifestUnreadable ==> r@ == "Game manifest could not be read"@,
            *self is PublishUnreadable ==> r@ == "Game files could not be listed"@,
            *self is PermissionDenied ==> r@ == "Game executable could not be made executable"@,
            *self is ProcessFailed ==> r@ == "Failed to launch game"@,
            *self is ProtocolError ==> r@ == "Launch step out of order"@,
    {
        match self {
            FailReason::ExecutableNotFound => "Game executable not found",
            FailReason::InstallFailed => "Game install failed",
            FailReason::ManifestUnreadable => "Game manifest could not be read",
            FailReason::PublishUnreadable => "Game files could not be listed",
            FailReason::PermissionDenied => "Game executable could not be made executable",
            FailReason::ProcessFailed => "Failed to launch game",
            FailReason::ProtocolError => "Launch step out of order",
        }
    }
}

/// Where a launch attempt stands.
#[derive(Clone, Copy, PartialEq, Eq, Structural, Debug)]
pub enum LaunchState {
    /// Nothing has happened yet.
    Idle,
    /// The installer is running because the runnable directory was missing.
    Installing,
    /// The bundle is on disk; the manifest is being read.
    Installed,
    /// The game is active; the runnable directory is being listed.
    Resolving,
    /// The executable name is resolved; its existence is being checked.
    Checking,
    /// The executable exists; its execute bits are being set.
    Permissioning,
    /// The child process runs; the machine waits for its exit.
    Running,
    /// The child exited and the cooldown has passed.
    Done,
    /// The launch attempt ended in an error.
    Failed,
}

/// What the caller observed; each event answers the previous action.
pub enum LaunchEvent {
    /// A launch begins; the caller says whether the runnable directory exists.
    Begin { publish_exists: bool },
    /// The installer finished.
    InstallFinished { ok: bool },
    /// The manifest was read, or could not be.
    ManifestRead { game: Option<DevcadeGame> },
    /// The runnable directory's top-level file names, or a listing failure.
    PublishListed { files: Option<Vec<String>> },
    /// Whether a file exists at the resolved executable path.
    ExecutableChecked { exists: bool },
    /// The execute bits were set, or could not be.
    PermissionsSet { ok: bool },
    /// The spawned child was awaited; `ok` means spawn and wait succeeded.
    ProcessExited { ok: bool },
}

/// What the caller must do next.
pub enum LaunchAction {
    /// Run the installer for the requested game; failure is fatal.
    Install,
    /// Read and parse the manifest of the requested game.
    ReadManifest,
    /// Ask the persistence collaborator to flush the previous game's save
    /// data (a failure is logged, never fatal), replace the current-game
    /// slot with this game, then list the runnable directory.
    Activate { game: DevcadeGame },
    /// Check that a file exists at this executable name inside the runnable
    /// directory.
    CheckExecutable { executable: String },
    /// Set owner, group and other execute bits on the resolved executable.
    MakeExecutable,
    /// Spawn the executable with the runnable directory as working
    /// directory, its standard output discarded and its standard error
    /// inherited, then wait for it to exit with no timeout.
    Spawn,
    /// Wait the fixed short cooldown, then report the launch as finished.
    CooldownAndFinish,
    /// Stop: the launch attempt failed for this reason.
    Fail { reason: FailReason },
}

/// One launch attempt: the step function's state.
pub struct LaunchMachine {
    pub state: LaunchState,
    /// The manifest record, once read; the resolution fallback name comes
    /// from it.
    pub game: Option<DevcadeGame>,
}

/// The machine after one event.
pub open spec fn spec_next(m: LaunchMachine, e: LaunchEvent) -> LaunchMachine {
    match (m.state, e) {
        (LaunchState::Idle, LaunchEvent::Begin { publish_exists }) => LaunchMachine {
            state: if publish_exists {
                LaunchState::Installed
            } else {
                LaunchState::Installing
            },
            game: m.game,
        },
        (LaunchState::Installing, LaunchEvent::InstallFinished { ok }) => LaunchMachine {
            state: if ok {
                LaunchState::Installed
            } else {
                LaunchState::Failed
            },
            game: m.game,
        },
        (LaunchState::Installed, LaunchEvent::ManifestRead { game }) => match game {
            Some(g) => LaunchMachine { state: LaunchState::Resolving, game: Some(g) },
            None => LaunchMachine { state: LaunchState::Failed, game: m.game },
        },
        (LaunchState::Resolving, LaunchEvent::PublishListed { files }) => LaunchMachine {
            state: if files is Some && m.game is Some {
                LaunchState::Checking
            } else {
                LaunchState::Failed
            },
            game: m.game,
        },
        (LaunchState::Checking, LaunchEvent::ExecutableChecked { exists }) => LaunchMachine {
            state: if exists {
                LaunchState::Permissioning
            } else {
                LaunchState::Failed
            },
            game: m.game,
        },
        (LaunchState::Permissioning, LaunchEvent::PermissionsSet { ok }) => LaunchMachine {
            state: if ok {
                LaunchState::Running
            } else {
                LaunchState::Failed
            },
            game: m.game,
        },
        (LaunchState::Running, LaunchEvent::ProcessExited { ok }) => LaunchMachine {
            state: if ok {
                LaunchState::Done
            } else {
                LaunchState::Failed
            },
            game: m.game,
        },
        _ => LaunchMachine { state: LaunchState::Failed, game: m.game },
    }
}

/// Exactly which action one event produces.
pub open spec fn action_matches(m: LaunchMachine, e: LaunchEvent, a: LaunchAction) -> bool {
    match (m.state, e) {
        (LaunchState::Idle, LaunchEvent::Begin { publish_exists }) => if publish_exists {
            a == LaunchAction::ReadManifest
        } else {
            a == LaunchAction::Install
        },
        (LaunchState::Installing, LaunchEvent::InstallFinished { ok }) => if ok {
            a == LaunchAction::ReadManifest
        } else {
            a == (LaunchAction::Fail { reason: FailReason::InstallFailed })
        },
        (LaunchState::Installed, LaunchEvent::ManifestRead { game }) => match game {
            Some(g) => a == (LaunchAction::Activate { game: g }),
            None => a == (LaunchAction::Fail { reason: FailReason::ManifestUnreadable }),
        },
        (LaunchState::Resolving, LaunchEvent::PublishListed { files }) => match (files, m.game) {
            (Some(fs), Some(g)) => a matches LaunchAction::CheckExecutable { executable }
                && executable@ == spec_resolve_executable(names_of(fs@), g.name@),
            (None, _) => a == (LaunchAction::Fail { reason: FailReason::PublishUnreadable }),
            (Some(_), None) => a == (LaunchAction::Fail { reason: FailReason::ProtocolError }),
        },
        (LaunchState::Checking, LaunchEvent::ExecutableChecked { exists }) => if exists {
            a == LaunchAction::MakeExecutable
        } else {
            a == (LaunchAction::Fail { reason: FailReason::ExecutableNotFound })
        },
        (LaunchState::Permissioning, LaunchEvent::PermissionsSet { ok }) => if ok {
            a == LaunchAction::Spawn
        } else {
            a == (LaunchAction::Fail { reason: FailReason::PermissionDenied })
        },
        (LaunchState::Running, LaunchEvent::ProcessExited { ok }) => if ok {
            a == LaunchAction::CooldownAndFinish
        } else {
            a == (LaunchAction::Fail { reason: FailReason::ProcessFailed })
        },
        _ => a == (LaunchAction::Fail { reason: FailReason::ProtocolError }),
    }
}

impl LaunchMachine {
    /// A fresh launch attempt.
    pub fn new() -> (m: Self)
        ensures
            m.state is Idle,
            m.game is None,
    {
        LaunchMachine { state: LaunchState::Idle, game: None }
    }

    /// Feed one observation in; get the next thing to do.
    pub fn step(&mut self, event: LaunchEvent) -> (a: LaunchAction)
        ensures
            *final(self) == spec_next(*old(self), event),
            action_matches(*old(self), event, a),
    {
        match event {
            LaunchEvent::Begin { publish_exists } => match self.state {
                LaunchState::Idle => {
                    if publish_exists {
                        self.state = LaunchState::Installed;
                        LaunchAction::ReadManifest
                    } else {
                        self.state = LaunchState::Installing;
                        LaunchAction::Install
                    }
                },
                _ => self.protocol_error(),
            },
            LaunchEvent::InstallFinished { ok } => match self.state {
                LaunchState::Installing => {
                    if ok {
                        self.state = LaunchState::Installed;
                        LaunchAction::ReadManifest
                    } else {
                        self.state = LaunchState::Failed;
                        LaunchAction::Fail { reason: FailReason::InstallFailed }
                    }
                },
                _ => self.protocol_error(),
            },
            LaunchEvent::ManifestRead { game } => match self.state {
                LaunchState::Installed => match game {
                    Some(g) => {
                        self.state = LaunchState::Resolving;
                        self.game = Some(g.clone());
                        LaunchAction::Activate { game: g }
                    },
                    None => {
                        self.state = LaunchState::Failed;
                        LaunchAction::Fail { reason: FailReason::ManifestUnreadable }
                    },
                },
                _ => self.protocol_error(),
            },
            LaunchEvent::PublishListed { files } => match self.state {
                LaunchState::Resolving => match files {
                    Some(fs) => match &self.game {
                        Some(g) => {
                            let executable = resolve_executable(&fs, &g.name);
                            self.state = LaunchState::Checking;
                            LaunchAction::CheckExecutable { executable }
                        },
                        None => self.protocol_error(),
                    },
                    None => {
                        self.state = LaunchState::Failed;
                        LaunchAction::Fail { reason: FailReason::PublishUnreadable }
                    },
                },
                _ => self.protocol_error(),
            },
            LaunchEvent::ExecutableChecked { exists } => match self.state {
                LaunchState::Checking => {
                    if exists {
                        self.state = LaunchState::Permissioning;
                        LaunchAction::MakeExecutable
                    } else {
                        self.state = LaunchState::Failed;
                        LaunchAction::Fail { reason: FailReason::ExecutableNotFound }
                    }
                },
                _ => self.protocol_error(),
            },
            LaunchEvent::PermissionsSet { ok } => match self.state {
                LaunchState::Permissioning => {
                    if ok {
                        self.state = LaunchState::Running;
                        LaunchAction::Spawn
                    } else {
                        self.state = LaunchState::Failed;
                        LaunchAction::Fail { reason: FailReason::PermissionDenied }
                    }
                },
                _ => self.protocol_error(),
            },
            LaunchEvent::ProcessExited { ok } => match self.state {
                LaunchState::Running => {
                    if ok {
                        self.state = LaunchState::Done;
                        LaunchAction::CooldownAndFinish
                    } else {
                        self.state = LaunchState::Failed;
                        LaunchAction::Fail { reason: FailReason::ProcessFailed }
                    }
                },
                _ => self.protocol_error(),
            },
        }
    }

    /// An event arrived out of order: fail the attempt.
    fn protocol_error(&mut self) -> (a: LaunchAction)
        ensures
            final(self).state is Failed,
            final(self).game == old(self).game,
            a == (LaunchAction::Fail { reason: FailReason::ProtocolError }),
    {
        self.state = LaunchState::Failed;
        LaunchAction::Fail { reason: FailReason::ProtocolError }
    }
}

/// Whether this step starts an install: only a beginning launch whose
/// runnable directory is missing does.
pub open spec fn emits_install(m: LaunchMachine, e: LaunchEvent) -> bool {
    m.state is Idle && e == (LaunchEvent::Begin { publish_exists: false })
}

/// How many installs a run of the machine performs over a sequence of
/// events.
pub open spec fn install_count(m: LaunchMachine, events: Seq<LaunchEvent>) -> nat
    decreases events.len(),
{
    if events.len() == 0 {
        0
    } else {
        (if emits_install(m, events[0]) {
            1nat
        } else {
            0nat
        }) + install_count(spec_next(m, events[0]), events.skip(1))
    }
}

/// A machine never returns to the beginning, so once a launch is under way
/// no further install can start.
pub proof fn lemma_no_install_after_start(m: LaunchMachine, events: Seq<LaunchEvent>)
    requires
        !(m.state is Idle),
    ensures
        install_count(m, events) == 0,
    decreases events.len(),
{
    if events.len() > 0 {
        assert(!(spec_next(m, events[0]).state is Idle));
        lemma_no_install_after_start(spec_next(m, events[0]), events.skip(1));
    }
}

/// Launching a game whose runnable directory is missing installs exactly
/// once, as the very first action, whatever happens afterwards.
pub proof fn lemma_missing_publish_installs_once(m: LaunchMachine, events: Seq<LaunchEvent>)
    requires
        m.state is Idle,
        events.len() > 0,
        events[0] == (LaunchEvent::Begin { publish_exists: false }),
    ensures
        install_count(m, events) == 1,
        emits_install(m, events[0]),
{
    assert(spec_next(m, events[0]).state is Installing);
    lemma_no_install_after_start(spec_next(m, events[0]), events.skip(1));
}

/// Launching a game whose runnable directory is already present never
/// installs.
pub proof fn lemma_present_publish_never_installs(m: LaunchMachine, events: Seq<LaunchEvent>)
    requires
        m.state is Idle,
        events.len() > 0,
        events[0] == (LaunchEvent::Begin { publish_exists: true }),
    ensures
        install_count(m, events) == 0,
{
    assert(spec_next(m, events[0]).state is Installed);
    lemma_no_install_after_start(spec_next(m, events[0]), events.skip(1));
}

/// The process-wide slot recording the last game a launch activated. Reads
/// hand out a copy; a write replaces the whole record. The caller guards the
/// slot with a mutual-exclusion lock so each read and replace is atomic.
pub struct CurrentGameSlot {
    pub game: DevcadeGame,
}

impl CurrentGameSlot {
    /// At startup the slot holds the empty sentinel record.
    pub fn new() -> (s: Self)
        ensures
            game_is_empty(s.game),
    {
        CurrentGameSlot { game: DevcadeGame::default() }
    }

    /// A copy of the active game record.
    pub fn get(&self) -> (g: DevcadeGame)
        ensures
            g == self.game,
    {
        self.game.clone()
    }

    /// Replace the active game record.
    pub fn set(&mut self, g: DevcadeGame)
        ensures
            final(self).game == g,
    {
        self.game = g;
    }
}

} // verus!
