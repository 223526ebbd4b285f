//! One mount attempt: deriving the mount point and deciding, after each
//! launched process, what comes next.
use vstd::prelude::*;
use vstd::string::*;

verus! {

/// Why one mount attempt failed.
#[derive(Clone, Copy, Debug, PartialEq, Eq, Structural)]
pub enum MountError {
    /// The volume identifier is empty.
    MalformedVolumeIdentifier,
    /// The check for a running WSL instance could not be launched.
    SubsystemQueryFailed,
    /// No WSL instance is running.
    SubsystemNotRunning,
    /// The mount command exited with a nonzero status.
    MountCommandFailed,
    /// The mount command could not be launched.
    ProcessLaunchFailed,
}

/// What `str::to_lowercase` returns for a string with these characters.
pub uninterp spec fn lower_of(s: Seq<char>) -> Seq<char>;

/// Relies on `str::to_lowercase`: the lowercase mapping of `s`, which
/// depends on its characters alone.
#[verifier::external_body]
fn lowercase(s: &str) -> (r: String)
    ensures
        r@ == lower_of(s@),
{
    s.to_lowercase()
}

/// The mount-point name of a volume: its first character, lowercased.
pub open spec fn mount_name(volume: Seq<char>) -> Seq<char>
    recommends
        volume.len() > 0,
{
    lower_of(seq![volume[0]])
}

/// Derives the mount-point name of `volume` (`"E:"` gives `"e"`).
pub fn mount_point_name(volume: &str) -> (r: Result<String, MountError>)
    ensures
        volume@.len() == 0 <==> r is Err,
        r matches Err(e) ==> e == MountError::MalformedVolumeIdentifier,
        r matches Ok(name) ==> name@ == mount_name(volume@),
{
    if volume.is_empty() {
        return Err(MountError::MalformedVolumeIdentifier);
    }
    let first = volume.substring_char(0, 1);
    assert(first@ =~= seq![volume@[0]]);
    Ok(lowercase(first))
}

/// The mount path of a volume whose mount-point name is `name`.
pub open spec fn mount_path_of(name: Seq<char>) -> Seq<char> {
    seq!['/', 'm', 'n', 't', '/'] + name
}

/// Builds the path inside WSL at which a mount-point name is mounted
/// (`"e"` gives `"/mnt/e"`).
pub fn mount_path(name: &str) -> (r: String)
    ensures
        r@ == mount_path_of(name@),
{
    let mut path = String::from_str("/mnt/");
    proof {
        reveal_strlit("/mnt/");
    }
    path.append(name);
    assert(path@ =~= mount_path_of(name@));
    path
}

/// What a launched process came to.
#[derive(Clone, Copy, Debug, PartialEq, Eq, Structural)]
pub enum ProcessOutcome {
    /// The process ran and exited, with a zero status or not.
    Exited { success: bool },
    /// The process could not be launched or waited for.
    LaunchFailed,
}

/// A process that a mount attempt asks to have launched.
#[derive(Debug)]
pub enum Command {
    /// `wsl --list --running`: exits zero when some instance is running.
    ListRunning,
    /// Mounts `volume` with type drvfs at `/mnt/<mount_point>`, as root.
    Mount { volume: String, mount_point: String },
}

/// The model of a [`Command`].
pub enum CommandModel {
    ListRunning,
    Mount { volume: Seq<char>, mount_point: Seq<char> },
}

impl View for Command {
    type V = CommandModel;

    open spec fn view(&self) -> CommandModel {
        match self {
            Command::ListRunning => CommandModel::ListRunning,
            Command::Mount { volume, mount_point } => CommandModel::Mount {
                volume: volume@,
                mount_point: mount_point@,
            },
        }
    }
}

/// The program that every command launches.
pub open spec fn program_name() -> Seq<char> {
    "wsl"@
}

/// The arguments that `program_name` is launched with for a command.
pub open spec fn command_args(c: CommandModel) -> Seq<Seq<char>> {
    match c {
        CommandModel::ListRunning => seq!["--list"@, "--running"@],
        CommandModel::Mount { volume, mount_point } => seq![
            "-u"@,
            "root"@,
            "-e"@,
            "mount"@,
            "-t"@,
            "drvfs"@,
            volume,
            mount_path_of(mount_point),
        ],
    }
}

/// The views of a list of strings.
pub open spec fn views_of(v: Seq<String>) -> Seq<Seq<char>> {
    v.map_values(|s: String| s@)
}

impl Command {
    /// The program to launch.
    pub fn program(&self) -> (r: &'static str)
        ensures
            r@ == program_name(),
    {
        "wsl"
    }

    /// The arguments to launch the program with.
    pub fn args(&self) -> (r: Vec<String>)
        ensures
            views_of(r@) == command_args(self@),
    {
        let mut r: Vec<String> = Vec::new();
        match self {
            Command::ListRunning => {
                r.push(String::from_str("--list"));
                r.push(String::from_str("--running"));
            },
            Command::Mount { volume, mount_point } => {
                r.push(String::from_str("-u"));
                r.push(String::from_str("root"));
                r.push(String::from_str("-e"));
                r.push(String::from_str("mount"));
                r.push(String::from_str("-t"));
                r.push(String::from_str("drvfs"));
                r.push(volume.clone());
                r.push(mount_path(mount_point.as_str()));
            },
        }
        assert(views_of(r@) =~= command_args(self@));
        r
    }
}

/// Where one mount attempt stands.
#[derive(Debug)]
pub enum AttemptState {
    /// Waiting for the check whether a WSL instance is running.
    CheckingSubsystem { volume: String, mount_point: String },
    /// Waiting for the mount command.
    Mounting { volume: String, mount_point: String },
    /// The attempt is over.
    Finished(Result<(), MountError>),
}

/// The model of an [`AttemptState`].
pub enum AttemptModel {
    CheckingSubsystem { volume: Seq<char>, mount_point: Seq<char> },
    Mounting { volume: Seq<char>, mount_point: Seq<char> },
    Finished(Result<(), MountError>),
}

impl View for AttemptState {
    type V = AttemptModel;

    open spec fn view(&self) -> AttemptModel {
        match self {
            AttemptState::CheckingSubsystem { volume, mount_point } =>
                AttemptModel::CheckingSubsystem { volume: volume@, mount_point: mount_point@ },
            AttemptState::Mounting { volume, mount_point } => AttemptModel::Mounting {
                volume: volume@,
                mount_point: mount_point@,
            },
            AttemptState::Finished(r) => AttemptModel::Finished(*r),
        }
    }
}

/// The state in which an attempt to mount `volume` starts.
pub open spec fn begin_spec(volume: Seq<char>) -> AttemptModel {
    if volume.len() == 0 {
        AttemptModel::Finished(Err(MountError::MalformedVolumeIdentifier))
    } else {
        AttemptModel::CheckingSubsystem { volume, mount_point: mount_name(volume) }
    }
}

/// The state that follows `s` once its pending process came to `outcome`.
pub open spec fn advance_spec(s: AttemptModel, outcome: ProcessOutcome) -> AttemptModel {
    match s {
        AttemptModel::CheckingSubsystem { volume, mount_point } => match outcome {
            ProcessOutcome::Exited { success: true } => AttemptModel::Mounting { volume, mount_point },
            ProcessOutcome::Exited { success: false } => AttemptModel::Finished(
                Err(MountError::SubsystemNotRunning),
            ),
            ProcessOutcome::LaunchFailed => AttemptModel::Finished(
                Err(MountError::SubsystemQueryFailed),
            ),
        },
        AttemptModel::Mounting { .. } => match outcome {
            ProcessOutcome::Exited { success: true } => AttemptModel::Finished(Ok(())),
            ProcessOutcome::Exited { success: false } => AttemptModel::Finished(
                Err(MountError::MountCommandFailed),
            ),
            ProcessOutcome::LaunchFailed => AttemptModel::Finished(
                Err(MountError::ProcessLaunchFailed),
            ),
        },
        AttemptModel::Finished(r) => AttemptModel::Finished(r),
    }
}

/// The process that state `s` waits for, if any.
pub open spec fn pending_spec(s: AttemptModel) -> Option<CommandModel> {
    match s {
        AttemptModel::CheckingSubsystem { .. } => Some(CommandModel::ListRunning),
        AttemptModel::Mounting { volume, mount_point } => Some(
            CommandModel::Mount { volume, mount_point },
        ),
        AttemptModel::Finished(_) => None,
    }
}

/// The processes launched from state `s` on when the launched ones come to
/// `outcomes`, in order; the list stops where the attempt finishes or the
/// outcomes run out.
pub open spec fn launched(s: AttemptModel, outcomes: Seq<ProcessOutcome>) -> Seq<CommandModel>
    decreases outcomes.len(),
{
    match pending_spec(s) {
        None => seq![],
        Some(c) => if outcomes.len() == 0 {
            seq![c]
        } else {
            seq![c] + launched(advance_spec(s, outcomes[0]), outcomes.drop_first())
        },
    }
}

/// Starts an attempt to mount `volume`.
pub fn begin_mount(volume: &str) -> (r: AttemptState)
    ensures
        r@ == begin_spec(volume@),
{
    match mount_point_name(volume) {
        Ok(mount_point) => AttemptState::CheckingSubsystem {
            volume: String::from_str(volume),
            mount_point,
        },
        Err(e) => AttemptState::Finished(Err(e)),
    }
}

impl AttemptState {
    /// The process to launch next, or `None` once the attempt is over.
    pub fn pending_command(&self) -> (r: Option<Command>)
        ensures
            r is None <==> pending_spec(self@) is None,
            r matches Some(c) ==> pending_spec(self@) == Some(c@),
    {
        match self {
            AttemptState::CheckingSubsystem { .. } => Some(Command::ListRunning),
            AttemptState::Mounting { volume, mount_point } => Some(
                Command::Mount { volume: volume.clone(), mount_point: mount_point.clone() },
            ),
            AttemptState::Finished(_) => None,
        }
    }

    /// Takes the outcome of the pending process into account.
    pub fn advance(self, outcome: ProcessOutcome) -> (r: AttemptState)
        ensures
            r@ == advance_spec(self@, outcome),
    {
        match self {
            AttemptState::CheckingSubsystem { volume, mount_point } => match outcome {
                ProcessOutcome::Exited { success: true } => AttemptState::Mounting {
                    volume,
                    mount_point,
                },
                ProcessOutcome::Exited { success: false } => AttemptState::Finished(
                    Err(MountError::SubsystemNotRunning),
                ),
                ProcessOutcome::LaunchFailed => AttemptState::Finished(
                    Err(MountError::SubsystemQueryFailed),
                ),
            },
            AttemptState::Mounting { .. } => match outcome {
                ProcessOutcome::Exited { success: true } => AttemptState::Finished(Ok(())),
                ProcessOutcome::Exited { success: false } => AttemptState::Finished(
                    Err(MountError::MountCommandFailed),
                ),
                ProcessOutcome::LaunchFailed => AttemptState::Finished(
                    Err(MountError::ProcessLaunchFailed),
                ),
            },
            AttemptState::Finished(r) => AttemptState::Finished(r),
        }
    }

    /// The result of the attempt, once it is over.
    pub fn result(&self) -> (r: Option<Result<(), MountError>>)
        ensures
            r is None <==> !(self@ is Finished),
            r matches Some(res) ==> self@ == AttemptModel::Finished(res),
    {
        match self {
            AttemptState::Finished(res) => Some(*res),
            _ => None,
        }
    }
}

/// The mount-point name of a non-empty volume identifier is the lowercase of
/// its first character, whatever the rest of the identifier holds.
pub proof fn lemma_mount_name_first_char(v: Seq<char>, w: Seq<char>)
    requires
        v.len() > 0,
        w.len() > 0,
        v[0] == w[0],
    ensures
        mount_name(v) == lower_of(seq![v[0]]),
        mount_name(v) == mount_name(w),
        begin_spec(v) == (AttemptModel::CheckingSubsystem { volume: v, mount_point: mount_name(w) }),
{
}

/// An empty volume identifier fails as malformed, and no process is
/// launched for it.
pub proof fn lemma_empty_identifier(outcomes: Seq<ProcessOutcome>)
    ensures
        begin_spec(Seq::empty()) == AttemptModel::Finished(Err(MountError::MalformedVolumeIdentifier)),
        launched(begin_spec(Seq::empty()), outcomes) == Seq::<CommandModel>::empty(),
{
}

/// When `wsl --list --running` reports that no instance is running, the attempt fails
/// with `SubsystemNotRunning` and no process but the check is launched.
pub proof fn lemma_not_running(v: Seq<char>, rest: Seq<ProcessOutcome>)
    requires
        v.len() > 0,
    ensures
        advance_spec(begin_spec(v), ProcessOutcome::Exited { success: false })
            == AttemptModel::Finished(Err(MountError::SubsystemNotRunning)),
        launched(begin_spec(v), seq![ProcessOutcome::Exited { success: false }] + rest) == seq![
            CommandModel::ListRunning,
        ],
{
    let outs = seq![ProcessOutcome::Exited { success: false }] + rest;
    let s1 = advance_spec(begin_spec(v), outs[0]);
    assert(launched(s1, outs.drop_first()) == Seq::<CommandModel>::empty());
    assert(seq![CommandModel::ListRunning] + Seq::<CommandModel>::empty() =~= seq![
        CommandModel::ListRunning,
    ]);
}

/// When an instance is running and the mount command exits zero, the attempt
/// succeeds, having launched the check and then the mount of `v` at its
/// mount point, and nothing after it.
pub proof fn lemma_mount_succeeds(v: Seq<char>, rest: Seq<ProcessOutcome>)
    requires
        v.len() > 0,
    ensures
        advance_spec(
            advance_spec(begin_spec(v), ProcessOutcome::Exited { success: true }),
            ProcessOutcome::Exited { success: true },
        ) == AttemptModel::Finished(Ok(())),
        launched(
            begin_spec(v),
            seq![ProcessOutcome::Exited { success: true }, ProcessOutcome::Exited { success: true }]
                + rest,
        ) == seq![
            CommandModel::ListRunning,
            CommandModel::Mount { volume: v, mount_point: mount_name(v) },
        ],
{
    let outs = seq![ProcessOutcome::Exited { success: true }, ProcessOutcome::Exited { success: true }]
        + rest;
    let s1 = advance_spec(begin_spec(v), outs[0]);
    let o1 = outs.drop_first();
    assert(o1[0] == ProcessOutcome::Exited { success: true });
    let s2 = advance_spec(s1, o1[0]);
    assert(launched(s2, o1.drop_first()) == Seq::<CommandModel>::empty());
    let m = CommandModel::Mount { volume: v, mount_point: mount_name(v) };
    assert(launched(s1, o1) == seq![m] + Seq::<CommandModel>::empty());
    assert(seq![m] + Seq::<CommandModel>::empty() =~= seq![m]);
    assert(seq![CommandModel::ListRunning] + seq![m] =~= seq![CommandModel::ListRunning, m]);
}

/// When an instance is running and the mount command exits nonzero, the
/// attempt fails with `MountCommandFailed` and launches nothing more.
pub proof fn lemma_mount_fails(v: Seq<char>, rest: Seq<ProcessOutcome>)
    requires
        v.len() > 0,
    ensures
        advance_spec(
            advance_spec(begin_spec(v), ProcessOutcome::Exited { success: true }),
            ProcessOutcome::Exited { success: false },
        ) == AttemptModel::Finished(Err(MountError::MountCommandFailed)),
        launched(
            begin_spec(v),
            seq![ProcessOutcome::Exited { success: true }, ProcessOutcome::Exited { success: false }]
                + rest,
        ) == seq![
            CommandModel::ListRunning,
            CommandModel::Mount { volume: v, mount_point: mount_name(v) },
        ],
{
    let outs = seq![ProcessOutcome::Exited { success: true }, ProcessOutcome::Exited { success: false }]
        + rest;
    let s1 = advance_spec(begin_spec(v), outs[0]);
    let o1 = outs.drop_first();
    assert(o1[0] == ProcessOutcome::Exited { success: false });
    let s2 = advance_spec(s1, o1[0]);
    assert(launched(s2, o1.drop_first()) == Seq::<CommandModel>::empty());
    let m = CommandModel::Mount { volume: v, mount_point: mount_name(v) };
    assert(launched(s1, o1) == seq![m] + Seq::<CommandModel>::empty());
    assert(seq![m] + Seq::<CommandModel>::empty() =~= seq![m]);
    assert(seq![CommandModel::ListRunning] + seq![m] =~= seq![CommandModel::ListRunning, m]);
}

} // verus!
