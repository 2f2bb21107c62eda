use vstd::prelude::*;
use crate::shell::texts_of;
use crate::text::same_text;

verus! {

/// Environment variable set on the relocated copy's launch.
pub const MIGRATION_MARKER_VAR: &'static str = "LAUNCHED_FROM_MIGRATION";

/// Environment variable that overrides the configured server address.
pub const SERVER_URL_VAR: &'static str = "SERVER_URL";

/// Registry key, under the current user, of the programs run at logon.
pub const RUN_KEY: &'static str = "Software\\Microsoft\\Windows\\CurrentVersion\\Run";

/// Registry value that holds the agent's autostart command.
pub const RUN_VALUE_NAME: &'static str = "RemoteControllerClient";

/// Wait after terminating a running copy, in milliseconds.
pub const EVICT_WAIT_MS: u64 = 300;

/// Whether the path whose components are `path` lies under the directory
/// whose components are `dir`.
pub open spec fn under_dir(path: Seq<Seq<char>>, dir: Seq<Seq<char>>) -> bool {
    dir.len() <= path.len() && path.take(dir.len() as int) == dir
}

/// Whether a path lies under a directory, comparing whole components.
pub fn is_under_dir(path: &Vec<String>, dir: &Vec<String>) -> (r: bool)
    ensures
        r == under_dir(texts_of(path@), texts_of(dir@)),
{
    let ghost p = texts_of(path@);
    let ghost d = texts_of(dir@);
    if dir.len() > path.len() {
        return false;
    }
    let mut i: usize = 0;
    while i < dir.len()
        invariant
            p == texts_of(path@),
            d == texts_of(dir@),
            dir@.len() <= path@.len(),
            i <= dir@.len(),
            forall|k: int| 0 <= k < i ==> p[k] == d[k],
        decreases dir@.len() - i,
    {
        if !same_text(path[i].as_str(), dir[i].as_str()) {
            assert(p.take(d.len() as int)[i as int] != d[i as int]);
            return false;
        }
        i = i + 1;
    }
    assert(p.take(d.len() as int) =~= d);
    true
}

/// Whether the re-entry marker says the agent was just relocated.
pub open spec fn marker_set(marker: Option<Seq<char>>) -> bool {
    marker == Some("1"@)
}

/// Steps of moving the agent into its data directory.
#[derive(Clone, Copy, Debug, PartialEq, Eq, Structural)]
pub enum RelocationStage {
    /// The first copy is under way.
    FirstCopy,
    /// The copy is retried after evicting a running copy.
    SecondCopy,
    /// The copy is being launched.
    Launching,
    /// Autostart is being registered.
    Registering,
    /// Nothing more to do; `relocated` says whether the agent moved, in
    /// which case this process ends.
    Done { relocated: bool },
    /// The copy failed twice, or the copy could not be launched.
    Failed,
}

/// What the caller must do next.
#[derive(Clone, Copy, Debug, PartialEq, Eq, Structural)]
pub enum RelocationAction {
    /// Stay where it is and go on into the main loop.
    Proceed,
    /// Copy the executable into the data directory.
    Copy,
    /// Terminate the processes running the target copy, wait the given
    /// number of milliseconds, and copy again.
    EvictAndCopy { wait_ms: u64 },
    /// Launch the copy with the re-entry marker set.
    Launch,
    /// Register the copy for autostart.
    Register,
    /// Exit this process: the copy has taken over.
    Exit,
    /// Stop with a startup error.
    Fail,
}

/// The first step: nothing when the executable already lies in the data
/// directory or the re-entry marker is set, a copy otherwise.
pub open spec fn relocation_start(in_dir: bool, marker: Option<Seq<char>>) -> (RelocationStage, RelocationAction) {
    if in_dir || marker_set(marker) {
        (RelocationStage::Done { relocated: false }, RelocationAction::Proceed)
    } else {
        (RelocationStage::FirstCopy, RelocationAction::Copy)
    }
}

/// The step after an outcome in a stage: a failed first copy evicts and
/// retries, a failed second copy or launch is fatal, and the outcome of the
/// autostart registration does not matter.
pub open spec fn relocation_next(stage: RelocationStage, ok: bool) -> (RelocationStage, RelocationAction) {
    match stage {
        RelocationStage::FirstCopy => if ok {
            (RelocationStage::Launching, RelocationAction::Launch)
        } else {
            (RelocationStage::SecondCopy, RelocationAction::EvictAndCopy { wait_ms: EVICT_WAIT_MS })
        },
        RelocationStage::SecondCopy => if ok {
            (RelocationStage::Launching, RelocationAction::Launch)
        } else {
            (RelocationStage::Failed, RelocationAction::Fail)
        },
        RelocationStage::Launching => if ok {
            (RelocationStage::Registering, RelocationAction::Register)
        } else {
            (RelocationStage::Failed, RelocationAction::Fail)
        },
        RelocationStage::Registering => (RelocationStage::Done { relocated: true }, RelocationAction::Exit),
        RelocationStage::Done { relocated } => (stage, if relocated {
            RelocationAction::Exit
        } else {
            RelocationAction::Proceed
        }),
        RelocationStage::Failed => (stage, RelocationAction::Fail),
    }
}

/// Relocation of the agent, one step at a time.
#[derive(Clone, Copy, Debug)]
pub struct Relocation {
    pub stage: RelocationStage,
}

impl Relocation {
    /// Starts from where the executable lies and from the re-entry marker.
    pub fn ensure_self_in_appdata(in_dir: bool, marker: Option<&str>) -> (r: (Relocation, RelocationAction))
        ensures
            (r.0.stage, r.1) == relocation_start(
                in_dir,
                match marker {
                    Some(m) => Some(m@),
                    None => None,
                },
            ),
    {
        let marked = match marker {
            Some(m) => same_text(m, "1"),
            None => false,
        };
        if in_dir || marked {
            (Relocation { stage: RelocationStage::Done { relocated: false } }, RelocationAction::Proceed)
        } else {
            (Relocation { stage: RelocationStage::FirstCopy }, RelocationAction::Copy)
        }
    }

    /// Takes the outcome of the last action.
    pub fn step(&mut self, ok: bool) -> (r: RelocationAction)
        ensures
            (final(self).stage, r) == relocation_next(old(self).stage, ok),
    {
        match self.stage {
            RelocationStage::FirstCopy => if ok {
                self.stage = RelocationStage::Launching;
                RelocationAction::Launch
            } else {
                self.stage = RelocationStage::SecondCopy;
                RelocationAction::EvictAndCopy { wait_ms: EVICT_WAIT_MS }
            },
            RelocationStage::SecondCopy => if ok {
                self.stage = RelocationStage::Launching;
                RelocationAction::Launch
            } else {
                self.stage = RelocationStage::Failed;
                RelocationAction::Fail
            },
            RelocationStage::Launching => if ok {
                self.stage = RelocationStage::Registering;
                RelocationAction::Register
            } else {
                self.stage = RelocationStage::Failed;
                RelocationAction::Fail
            },
            RelocationStage::Registering => {
                self.stage = RelocationStage::Done { relocated: true };
                RelocationAction::Exit
            },
            RelocationStage::Done { relocated } => if relocated {
                RelocationAction::Exit
            } else {
                RelocationAction::Proceed
            },
            RelocationStage::Failed => RelocationAction::Fail,
        }
    }
}

/// An agent already in its data directory, or launched with the re-entry
/// marker, neither copies nor relaunches itself: it goes straight on, and
/// stays there whatever it is told next.
pub proof fn lemma_relocation_idempotent(marker: Option<Seq<char>>, ok: bool)
    ensures
        relocation_start(true, marker).1 == RelocationAction::Proceed,
        relocation_start(false, Some("1"@)).1 == RelocationAction::Proceed,
        relocation_next(relocation_start(true, marker).0, ok) == relocation_start(true, marker),
{
}

/// The autostart command: the path in double quotes.
pub fn quoted_path(path: &str) -> (r: String)
    ensures
        r@ == seq!['"'] + path@ + seq!['"'],
{
    let mut s = String::from_str("\"");
    s.append(path);
    s.append("\"");
    proof {
        reveal_strlit("\"");
    }
    s
}

/// A text in lower case.
pub uninterp spec fn lower_of(s: Seq<char>) -> Seq<char>;

/// Relies on `str::to_lowercase`: the lower-case mapping of Unicode, which
/// depends on the characters alone; no characters give no characters.
#[verifier::external_body]
fn lowercase(s: &str) -> (r: String)
    ensures
        r@ == lower_of(s@),
        s@.len() == 0 ==> r@.len() == 0,
{
    s.to_lowercase()
}

/// Whether a process's executable is the target, ignoring case.
pub open spec fn same_exe(exe: Option<Seq<char>>, target: Seq<char>) -> bool {
    match exe {
        Some(e) => lower_of(e) == lower_of(target),
        None => false,
    }
}

/// For each running process, given by its executable path if known, whether
/// it runs the target executable and must be terminated.
pub fn processes_to_terminate(target: &str, exes: &Vec<Option<String>>) -> (r: Vec<bool>)
    ensures
        r@.len() == exes@.len(),
        forall|i: int|
            0 <= i < exes@.len() ==> #[trigger] r@[i] == same_exe(
                match exes@[i] {
                    Some(e) => Some(e@),
                    None => None,
                },
                target@,
            ),
{
    let t = lowercase(target);
    let mut out: Vec<bool> = Vec::new();
    let mut i: usize = 0;
    while i < exes.len()
        invariant
            i <= exes@.len(),
            t@ == lower_of(target@),
            out@.len() == i,
            forall|k: int|
                0 <= k < i ==> #[trigger] out@[k] == same_exe(
                    match exes@[k] {
                        Some(e) => Some(e@),
                        None => None,
                    },
                    target@,
                ),
        decreases exes@.len() - i,
    {
        let hit = match &exes[i] {
            Some(e) => {
                let l = lowercase(e.as_str());
                same_text(l.as_str(), t.as_str())
            },
            None => false,
        };
        out.push(hit);
        i = i + 1;
    }
    out
}

} // verus!
