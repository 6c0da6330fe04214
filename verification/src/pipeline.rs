//! The installation pipeline's stage state machine.
//!
//! A run consumes one request and walks strictly forward: a full install
//! through downloading, extracting and installing to done; a mod fetch
//! through downloading and placing to done.  On entering a stage the run
//! records the stage's event before that stage's work is performed, and
//! every recorded event is handed back so the surrounding process can
//! publish it.  Any failure aborts the run where it stands: no later
//! event, in particular no `Done`, is ever recorded for an aborted run.

use vstd::prelude::*;
use vstd::string::*;

use crate::catalog::EverestVersion;
use crate::text::{
    find_char, last_segment, spec_find, spec_last_segment, spec_starts_with, str_starts_with,
};

verus! {

/// One stage transition, published while a run proceeds.
#[derive(Clone, Copy, Debug, PartialEq, Eq, Structural)]
pub enum StageEvent {
    Downloading,
    Extracting,
    Installing,
    Done,
}

/// Which flow a run performs.
#[derive(Clone, Copy, Debug, PartialEq, Eq, Structural)]
pub enum FlowKind {
    /// Fetch a packaged build, extract it, run the embedded installer.
    Full,
    /// Fetch a single mod file and place it in the mods directory.
    Mod,
}

/// Where a run stands.
#[derive(Clone, Copy, Debug, PartialEq, Eq, Structural)]
pub enum Stage {
    /// The artifact or mod file is being fetched.
    Downloading,
    /// A full install's archive is being planned and materialized.
    Extracting,
    /// The embedded installer is running.
    Installing,
    /// A fetched mod file is being written into the mods directory.
    Placing,
    /// The terminal success state; `Done` has been recorded.
    Finished,
    /// The terminal failure state; the run stopped mid-stage.
    Aborted,
}

/// Why a run aborted; every failure is fatal to its run.
#[derive(Clone, Copy, Debug, PartialEq, Eq, Structural)]
pub enum PipelineError {
    /// The transport call failed or the response was no success.
    FetchFailed,
    /// The fetched archive could not be planned or materialized.
    ExtractFailed,
    /// The fetched mod file could not be written.
    WriteFailed,
    /// The installer process could not be spawned.
    LaunchFailed,
    /// The installer process exited with a failure status.
    InstallerFailed,
}

/// What the user asked for, handed to the pipeline exactly once.
pub enum InstallRequest {
    /// Install the chosen version into the game directory, optionally
    /// running the installer through an interpreter binary.
    FullInstall { version: EverestVersion, target_dir: String, interpreter: Option<String> },
    /// Fetch one mod file from `source_url` into the mods directory.
    ModFetch { source_url: String, mods_dir: String },
}

impl InstallRequest {
    /// The flow the request selects.
    pub open spec fn kind(&self) -> FlowKind {
        match self {
            InstallRequest::FullInstall { .. } => FlowKind::Full,
            InstallRequest::ModFetch { .. } => FlowKind::Mod,
        }
    }

    /// The URL the run's download stage fetches.
    pub open spec fn spec_url(&self) -> Seq<char> {
        match self {
            InstallRequest::FullInstall { version, .. } => version.url@,
            InstallRequest::ModFetch { source_url, .. } => source_url@,
        }
    }
}

/// The execution of one request: its flow, where it stands, the events
/// recorded so far in order, and why it aborted if it did.
pub struct PipelineRun {
    pub kind: FlowKind,
    pub stage: Stage,
    pub events: Vec<StageEvent>,
    pub cause: Option<PipelineError>,
}

impl PipelineRun {
    /// A run's events are exactly what its flow and stage dictate: stages
    /// are entered strictly forward, each non-terminal stage's event is
    /// recorded on entry, `Done` only on finishing, and an aborted run
    /// keeps the events it had and a cause.
    pub open spec fn wf(&self) -> bool {
        &&& (self.cause is Some <==> self.stage == Stage::Aborted)
        &&& match self.kind {
            FlowKind::Full => match self.stage {
                Stage::Downloading => self.events@ == seq![StageEvent::Downloading],
                Stage::Extracting => self.events@ == seq![
                    StageEvent::Downloading,
                    StageEvent::Extracting,
                ],
                Stage::Installing => self.events@ == seq![
                    StageEvent::Downloading,
                    StageEvent::Extracting,
                    StageEvent::Installing,
                ],
                Stage::Finished => self.events@ == seq![
                    StageEvent::Downloading,
                    StageEvent::Extracting,
                    StageEvent::Installing,
                    StageEvent::Done,
                ],
                Stage::Placing => false,
                Stage::Aborted => self.events@ == seq![StageEvent::Downloading] || self.events@
                    == seq![StageEvent::Downloading, StageEvent::Extracting] || self.events@
                    == seq![
                    StageEvent::Downloading,
                    StageEvent::Extracting,
                    StageEvent::Installing,
                ],
            },
            FlowKind::Mod => match self.stage {
                Stage::Downloading => self.events@ == seq![StageEvent::Downloading],
                Stage::Placing => self.events@ == seq![StageEvent::Downloading],
                Stage::Finished => self.events@ == seq![
                    StageEvent::Downloading,
                    StageEvent::Done,
                ],
                Stage::Extracting => false,
                Stage::Installing => false,
                Stage::Aborted => self.events@ == seq![StageEvent::Downloading],
            },
        }
    }

    /// Starts the run for a request: records `Downloading` and yields it
    /// with the URL the download stage must fetch.
    pub fn start(req: &InstallRequest) -> (r: (PipelineRun, StageEvent, String))
        ensures
            r.0.wf(),
            r.0.kind == req.kind(),
            r.0.stage == Stage::Downloading,
            r.0.events@ == seq![StageEvent::Downloading],
            r.1 == StageEvent::Downloading,
            r.2@ == req.spec_url(),
    {
        let kind = match req {
            InstallRequest::FullInstall { .. } => FlowKind::Full,
            InstallRequest::ModFetch { .. } => FlowKind::Mod,
        };
        let url = match req {
            InstallRequest::FullInstall { version, .. } => version.url.clone(),
            InstallRequest::ModFetch { source_url, .. } => source_url.clone(),
        };
        let mut events: Vec<StageEvent> = Vec::new();
        events.push(StageEvent::Downloading);
        proof {
            assert(events@ =~= seq![StageEvent::Downloading]);
        }
        let run = PipelineRun { kind, stage: Stage::Downloading, events, cause: None };
        (run, StageEvent::Downloading, url)
    }

    /// A full install's download finished: records `Extracting` and
    /// yields it, before the extraction work is performed.
    pub fn begin_extract(&mut self) -> (ev: StageEvent)
        requires
            old(self).wf(),
            old(self).kind == FlowKind::Full,
            old(self).stage == Stage::Downloading,
        ensures
            final(self).wf(),
            final(self).kind == old(self).kind,
            final(self).stage == Stage::Extracting,
            final(self).events@ == old(self).events@.push(StageEvent::Extracting),
            ev == StageEvent::Extracting,
    {
        self.stage = Stage::Extracting;
        self.events.push(StageEvent::Extracting);
        proof {
            assert(self.events@ =~= seq![StageEvent::Downloading, StageEvent::Extracting]);
        }
        StageEvent::Extracting
    }

    /// A full install's extraction finished: records `Installing` and
    /// yields it, before the installer is invoked.
    pub fn begin_install(&mut self) -> (ev: StageEvent)
        requires
            old(self).wf(),
            old(self).kind == FlowKind::Full,
            old(self).stage == Stage::Extracting,
        ensures
            final(self).wf(),
            final(self).kind == old(self).kind,
            final(self).stage == Stage::Installing,
            final(self).events@ == old(self).events@.push(StageEvent::Installing),
            ev == StageEvent::Installing,
    {
        self.stage = Stage::Installing;
        self.events.push(StageEvent::Installing);
        proof {
            assert(self.events@ =~= seq![
                StageEvent::Downloading,
                StageEvent::Extracting,
                StageEvent::Installing,
            ]);
        }
        StageEvent::Installing
    }

    /// A mod fetch's download finished: the file is about to be placed.
    /// The mod flow publishes no event between `Downloading` and `Done`.
    pub fn begin_place(&mut self)
        requires
            old(self).wf(),
            old(self).kind == FlowKind::Mod,
            old(self).stage == Stage::Downloading,
        ensures
            final(self).wf(),
            final(self).kind == old(self).kind,
            final(self).stage == Stage::Placing,
            final(self).events@ == old(self).events@,
    {
        self.stage = Stage::Placing;
    }

    /// The run's last stage of work succeeded: records the terminal
    /// `Done` and yields it.
    pub fn finish(&mut self) -> (ev: StageEvent)
        requires
            old(self).wf(),
            (old(self).kind == FlowKind::Full && old(self).stage == Stage::Installing) || (old(
                self,
            ).kind == FlowKind::Mod && old(self).stage == Stage::Placing),
        ensures
            final(self).wf(),
            final(self).kind == old(self).kind,
            final(self).stage == Stage::Finished,
            final(self).events@ == old(self).events@.push(StageEvent::Done),
            ev == StageEvent::Done,
    {
        self.stage = Stage::Finished;
        self.events.push(StageEvent::Done);
        proof {
            if self.kind == FlowKind::Full {
                assert(self.events@ =~= seq![
                    StageEvent::Downloading,
                    StageEvent::Extracting,
                    StageEvent::Installing,
                    StageEvent::Done,
                ]);
            } else {
                assert(self.events@ =~= seq![StageEvent::Downloading, StageEvent::Done]);
            }
        }
        StageEvent::Done
    }

    /// The current stage's work failed: the run aborts where it stands,
    /// keeping the events it had.  No further event is ever recorded.
    pub fn fail(&mut self, cause: PipelineError)
        requires
            old(self).wf(),
            old(self).stage != Stage::Finished,
            old(self).stage != Stage::Aborted,
        ensures
            final(self).wf(),
            final(self).kind == old(self).kind,
            final(self).stage == Stage::Aborted,
            final(self).events@ == old(self).events@,
            final(self).cause == Some(cause),
    {
        self.stage = Stage::Aborted;
        self.cause = Some(cause);
    }
}

/// A successful full install records exactly `Downloading`, `Extracting`,
/// `Installing`, `Done`, in that order, no event repeated or omitted.
pub proof fn lemma_full_run_events(r: PipelineRun)
    requires
        r.wf(),
        r.kind == FlowKind::Full,
        r.stage == Stage::Finished,
    ensures
        r.events@ == seq![
            StageEvent::Downloading,
            StageEvent::Extracting,
            StageEvent::Installing,
            StageEvent::Done,
        ],
{
}

/// A successful mod fetch records exactly `Downloading`, `Done`.
pub proof fn lemma_mod_run_events(r: PipelineRun)
    requires
        r.wf(),
        r.kind == FlowKind::Mod,
        r.stage == Stage::Finished,
    ensures
        r.events@ == seq![StageEvent::Downloading, StageEvent::Done],
{
}

/// An aborted run never recorded `Done`; one whose download failed
/// recorded nothing past `Downloading`.
pub proof fn lemma_aborted_run_events(r: PipelineRun)
    requires
        r.wf(),
        r.stage == Stage::Aborted,
    ensures
        !r.events@.contains(StageEvent::Done),
        r.events@[0] == StageEvent::Downloading,
{
    assert(!r.events@.contains(StageEvent::Done)) by {
        if r.events@.contains(StageEvent::Done) {
            let i = choose|i: int| 0 <= i < r.events@.len() && r.events@[i] == StageEvent::Done;
            assert(false);
        }
    }
}

/// While a run is still downloading it has recorded `Downloading` alone:
/// should the fetch fail, no `Extracting`, `Installing` or `Done` event
/// exists for that run.
pub proof fn lemma_downloading_events(r: PipelineRun)
    requires
        r.wf(),
        r.stage == Stage::Downloading,
    ensures
        r.events@ == seq![StageEvent::Downloading],
{
}

/// The source URL a custom URI activation carries: everything after the
/// fixed scheme prefix and before the first comma; nothing when the
/// argument does not carry the scheme.
pub open spec fn spec_uri_mod_url(arg: Seq<char>) -> Option<Seq<char>> {
    if spec_starts_with(arg, "everest:"@) {
        let rest = arg.skip("everest:"@.len() as int);
        Some(rest.take(spec_find(rest, ',')))
    } else {
        None
    }
}

/// Parses a custom URI activation argument into the mod's source URL.
pub fn uri_mod_url(arg: &str) -> (r: Option<String>)
    ensures
        match r {
            Some(u) => spec_uri_mod_url(arg@) == Some(u@),
            None => spec_uri_mod_url(arg@) is None,
        },
{
    let scheme = "everest:";
    if !str_starts_with(arg, scheme) {
        return None;
    }
    let slen = scheme.unicode_len();
    let len = arg.unicode_len();
    let rest = arg.substring_char(slen, len);
    proof {
        assert(rest@ =~= arg@.skip(scheme@.len() as int));
    }
    let comma = find_char(rest, ',');
    let url = rest.substring_char(0, comma).to_owned();
    proof {
        assert(url@ =~= rest@.take(spec_find(rest@, ',')));
    }
    Some(url)
}

/// The file name a fetched mod is stored under: the last path segment of
/// the resolved response URL; nothing when that segment is empty.
pub open spec fn spec_mod_file_name(resolved_path: Seq<char>) -> Option<Seq<char>> {
    if spec_last_segment(resolved_path).len() == 0 {
        None
    } else {
        Some(spec_last_segment(resolved_path))
    }
}

/// Names the file a fetched mod is stored under, from the path of the
/// resolved response URL.
pub fn mod_file_name(resolved_path: &str) -> (r: Option<String>)
    ensures
        match r {
            Some(name) => spec_mod_file_name(resolved_path@) == Some(name@),
            None => spec_mod_file_name(resolved_path@) is None,
        },
{
    let name = last_segment(resolved_path);
    if name.as_str().unicode_len() == 0 {
        None
    } else {
        Some(name)
    }
}

/// Joins the mods directory and the name [`mod_file_name`] chooses into
/// the path the fetched mod file is stored at.
pub fn mod_file_path(mods_dir: &str, resolved_path: &str) -> (r: Option<String>)
    ensures
        match r {
            Some(p) => spec_mod_file_name(resolved_path@) matches Some(n) && p@ == mods_dir@ + "/"@
                + n,
            None => spec_mod_file_name(resolved_path@) is None,
        },
{
    match mod_file_name(resolved_path) {
        None => None,
        Some(name) => {
            let mut p = mods_dir.to_owned();
            p.append("/");
            p.append(name.as_str());
            Some(p)
        },
    }
}

/// The command a full install's last stage runs, in the target directory:
/// the interpreter with the installer's name as its argument when an
/// interpreter is configured, else the installer directly.
pub fn installer_command(interpreter: &Option<String>) -> (r: (String, Vec<String>))
    ensures
        match interpreter {
            Some(m) => r.0@ == m@ && r.1@.len() == 1 && r.1@[0]@ == "MiniInstaller.exe"@,
            None => r.0@ == "MiniInstaller.exe"@ && r.1@.len() == 0,
        },
{
    match interpreter {
        Some(m) => {
            let mut args: Vec<String> = Vec::new();
            args.push(String::from_str("MiniInstaller.exe"));
            (m.clone(), args)
        },
        None => (String::from_str("MiniInstaller.exe"), Vec::new()),
    }
}

} // verus!
