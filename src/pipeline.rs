//! The two pipeline runs as state machines.
//!
//! A run never touches the outside world itself. Each call takes the outcome
//! of the previous operation (an [`Event`]) and returns the next [`Step`]:
//! notes to emit first (rebuild triggers, output echoes, timing checkpoints),
//! then one operation to perform. A driver performs it and calls again, until
//! the operation is `Deliver`, `Done` or `Fail`.

use vstd::prelude::*;
use crate::error::BuildError;
use crate::locate::{choose_executable, Tool};
use crate::paths::ArtifactLayout;
use crate::patch::{
    check_patch_outcome,
    is_apply_command,
    patch_applied,
    patch_command,
    patch_error_ok,
    patch_root,
    patch_root_dir,
};
use crate::process::{check_exit, execution_log, labelled, log_of, ExternalCommand, ProcessOutput};
use vstd::utf8::encode_utf8;
use crate::trigger::RebuildTrigger;
use crate::text::join2;
use crate::version::{read_engine_version, version_error_ok, version_gate_accepts};

verus! {

/// What a run produces.
pub enum Goal {
    /// The engine's extension API description, as JSON text.
    ApiJson,
    /// A binding source file at `output`, made from the patched header.
    /// Where `external_header` is given, the engine is not consulted at all.
    HeaderBinding { external_header: Option<String>, output: String },
}

/// Where a run stands: the operation it waits on.
pub enum Stage {
    Start,
    AwaitEngineEnv,
    AwaitEngineSearch,
    AwaitVersion { engine: String },
    AwaitDumpDir { engine: String, version: String },
    AwaitDump { engine: String, version: String },
    AwaitMarker,
    AwaitJson,
    AwaitVcsEnv { header: String },
    AwaitVcsSearch { header: String },
    AwaitPatch { header: String, vcs: String },
    AwaitTranslation,
    Finished,
    Failed,
}

/// One pipeline run.
pub struct Pipeline {
    pub goal: Goal,
    pub layout: ArtifactLayout,
    /// Whether unparsable version output is accepted as it stands.
    pub lenient_version_parse: bool,
    pub stage: Stage,
}

/// Something to emit before the step's operation.
pub enum Note {
    Trigger(RebuildTrigger),
    /// Echo of a finished command's output, for the build log.
    Echo(Vec<u8>),
    /// A named point for the timing recorder.
    Checkpoint(String),
}

/// The operation a driver performs next, and the event it answers with.
pub enum Op {
    /// Read an environment variable: `EnvValue`.
    ReadEnv(String),
    /// Look a program up on the search path: `SearchResult`.
    Search(String),
    /// Run a command and capture its output: `Exited` or `SpawnFailed`.
    Run(ExternalCommand),
    /// Create a directory and its parents: `Proceed` or `IoFailed`.
    CreateDir(String),
    /// Overwrite a file with text: `Proceed` or `IoFailed`.
    WriteFile { path: String, contents: String },
    /// Read a file as text: `FileText` or `IoFailed`.
    ReadFile(String),
    /// Translate the header into binding source: `Proceed` or `IoFailed`.
    Translate { header: String, output: String },
    /// The run is over and produced this text.
    Deliver(String),
    /// The run is over.
    Done,
    /// The run stopped.
    Fail(BuildError),
}

/// What a call hands back to the driver.
pub struct Step {
    pub notes: Vec<Note>,
    pub op: Op,
}

/// The outcome of the last operation.
pub enum Event {
    Proceed,
    EnvValue(Option<String>),
    SearchResult(Option<String>),
    Exited(ProcessOutput),
    SpawnFailed,
    FileText(String),
    IoFailed,
}

/// Whether `event` answers the operation that `stage` waits on.
pub open spec fn answers(stage: Stage, event: Event) -> bool {
    match stage {
        Stage::Start => event is Proceed,
        Stage::AwaitEngineEnv | Stage::AwaitVcsEnv { .. } => event is EnvValue,
        Stage::AwaitEngineSearch | Stage::AwaitVcsSearch { .. } => event is SearchResult,
        Stage::AwaitVersion { .. } | Stage::AwaitDump { .. } | Stage::AwaitPatch { .. } => event is Exited
            || event is SpawnFailed,
        Stage::AwaitDumpDir { .. } | Stage::AwaitMarker | Stage::AwaitTranslation => event is Proceed
            || event is IoFailed,
        Stage::AwaitJson => event is FileText || event is IoFailed,
        Stage::Finished | Stage::Failed => false,
    }
}

pub open spec fn trigger_file(n: Note, path: Seq<char>) -> bool {
    n matches Note::Trigger(RebuildTrigger::File(p)) && p@ == path
}

pub open spec fn trigger_env(n: Note, name: Seq<char>) -> bool {
    n matches Note::Trigger(RebuildTrigger::EnvVar(v)) && v@ == name
}

pub open spec fn checkpoint(n: Note, label: Seq<char>) -> bool {
    n matches Note::Checkpoint(l) && l@ == label
}

pub open spec fn echo(n: Note, bytes: Seq<u8>) -> bool {
    n matches Note::Echo(b) && b@ == bytes
}

/// Whether `cmd` is `program args...`, run in the driver's own directory
/// where `cwd` is `None`.
pub open spec fn is_command(
    cmd: ExternalCommand,
    program: Seq<char>,
    args: Seq<Seq<char>>,
    cwd: Option<Seq<char>>,
) -> bool {
    &&& cmd.program@ == program
    &&& cmd.args@.len() == args.len()
    &&& forall|i: int| 0 <= i < args.len() ==> #[trigger] cmd.args@[i]@ == args[i]
    &&& match cwd {
        Some(d) => cmd.cwd matches Some(c) && c@ == d,
        None => cmd.cwd is None,
    }
}

/// The directory that receives the engine's dumps.
pub open spec fn dump_dir_of(layout: ArtifactLayout) -> Seq<char> {
    layout.generated_root@ + "/godot-gen"@
}

/// The engine's dump flag for a goal.
pub open spec fn dump_flag_of(goal: Goal) -> Seq<char> {
    match goal {
        Goal::ApiJson => "--dump-extension-api"@,
        Goal::HeaderBinding { .. } => "--dump-gdextension-interface"@,
    }
}

pub open spec fn only_stage_changed(old_run: Pipeline, new_run: Pipeline) -> bool {
    new_run.goal == old_run.goal && new_run.layout == old_run.layout
        && new_run.lenient_version_parse == old_run.lenient_version_parse
}

/// The step fails with `e` and the run is over.
pub open spec fn stops(new_run: Pipeline, s: Step) -> bool {
    new_run.stage is Failed && s.notes@.len() == 0 && s.op is Fail
}

/// Once the engine's path is known: trigger on it, record the checkpoint and
/// query its version.
pub open spec fn queries_version(new_run: Pipeline, s: Step, engine: Seq<char>) -> bool {
    &&& new_run.stage matches Stage::AwaitVersion { engine: e } && e@ == engine
    &&& runs(s.op, engine, seq!["--version"@], None)
}

pub open spec fn fails_not_found(op: Op, env_var: Seq<char>, program: Seq<char>) -> bool {
    op matches Op::Fail(BuildError::ToolNotFound { env_var: v, program: p }) && v@ == env_var
        && p@ == program
}

pub open spec fn fails_spawn(op: Op, context: Seq<char>, program: Seq<char>) -> bool {
    op matches Op::Fail(BuildError::ProcessSpawnFailure { context: c, program: p }) && c@
        == context && p@ == program
}

pub open spec fn fails_exit(op: Op, context: Seq<char>, log: Seq<u8>) -> bool {
    op matches Op::Fail(BuildError::ProcessExitFailure { context: c, log: l }) && c@ == context
        && l@ == log
}

pub open spec fn fails_io(op: Op, path: Seq<char>) -> bool {
    op matches Op::Fail(BuildError::FileIoFailure { path: p }) && p@ == path
}

pub open spec fn searches(op: Op, program: Seq<char>) -> bool {
    op matches Op::Search(p) && p@ == program
}

pub open spec fn creates_dir(op: Op, dir: Seq<char>) -> bool {
    op matches Op::CreateDir(d) && d@ == dir
}

pub open spec fn writes_file(op: Op, path: Seq<char>, contents: Seq<char>) -> bool {
    op matches Op::WriteFile { path: p, contents: c } && p@ == path && c@ == contents
}

pub open spec fn reads_file(op: Op, path: Seq<char>) -> bool {
    op matches Op::ReadFile(p) && p@ == path
}

pub open spec fn runs(op: Op, program: Seq<char>, args: Seq<Seq<char>>, cwd: Option<Seq<char>>) -> bool {
    op matches Op::Run(c) && is_command(c, program, args, cwd)
}

pub open spec fn awaits_dump_dir(stage: Stage, engine: Seq<char>, version: Seq<char>) -> bool {
    stage matches Stage::AwaitDumpDir { engine: e, version: v } && e@ == engine && v@ == version
}

pub open spec fn awaits_dump(stage: Stage, engine: Seq<char>, version: Seq<char>) -> bool {
    stage matches Stage::AwaitDump { engine: e, version: v } && e@ == engine && v@ == version
}

/// The transitions that both goals share, from locating the engine to
/// writing the version marker.
pub open spec fn engine_step(old_run: Pipeline, event: Event, new_run: Pipeline, s: Step) -> bool {
    let layout = old_run.layout;
    match old_run.stage {
        Stage::AwaitEngineEnv => match event {
            Event::EnvValue(Some(v)) => queries_version(new_run, s, v@) && s.notes@.len() == 3
                && trigger_env(s.notes@[0], "ENGINE_BIN"@) && trigger_file(s.notes@[1], v@)
                && checkpoint(s.notes@[2], "locate_godot"@),
            _ => new_run.stage is AwaitEngineSearch && s.notes@.len() == 0 && searches(
                s.op,
                "engine4"@,
            ),
        },
        Stage::AwaitEngineSearch => match event {
            Event::SearchResult(Some(v)) => queries_version(new_run, s, v@) && s.notes@.len() == 2
                && trigger_file(s.notes@[0], v@) && checkpoint(s.notes@[1], "locate_godot"@),
            _ => stops(new_run, s) && fails_not_found(s.op, "ENGINE_BIN"@, "engine4"@),
        },
        Stage::AwaitVersion { engine } => match event {
            Event::Exited(out) => match version_gate_accepts(out.stdout@, old_run.lenient_version_parse) {
                Some(t) => s.notes@.len() == 1 && echo(
                    s.notes@[0],
                    encode_utf8("engine version: "@) + out.stdout@,
                ) && creates_dir(s.op, dump_dir_of(layout))
                    && awaits_dump_dir(new_run.stage, engine@, t),
                None => stops(new_run, s) && (s.op matches Op::Fail(e) && version_error_ok(
                    e,
                    out.stdout@,
                    old_run.lenient_version_parse,
                )),
            },
            _ => stops(new_run, s) && fails_spawn(s.op, "engine version query"@, engine@),
        },
        Stage::AwaitDumpDir { engine, version } => match event {
            Event::Proceed => s.notes@.len() == 0 && runs(
                s.op,
                engine@,
                seq!["--headless"@, dump_flag_of(old_run.goal)],
                Some(dump_dir_of(layout)),
            ) && awaits_dump(new_run.stage, engine@, version@),
            _ => stops(new_run, s) && fails_io(s.op, dump_dir_of(layout)),
        },
        Stage::AwaitDump { engine, version } => match event {
            Event::Exited(out) => if out.success {
                &&& new_run.stage is AwaitMarker
                &&& s.notes@.len() == 2
                &&& echo(s.notes@[0], log_of(out.stdout@, out.stderr@, out.status@))
                &&& trigger_file(s.notes@[1], layout.version_file_spec())
                &&& writes_file(s.op, layout.version_file_spec(), version@)
            } else {
                stops(new_run, s) && fails_exit(
                    s.op,
                    "dump engine API"@,
                    log_of(out.stdout@, out.stderr@, out.status@),
                )
            },
            _ => stops(new_run, s) && fails_spawn(s.op, "dump engine API"@, engine@),
        },
        _ => false,
    }
}

/// The stages a run can reach: a JSON run never patches or translates, and a
/// binding run never reads the JSON back.
pub open spec fn stage_fits_goal(goal: Goal, stage: Stage) -> bool {
    match goal {
        Goal::ApiJson => !(stage is AwaitVcsEnv || stage is AwaitVcsSearch || stage is AwaitPatch
            || stage is AwaitTranslation),
        Goal::HeaderBinding { .. } => !(stage is AwaitJson),
    }
}

pub open spec fn is_engine_stage(stage: Stage) -> bool {
    stage is AwaitEngineEnv || stage is AwaitEngineSearch || stage is AwaitVersion
        || stage is AwaitDumpDir || stage is AwaitDump
}

impl Pipeline {
    /// A run that produces the extension API description.
    pub fn api_json(layout: ArtifactLayout, lenient_version_parse: bool) -> (r: Pipeline)
        ensures
            r.goal is ApiJson,
            r.layout == layout,
            r.lenient_version_parse == lenient_version_parse,
            r.stage is Start,
            stage_fits_goal(r.goal, r.stage),
    {
        Pipeline { goal: Goal::ApiJson, layout, lenient_version_parse, stage: Stage::Start }
    }

    /// A run that produces binding source at `output`, from `external_header`
    /// where given, else from a header the engine dumps.
    pub fn header_binding(
        external_header: Option<String>,
        output: String,
        layout: ArtifactLayout,
        lenient_version_parse: bool,
    ) -> (r: Pipeline)
        ensures
            r.goal == (Goal::HeaderBinding { external_header, output }),
            r.layout == layout,
            r.lenient_version_parse == lenient_version_parse,
            r.stage is Start,
            stage_fits_goal(r.goal, r.stage),
    {
        Pipeline {
            goal: Goal::HeaderBinding { external_header, output },
            layout,
            lenient_version_parse,
            stage: Stage::Start,
        }
    }

    /// Whether `event` answers the operation this run waits on.
    pub fn accepts(&self, event: &Event) -> (r: bool)
        ensures
            r == answers(self.stage, *event),
    {
        match self.stage {
            Stage::Start => matches!(event, Event::Proceed),
            Stage::AwaitEngineEnv | Stage::AwaitVcsEnv { .. } => matches!(event, Event::EnvValue(_)),
            Stage::AwaitEngineSearch | Stage::AwaitVcsSearch { .. } => matches!(event, Event::SearchResult(_)),
            Stage::AwaitVersion { .. } | Stage::AwaitDump { .. } | Stage::AwaitPatch { .. } =>
                matches!(event, Event::Exited(_)) || matches!(event, Event::SpawnFailed),
            Stage::AwaitDumpDir { .. } | Stage::AwaitMarker | Stage::AwaitTranslation =>
                matches!(event, Event::Proceed) || matches!(event, Event::IoFailed),
            Stage::AwaitJson => matches!(event, Event::FileText(_)) || matches!(event, Event::IoFailed),
            Stage::Finished | Stage::Failed => false,
        }
    }

    fn dump_dir(&self) -> (r: String)
        ensures
            r@ == dump_dir_of(self.layout),
    {
        join2(self.layout.generated_root.as_str(), "/godot-gen")
    }

    fn fail(&mut self, e: BuildError) -> (s: Step)
        ensures
            only_stage_changed(*old(self), *final(self)),
            stops(*final(self), s),
            s.op == Op::Fail(e),
    {
        self.stage = Stage::Failed;
        Step { notes: Vec::new(), op: Op::Fail(e) }
    }

    fn query_version(&mut self, engine: String, mut notes: Vec<Note>) -> (s: Step)
        ensures
            only_stage_changed(*old(self), *final(self)),
            queries_version(*final(self), s, engine@),
            s.notes@ == notes@,
    {
        let cmd = ExternalCommand {
            program: engine.clone(),
            args: vec!["--version".to_owned()],
            cwd: None,
        };
        self.stage = Stage::AwaitVersion { engine };
        Step { notes, op: Op::Run(cmd) }
    }

    /// The transitions from locating the engine to writing the version marker.
    fn step_engine(&mut self, event: Event) -> (s: Step)
        requires
            is_engine_stage(old(self).stage),
            answers(old(self).stage, event),
        ensures
            only_stage_changed(*old(self), *final(self)),
            engine_step(*old(self), event, *final(self), s),
    {
        let mut stage = Stage::Failed;
        std::mem::swap(&mut stage, &mut self.stage);
        match stage {
            Stage::AwaitEngineEnv => match event {
                Event::EnvValue(Some(v)) => {
                    let tool = Tool::engine();
                    let mut notes: Vec<Note> = Vec::new();
                    if tool.watch_env {
                        notes.push(Note::Trigger(RebuildTrigger::EnvVar(tool.env_var)));
                    }
                    notes.push(Note::Trigger(RebuildTrigger::File(v.clone())));
                    notes.push(Note::Checkpoint("locate_godot".to_owned()));
                    self.query_version(v, notes)
                },
                _ => {
                    self.stage = Stage::AwaitEngineSearch;
                    Step { notes: Vec::new(), op: Op::Search(Tool::engine().program) }
                },
            },
            Stage::AwaitEngineSearch => {
                let found = match event {
                    Event::SearchResult(f) => f,
                    _ => None,
                };
                let tool = Tool::engine();
                match choose_executable(&tool, None, found) {
                    Ok(v) => {
                        let notes = vec![
                            Note::Trigger(RebuildTrigger::File(v.clone())),
                            Note::Checkpoint("locate_godot".to_owned()),
                        ];
                        self.query_version(v, notes)
                    },
                    Err(e) => self.fail(e),
                }
            },
            Stage::AwaitVersion { engine } => match event {
                Event::Exited(out) => {
                    let shown = labelled("engine version: ", &out.stdout);
                    match read_engine_version(out.stdout, self.lenient_version_parse) {
                        Ok(version) => {
                            let op = Op::CreateDir(self.dump_dir());
                            self.stage = Stage::AwaitDumpDir { engine, version };
                            Step { notes: vec![Note::Echo(shown)], op }
                        },
                        Err(e) => self.fail(e),
                    }
                },
                _ => self.fail(
                    BuildError::ProcessSpawnFailure {
                        context: "engine version query".to_owned(),
                        program: engine,
                    },
                ),
            },
            Stage::AwaitDumpDir { engine, version } => match event {
                Event::Proceed => {
                    let dir = self.dump_dir();
                    let flag = match self.goal {
                        Goal::ApiJson => "--dump-extension-api".to_owned(),
                        Goal::HeaderBinding { .. } => "--dump-gdextension-interface".to_owned(),
                    };
                    let cmd = ExternalCommand {
                        program: engine.clone(),
                        args: vec!["--headless".to_owned(), flag],
                        cwd: Some(dir),
                    };
                    self.stage = Stage::AwaitDump { engine, version };
                    Step { notes: Vec::new(), op: Op::Run(cmd) }
                },
                _ => {
                    let dir = self.dump_dir();
                    self.fail(BuildError::FileIoFailure { path: dir })
                },
            },
            Stage::AwaitDump { engine, version } => match event {
                Event::Exited(out) => match check_exit(out, "dump engine API") {
                    Ok(out) => {
                        let marker = self.layout.version_file();
                        let notes = vec![
                            Note::Echo(execution_log(&out)),
                            Note::Trigger(RebuildTrigger::File(marker.clone())),
                        ];
                        self.stage = Stage::AwaitMarker;
                        Step { notes, op: Op::WriteFile { path: marker, contents: version } }
                    },
                    Err(e) => self.fail(e),
                },
                _ => self.fail(
                    BuildError::ProcessSpawnFailure {
                        context: "dump engine API".to_owned(),
                        program: engine,
                    },
                ),
            },
            // Not reached: the precondition admits the engine stages only.
            _ => self.fail(BuildError::FileIoFailure { path: String::new() }),
        }
    }
}

pub open spec fn reads_env(op: Op, name: Seq<char>) -> bool {
    op matches Op::ReadEnv(n) && n@ == name
}

/// What the run that produces the API description does on `event`.
pub open spec fn json_step(old_run: Pipeline, event: Event, new_run: Pipeline, s: Step) -> bool {
    let layout = old_run.layout;
    match old_run.stage {
        Stage::Start => new_run.stage is AwaitEngineEnv && s.notes@.len() == 1 && trigger_file(
            s.notes@[0],
            layout.json_file_spec(),
        ) && reads_env(s.op, "ENGINE_BIN"@),
        Stage::AwaitMarker => match event {
            Event::Proceed => new_run.stage is AwaitJson && s.notes@.len() == 1 && checkpoint(
                s.notes@[0],
                "dump_json"@,
            ) && reads_file(s.op, layout.json_file_spec()),
            _ => stops(new_run, s) && fails_io(s.op, layout.version_file_spec()),
        },
        Stage::AwaitJson => match event {
            Event::FileText(t) => new_run.stage is Finished && s.notes@.len() == 1 && checkpoint(
                s.notes@[0],
                "read_json_file"@,
            ) && (s.op matches Op::Deliver(d) && d@ == t@),
            _ => stops(new_run, s) && fails_io(s.op, layout.json_file_spec()),
        },
        _ => engine_step(old_run, event, new_run, s),
    }
}

/// Starting the patch step for `header`: a header without a directory two
/// levels up stops the run before any tool is looked for; otherwise trigger on
/// the header and the patch, then locate the version-control tool.
pub open spec fn begins_patch(layout: ArtifactLayout, new_run: Pipeline, s: Step, header: Seq<char>) -> bool {
    match patch_root(header) {
        Some(_) => {
            &&& new_run.stage matches Stage::AwaitVcsEnv { header: h } && h@ == header
            &&& s.notes@.len() == 3
            &&& trigger_file(s.notes@[0], header)
            &&& checkpoint(s.notes@[1], "dump_header_c"@)
            &&& trigger_file(s.notes@[2], layout.patch_file_spec())
            &&& reads_env(s.op, "VCS_BIN"@)
        },
        None => stops(new_run, s) && fails_io(s.op, header),
    }
}

/// Once the version-control tool is known: apply the patch from the root two
/// levels above the header.
pub open spec fn applies_patch(
    layout: ArtifactLayout,
    new_run: Pipeline,
    s: Step,
    vcs: Seq<char>,
    header: Seq<char>,
) -> bool {
    match patch_root(header) {
        Some(root) => {
            &&& new_run.stage matches Stage::AwaitPatch { header: h, vcs: g } && h@ == header && g@
                == vcs
            &&& s.notes@.len() == 0
            &&& s.op matches Op::Run(c) && is_apply_command(c, vcs, layout.patch_file_spec(), root)
        },
        None => stops(new_run, s) && fails_io(s.op, header),
    }
}

/// What the run that produces binding source does on `event`.
pub open spec fn header_step(old_run: Pipeline, event: Event, new_run: Pipeline, s: Step) -> bool {
    let layout = old_run.layout;
    match old_run.goal {
        Goal::HeaderBinding { external_header, output } => match old_run.stage {
            Stage::Start => match external_header {
                Some(h) => begins_patch(layout, new_run, s, h@),
                None => new_run.stage is AwaitEngineEnv && s.notes@.len() == 0 && reads_env(
                    s.op,
                    "ENGINE_BIN"@,
                ),
            },
            Stage::AwaitMarker => match event {
                Event::Proceed => begins_patch(layout, new_run, s, layout.header_file_spec()),
                _ => stops(new_run, s) && fails_io(s.op, layout.version_file_spec()),
            },
            Stage::AwaitVcsEnv { header } => match event {
                Event::EnvValue(Some(v)) => applies_patch(layout, new_run, s, v@, header@),
                _ => s.notes@.len() == 0 && searches(s.op, "git"@) && (
                new_run.stage matches Stage::AwaitVcsSearch { header: h } && h@ == header@),
            },
            Stage::AwaitVcsSearch { header } => match event {
                Event::SearchResult(Some(v)) => applies_patch(layout, new_run, s, v@, header@),
                _ => stops(new_run, s) && fails_not_found(s.op, "VCS_BIN"@, "git"@),
            },
            Stage::AwaitPatch { header, vcs } => match event {
                Event::Exited(out) => if patch_applied(out) {
                    &&& new_run.stage is AwaitTranslation
                    &&& s.notes@.len() == 1
                    &&& echo(s.notes@[0], log_of(out.stdout@, out.stderr@, out.status@))
                    &&& s.op matches Op::Translate { header: h, output: o } && h@ == header@ && o@
                        == output@
                } else {
                    stops(new_run, s) && (s.op matches Op::Fail(e) && patch_error_ok(
                        e,
                        out,
                        layout.patch_file_spec(),
                    ))
                },
                _ => stops(new_run, s) && fails_spawn(s.op, "apply patch"@, vcs@),
            },
            Stage::AwaitTranslation => match event {
                Event::Proceed => new_run.stage is Finished && s.notes@.len() == 1 && checkpoint(
                    s.notes@[0],
                    "generate_header_rs"@,
                ) && s.op is Done,
                _ => stops(new_run, s) && fails_io(s.op, output@),
            },
            _ => engine_step(old_run, event, new_run, s),
        },
        Goal::ApiJson => false,
    }
}

impl Pipeline {
    fn begin_patch(&mut self, header: String, mut notes: Vec<Note>) -> (s: Step)
        requires
            notes@.len() == 0,
        ensures
            only_stage_changed(*old(self), *final(self)),
            begins_patch(old(self).layout, *final(self), s, header@),
    {
        if patch_root_dir(header.as_str()).is_none() {
            return self.fail(BuildError::FileIoFailure { path: header });
        }
        notes.push(Note::Trigger(RebuildTrigger::File(header.clone())));
        notes.push(Note::Checkpoint("dump_header_c".to_owned()));
        notes.push(Note::Trigger(RebuildTrigger::File(self.layout.patch_file())));
        self.stage = Stage::AwaitVcsEnv { header };
        Step { notes, op: Op::ReadEnv(Tool::vcs().env_var) }
    }

    fn apply_patch(&mut self, vcs: String, header: String) -> (s: Step)
        ensures
            only_stage_changed(*old(self), *final(self)),
            applies_patch(old(self).layout, *final(self), s, vcs@, header@),
    {
        let patch = self.layout.patch_file();
        match patch_command(vcs.as_str(), header.as_str(), patch.as_str()) {
            Ok(cmd) => {
                self.stage = Stage::AwaitPatch { header, vcs };
                Step { notes: Vec::new(), op: Op::Run(cmd) }
            },
            Err(e) => self.fail(e),
        }
    }
}

/// Advances the run that produces the extension API description: locate the
/// engine, check its version, dump the JSON, record the version, read the
/// JSON back.
pub fn load_gdextension_json(run: &mut Pipeline, event: Event) -> (s: Step)
    requires
        old(run).goal is ApiJson,
        stage_fits_goal(old(run).goal, old(run).stage),
        answers(old(run).stage, event),
    ensures
        only_stage_changed(*old(run), *final(run)),
        stage_fits_goal(final(run).goal, final(run).stage),
        json_step(*old(run), event, *final(run), s),
{
    match run.stage {
        Stage::Start => {
            let notes = vec![Note::Trigger(RebuildTrigger::File(run.layout.json_file()))];
            run.stage = Stage::AwaitEngineEnv;
            Step { notes, op: Op::ReadEnv(Tool::engine().env_var) }
        },
        Stage::AwaitMarker => match event {
            Event::Proceed => {
                let notes = vec![Note::Checkpoint("dump_json".to_owned())];
                run.stage = Stage::AwaitJson;
                Step { notes, op: Op::ReadFile(run.layout.json_file()) }
            },
            _ => {
                let path = run.layout.version_file();
                run.fail(BuildError::FileIoFailure { path })
            },
        },
        Stage::AwaitJson => match event {
            Event::FileText(t) => {
                let notes = vec![Note::Checkpoint("read_json_file".to_owned())];
                run.stage = Stage::Finished;
                Step { notes, op: Op::Deliver(t) }
            },
            _ => {
                let path = run.layout.json_file();
                run.fail(BuildError::FileIoFailure { path })
            },
        },
        _ => run.step_engine(event),
    }
}

/// Advances the run that produces binding source: take the external header,
/// or locate the engine, check its version and dump the header; then patch
/// the header and hand it to the translator.
pub fn load_gdextension_header_rs(run: &mut Pipeline, event: Event) -> (s: Step)
    requires
        old(run).goal is HeaderBinding,
        stage_fits_goal(old(run).goal, old(run).stage),
        answers(old(run).stage, event),
    ensures
        only_stage_changed(*old(run), *final(run)),
        stage_fits_goal(final(run).goal, final(run).stage),
        header_step(*old(run), event, *final(run), s),
{
    let (external, output) = match &run.goal {
        Goal::HeaderBinding { external_header, output } => (external_header.clone(), output.clone()),
        // Not reached: the precondition admits binding runs only.
        Goal::ApiJson => (None, String::new()),
    };
    match &run.stage {
        Stage::Start => match external {
            Some(h) => run.begin_patch(h, Vec::new()),
            None => {
                run.stage = Stage::AwaitEngineEnv;
                Step { notes: Vec::new(), op: Op::ReadEnv(Tool::engine().env_var) }
            },
        },
        Stage::AwaitMarker => match event {
            Event::Proceed => {
                let header = run.layout.header_file();
                run.begin_patch(header, Vec::new())
            },
            _ => {
                let path = run.layout.version_file();
                run.fail(BuildError::FileIoFailure { path })
            },
        },
        Stage::AwaitVcsEnv { header } => {
            let header = header.clone();
            match event {
                Event::EnvValue(Some(v)) => run.apply_patch(v, header),
                _ => {
                    run.stage = Stage::AwaitVcsSearch { header };
                    Step { notes: Vec::new(), op: Op::Search(Tool::vcs().program) }
                },
            }
        },
        Stage::AwaitVcsSearch { header } => {
            let header = header.clone();
            let found = match event {
                Event::SearchResult(f) => f,
                _ => None,
            };
            match choose_executable(&Tool::vcs(), None, found) {
                Ok(v) => run.apply_patch(v, header),
                Err(e) => run.fail(e),
            }
        },
        Stage::AwaitPatch { header, vcs } => {
            let header = header.clone();
            let vcs = vcs.clone();
            match event {
                Event::Exited(out) => {
                    let patch = run.layout.patch_file();
                    match check_patch_outcome(out, patch.as_str()) {
                        Ok(out) => {
                            let notes = vec![Note::Echo(execution_log(&out))];
                            run.stage = Stage::AwaitTranslation;
                            Step { notes, op: Op::Translate { header, output } }
                        },
                        Err(e) => run.fail(e),
                    }
                },
                _ => run.fail(
                    BuildError::ProcessSpawnFailure { context: "apply patch".to_owned(), program: vcs },
                ),
            }
        },
        Stage::AwaitTranslation => match event {
            Event::Proceed => {
                let notes = vec![Note::Checkpoint("generate_header_rs".to_owned())];
                run.stage = Stage::Finished;
                Step { notes, op: Op::Done }
            },
            _ => run.fail(BuildError::FileIoFailure { path: output }),
        },
        _ => run.step_engine(event),
    }
}

/// Runs are repeatable: two runs with the same layout that reach the marker
/// write with the same version text, after a successful dump, overwrite the
/// same file with the same contents, whatever the dump printed.
pub proof fn lemma_marker_write_repeatable(
    r1: Pipeline,
    r2: Pipeline,
    e1: Event,
    e2: Event,
    n1: Pipeline,
    n2: Pipeline,
    s1: Step,
    s2: Step,
)
    requires
        r1.layout == r2.layout,
        r1.stage matches Stage::AwaitDump { version: v1, .. } && (r2.stage matches Stage::AwaitDump {
            version: v2,
            ..
        } && v1@ == v2@),
        e1 matches Event::Exited(o1) && o1.success,
        e2 matches Event::Exited(o2) && o2.success,
        engine_step(r1, e1, n1, s1),
        engine_step(r2, e2, n2, s2),
    ensures
        s1.op matches Op::WriteFile { path: p1, contents: c1 } && (s2.op matches Op::WriteFile {
            path: p2,
            contents: c2,
        } && p1@ == p2@ && c1@ == c2@),
{
}

/// The version text recorded by a run depends on the engine's version output
/// alone: two runs that see the same output record the same text, or both stop.
pub proof fn lemma_version_record_repeatable(
    r1: Pipeline,
    r2: Pipeline,
    o1: ProcessOutput,
    o2: ProcessOutput,
    n1: Pipeline,
    n2: Pipeline,
    s1: Step,
    s2: Step,
)
    requires
        r1.layout == r2.layout,
        r1.lenient_version_parse == r2.lenient_version_parse,
        r1.stage is AwaitVersion,
        r2.stage is AwaitVersion,
        o1.stdout@ == o2.stdout@,
        engine_step(r1, Event::Exited(o1), n1, s1),
        engine_step(r2, Event::Exited(o2), n2, s2),
    ensures
        n1.stage is Failed <==> n2.stage is Failed,
        n1.stage matches Stage::AwaitDumpDir { version: v1, .. } ==> (
        n2.stage matches Stage::AwaitDumpDir { version: v2, .. } && v1@ == v2@),
{
}

/// A run that produces the API description only ever names places that its
/// layout fixes: it writes the version file and nothing else, creates only the
/// dump directory, runs the engine only there or in the driver's own
/// directory, reads only the JSON file, and delivers that file's text
/// unchanged. So repeating a run overwrites the same files and adds none.
pub proof fn lemma_json_run_uses_fixed_paths(old_run: Pipeline, event: Event, new_run: Pipeline, s: Step)
    requires
        old_run.goal is ApiJson,
        json_step(old_run, event, new_run, s),
    ensures
        s.op matches Op::WriteFile { path, .. } ==> path@ == old_run.layout.version_file_spec(),
        s.op matches Op::CreateDir(d) ==> d@ == dump_dir_of(old_run.layout),
        s.op matches Op::Run(c) ==> (c.cwd matches Some(d) ==> d@ == dump_dir_of(old_run.layout)),
        s.op matches Op::ReadFile(p) ==> p@ == old_run.layout.json_file_spec(),
        s.op matches Op::Deliver(t) ==> (event matches Event::FileText(f) && t@ == f@),
        !(s.op is Translate),
{
}

} // verus!
