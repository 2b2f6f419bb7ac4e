//! The course of a search through an archive: which outside work is to be done, and what becomes of
//! its results.
//!
//! A [`Session`] asks for one [`Action`] at a time. Whoever performs the action answers with an
//! [`Event`], and the session says what is next, until it asks for one of the actions that end it.
use crate::archive::{
    extract_with_sevenz, output_is_read_as_utf8, sevenz_extracted, sevenz_listed, unrar_listed,
    Listed,
};
use crate::error::AdaptError;
use crate::info::AdaptInfo;
use crate::rar::{
    detect_rar_tool, list_rar_entries_7z, list_rar_entries_unrar, rar_sevenz_extract_help,
    rar_sevenz_list_help, spec_detect_rar_tool, unrar_help, Detection, RarTool,
};
use crate::sevenz::{sevenz_help, spec_check_available, SevenzAdapter};
use crate::text::texts;
use crate::tool::{
    help, is_read_as_utf8, outcome_view, sevenz_extract, sevenz_list, spec_help, spec_sevenz_extract,
    spec_sevenz_list, spec_unrar_list, spec_unrar_print, unrar_list, unrar_print, Arg, Invocation,
    LaunchError, Outcome, OutcomeView, ToolOutput,
};
use vstd::prelude::*;

verus! {

/// Why something could not be done with a path.
#[derive(Debug, PartialEq, Eq)]
pub struct PathError<S = String> {
    /// The path, as it is displayed.
    pub path: S,
    /// The reason as the system words it.
    pub message: S,
}

impl View for PathError {
    type V = PathError<Seq<char>>;

    open spec fn view(&self) -> PathError<Seq<char>> {
        PathError { path: self.path@, message: self.message@ }
    }
}

/// Outside work for a session.
#[derive(Debug, PartialEq, Eq)]
pub enum Action<S = String, A = Vec<Arg>> {
    /// Run a program to its end. Answer: [`Event::Ran`].
    Run(Invocation<S, A>),
    /// Create a directory for extracted files. Answer: [`Event::TempDir`].
    CreateTempDir,
    /// Open the file that was extracted under this name. Answer: [`Event::Opened`].
    OpenMember(S),
    /// Start a program that prints the content of a file. Answer: [`Event::Spawned`].
    SpawnMember(Invocation<S, A>),
    /// Hand out the file that was opened, or the output of the program that was started, to be
    /// searched. Answer, once the next file is wanted and such a program has ended:
    /// [`Event::Resumed`].
    Emit(AdaptInfo<S>),
    /// Remove the directory for extracted files, with all that is in it. Answer: [`Event::Removed`].
    RemoveTempDir,
    /// End: there is nothing to search.
    ReturnEmpty,
    /// End: the search failed.
    Fail(AdaptError<S>),
    /// End: all files have been handed out.
    End,
}

/// What an [`Action`] stands for.
pub type ActionView = Action<Seq<char>, Seq<Arg<Seq<char>>>>;

impl View for Action {
    type V = ActionView;

    open spec fn view(&self) -> ActionView {
        match self {
            Action::Run(invocation) => Action::Run(invocation@),
            Action::CreateTempDir => Action::CreateTempDir,
            Action::OpenMember(entry) => Action::OpenMember(entry@),
            Action::SpawnMember(invocation) => Action::SpawnMember(invocation@),
            Action::Emit(info) => Action::Emit(info@),
            Action::RemoveTempDir => Action::RemoveTempDir,
            Action::ReturnEmpty => Action::ReturnEmpty,
            Action::Fail(error) => Action::Fail(error@),
            Action::End => Action::End,
        }
    }
}

/// What came of an [`Action`].
#[derive(Debug, PartialEq, Eq)]
pub enum Event<S = String, B = Vec<u8>> {
    /// What came of running the program.
    Ran(Result<ToolOutput<B>, LaunchError<S>>),
    /// The path of the directory as it is displayed, or why there is none.
    TempDir(Result<S, S>),
    /// Whether the file could be opened.
    Opened(Result<(), PathError<S>>),
    /// Whether the program could be started.
    Spawned(Result<(), S>),
    /// The next file is wanted.
    Resumed,
    /// Whether the directory could be removed.
    Removed(Result<(), PathError<S>>),
}

/// What an [`Event`] stands for.
pub type EventView = Event<Seq<char>, Seq<u8>>;

impl View for Event {
    type V = EventView;

    open spec fn view(&self) -> EventView {
        match self {
            Event::Ran(outcome) => Event::Ran(outcome_view(*outcome)),
            Event::TempDir(Ok(dir)) => Event::TempDir(Ok(dir@)),
            Event::TempDir(Err(cause)) => Event::TempDir(Err(cause@)),
            Event::Opened(Ok(())) => Event::Opened(Ok(())),
            Event::Opened(Err(error)) => Event::Opened(Err(error@)),
            Event::Spawned(Ok(())) => Event::Spawned(Ok(())),
            Event::Spawned(Err(message)) => Event::Spawned(Err(message@)),
            Event::Resumed => Event::Resumed,
            Event::Removed(Ok(())) => Event::Removed(Ok(())),
            Event::Removed(Err(error)) => Event::Removed(Err(error@)),
        }
    }
}

impl Event<Seq<char>, Seq<u8>> {
    /// Whether the content of an entry is there to be handed out.
    pub open spec fn gives_content(self) -> bool {
        match self {
            Event::Opened(opened) => opened is Ok,
            Event::Spawned(spawned) => spawned is Ok,
            _ => false,
        }
    }
}

/// What a session wants next.
#[derive(Debug, PartialEq, Eq)]
pub struct Step<S = String, A = Vec<Arg>> {
    pub action: Action<S, A>,
    /// A warning for the log.
    pub log: Option<S>,
    /// A line for the standard error output.
    pub stderr_line: Option<S>,
}

/// What a [`Step`] stands for.
pub type StepView = Step<Seq<char>, Seq<Arg<Seq<char>>>>;

impl View for Step {
    type V = StepView;

    open spec fn view(&self) -> StepView {
        Step {
            action: self.action@,
            log: match self.log {
                Some(text) => Some(text@),
                None => None,
            },
            stderr_line: match self.stderr_line {
                Some(text) => Some(text@),
                None => None,
            },
        }
    }
}

/// The adapter that a session belongs to.
pub enum Job<A = SevenzAdapter> {
    /// A 7z archive, searched by means of the given adapter's program.
    Sevenz(A),
    /// A RAR archive.
    Rar,
}

impl View for Job {
    type V = Job<Seq<char>>;

    open spec fn view(&self) -> Job<Seq<char>> {
        match self {
            Job::Sevenz(adapter) => Job::Sevenz(adapter@),
            Job::Rar => Job::Rar,
        }
    }
}

/// What a session waits for.
#[derive(Debug, Clone, Copy, PartialEq, Eq, Structural)]
pub enum Stage {
    /// Whether the program for 7z archives is there.
    CheckSevenz,
    /// Whether this program for RAR archives is there.
    DetectTool(RarTool),
    /// The listing of `unrar`.
    ListUnrar,
    /// The listing of `7z`.
    ListSevenz,
    /// The directory to extract into.
    CreateTempDir,
    /// The extraction into the directory.
    Extract,
    /// An extracted file to be opened.
    OpenMember,
    /// An extracted file to be searched.
    SearchFile,
    /// A program that prints a file to be started.
    SpawnMember,
    /// The output of such a program to be searched.
    SearchOutput,
    /// The directory to be removed, after all files.
    RemoveTempDir,
    /// The directory to be removed, after a failed extraction.
    DiscardTempDir,
    /// Nothing: the session has ended.
    Done,
}

impl Job<Seq<char>> {
    /// The program that lists and extracts, where it is `7z` that does.
    pub open spec fn sevenz_name(self) -> Seq<char> {
        match self {
            Job::Sevenz(cmd_name) => cmd_name,
            Job::Rar => "7z"@,
        }
    }

    /// How to get that program, where it could not list.
    pub open spec fn list_help(self) -> Seq<char> {
        match self {
            Job::Sevenz(_) => sevenz_help(),
            Job::Rar => rar_sevenz_list_help(),
        }
    }

    /// How to get that program, where it could not extract.
    pub open spec fn extract_help(self) -> Seq<char> {
        match self {
            Job::Sevenz(_) => sevenz_help(),
            Job::Rar => rar_sevenz_extract_help(),
        }
    }

    /// What the lack of a directory to extract into is reported as.
    pub open spec fn temp_dir_context(self) -> Seq<char> {
        match self {
            Job::Sevenz(_) => "failed to create temp dir for 7z extraction"@,
            Job::Rar => "failed to create temp dir for RAR extraction via 7z"@,
        }
    }

    /// The entries of the archive by the listing of `7z`.
    pub open spec fn listed(self, outcome: OutcomeView) -> Listed {
        sevenz_listed(self.sevenz_name(), self.list_help(), outcome)
    }

    /// Whether `7z` extracted the archive.
    pub open spec fn extracted(self, outcome: OutcomeView) -> Result<(), AdaptError<Seq<char>>> {
        sevenz_extracted(self.sevenz_name(), self.extract_help(), outcome)
    }
}

/// A step without a warning.
pub open spec fn quiet(action: ActionView) -> StepView {
    Step { action, log: None, stderr_line: None }
}

/// A step with a warning. The adapter for 7z archives prints its warnings, too.
pub open spec fn warned(job: Job<Seq<char>>, action: ActionView, text: Seq<char>) -> StepView {
    Step {
        action,
        log: Some(text),
        stderr_line: match job {
            Job::Sevenz(_) => Some("rga warning: "@ + text),
            Job::Rar => None,
        },
    }
}

/// The warning about an archive inside another one, which no program could be pointed at.
pub open spec fn not_real_warning(job: Job<Seq<char>>, filepath_hint: Seq<char>) -> Seq<char> {
    let start = match job {
        Job::Sevenz(_) => "7z adapter: skipping "@,
        Job::Rar => "rar adapter: skipping "@,
    };
    start + filepath_hint + " because it is not a real file on disk"@
}

/// The state of a session.
#[verifier::ext_equal]
pub struct SessionView {
    pub job: Job<Seq<char>>,
    /// The archive.
    pub info: AdaptInfo<Seq<char>>,
    pub stage: Stage,
    /// The entries that are still to be opened or printed.
    pub pending: Seq<Seq<char>>,
    /// What the session is about to fail with.
    pub failure: Option<AdaptError<Seq<char>>>,
}

/// How a session for an archive begins: one that is not on disk is passed over.
pub open spec fn begin(job: Job<Seq<char>>, info: AdaptInfo<Seq<char>>) -> (
    SessionView,
    StepView,
) {
    let state = SessionView { job, info, stage: Stage::Done, pending: seq![], failure: None };
    if !info.is_real_file {
        (state, warned(job, Action::ReturnEmpty, not_real_warning(job, info.filepath_hint)))
    } else {
        match job {
            Job::Sevenz(cmd_name) => (
                SessionView { stage: Stage::CheckSevenz, ..state },
                quiet(Action::Run(spec_help(cmd_name))),
            ),
            Job::Rar => (
                SessionView { stage: Stage::DetectTool(RarTool::Unrar), ..state },
                quiet(Action::Run(spec_help(RarTool::Unrar.spec_program()))),
            ),
        }
    }
}

impl SessionView {
    /// Where an entry is waited for, there is one, and where a failure is about to be reported, there is
    /// one.
    pub open spec fn wf(self) -> bool {
        &&& self.stage == Stage::OpenMember || self.stage == Stage::SpawnMember
            ==> self.pending.len() > 0
        &&& self.stage == Stage::DiscardTempDir ==> self.failure is Some
    }

    /// Whether there is a directory for extracted files, made for this session and not yet removed.
    pub open spec fn holds_temp_dir(self) -> bool {
        match self.stage {
            Stage::Extract => true,
            Stage::OpenMember => true,
            Stage::SearchFile => true,
            Stage::RemoveTempDir => true,
            Stage::DiscardTempDir => true,
            _ => false,
        }
    }

    /// Whether an event is an answer to what the session waits for.
    pub open spec fn accepts(self, event: EventView) -> bool {
        match self.stage {
            Stage::CheckSevenz => event is Ran,
            Stage::DetectTool(_) => event is Ran,
            Stage::ListUnrar => event is Ran,
            Stage::ListSevenz => event is Ran,
            Stage::CreateTempDir => event is TempDir,
            Stage::Extract => event is Ran,
            Stage::OpenMember => event is Opened,
            Stage::SearchFile => event is Resumed,
            Stage::SpawnMember => event is Spawned,
            Stage::SearchOutput => event is Resumed,
            Stage::RemoveTempDir => event is Removed,
            Stage::DiscardTempDir => event is Removed,
            Stage::Done => false,
        }
    }

    /// The same state, but for what is waited for.
    pub open spec fn at(self, stage: Stage) -> SessionView {
        SessionView { stage, ..self }
    }

    /// What comes after a listing with these entries.
    pub open spec fn with_entries(self, entries: Seq<Seq<char>>, by_unrar: bool) -> (
        SessionView,
        StepView,
    ) {
        if entries.len() == 0 {
            (self.at(Stage::Done), quiet(Action::ReturnEmpty))
        } else if by_unrar {
            (
                SessionView { stage: Stage::SpawnMember, pending: entries, ..self },
                quiet(Action::SpawnMember(spec_unrar_print(entries[0]))),
            )
        } else {
            (
                SessionView { stage: Stage::CreateTempDir, pending: entries, ..self },
                quiet(Action::CreateTempDir),
            )
        }
    }

    /// The work on the first of the pending entries, or what is left to be done when there are none.
    pub open spec fn next_member(self, by_unrar: bool) -> (Stage, ActionView) {
        if by_unrar {
            if self.pending.len() == 0 {
                (Stage::Done, Action::End)
            } else {
                (Stage::SpawnMember, Action::SpawnMember(spec_unrar_print(self.pending[0])))
            }
        } else {
            if self.pending.len() == 0 {
                (Stage::RemoveTempDir, Action::RemoveTempDir)
            } else {
                (Stage::OpenMember, Action::OpenMember(self.pending[0]))
            }
        }
    }

    /// Goes over to the next entry, with a warning if there is one to be given.
    pub open spec fn proceed(self, by_unrar: bool, warning: Option<Seq<char>>) -> (
        SessionView,
        StepView,
    ) {
        let (stage, action) = self.next_member(by_unrar);
        (
            self.at(stage),
            match warning {
                Some(text) => warned(self.job, action, text),
                None => quiet(action),
            },
        )
    }

    /// The state without the first of the pending entries.
    pub open spec fn taken(self) -> SessionView {
        SessionView { pending: self.pending.skip(1), ..self }
    }

    /// What follows upon an event that the session accepts.
    pub open spec fn next(self, event: EventView) -> (SessionView, StepView) {
        let done = self.at(Stage::Done);
        match (self.stage, event) {
            (Stage::CheckSevenz, Event::Ran(outcome)) => match spec_check_available(
                self.job.sevenz_name(),
                outcome,
            ) {
                Ok(()) => (
                    self.at(Stage::ListSevenz),
                    quiet(Action::Run(spec_sevenz_list(self.job.sevenz_name()))),
                ),
                Err(error) => (
                    done,
                    warned(self.job, Action::ReturnEmpty, "7z adapter disabled: "@ + error.text()),
                ),
            },
            (Stage::DetectTool(tried), Event::Ran(outcome)) => match spec_detect_rar_tool(
                tried,
                outcome,
            ) {
                Detection::Found(RarTool::Unrar) => (
                    self.at(Stage::ListUnrar),
                    quiet(Action::Run(spec_unrar_list())),
                ),
                Detection::Found(RarTool::SevenZ) => (
                    self.at(Stage::ListSevenz),
                    quiet(Action::Run(spec_sevenz_list(self.job.sevenz_name()))),
                ),
                Detection::TryNext(tool) => (
                    self.at(Stage::DetectTool(tool)),
                    quiet(Action::Run(spec_help(tool.spec_program()))),
                ),
                Detection::NotFound => (
                    done,
                    warned(
                        self.job,
                        Action::ReturnEmpty,
                        "rar adapter disabled: neither unrar nor 7z is available. Install unrar or p7zip to search RAR archives."@,
                    ),
                ),
            },
            (Stage::ListUnrar, Event::Ran(outcome)) => match unrar_listed(unrar_help(), outcome) {
                Ok(entries) => self.with_entries(entries, true),
                Err(error) => (done, quiet(Action::Fail(error))),
            },
            (Stage::ListSevenz, Event::Ran(outcome)) => match self.job.listed(outcome) {
                Ok(entries) => self.with_entries(entries, false),
                Err(error) => (done, quiet(Action::Fail(error))),
            },
            (Stage::CreateTempDir, Event::TempDir(Ok(dir))) => (
                self.at(Stage::Extract),
                quiet(Action::Run(spec_sevenz_extract(self.job.sevenz_name(), dir))),
            ),
            (Stage::CreateTempDir, Event::TempDir(Err(cause))) => (
                done,
                quiet(
                    Action::Fail(
                        AdaptError::TempDir { context: self.job.temp_dir_context(), cause },
                    ),
                ),
            ),
            (Stage::Extract, Event::Ran(outcome)) => match self.job.extracted(outcome) {
                Ok(()) => self.proceed(false, None),
                Err(error) => (
                    SessionView {
                        stage: Stage::DiscardTempDir,
                        failure: Some(error),
                        ..self
                    },
                    quiet(Action::RemoveTempDir),
                ),
            },
            (Stage::DiscardTempDir, _) => (
                SessionView { stage: Stage::Done, failure: None, ..self },
                quiet(Action::Fail(self.failure->0)),
            ),
            (Stage::OpenMember, Event::Opened(Ok(()))) => (
                self.taken().at(Stage::SearchFile),
                quiet(Action::Emit(self.info.spec_member(self.pending[0]))),
            ),
            (Stage::OpenMember, Event::Opened(Err(error))) => self.taken().proceed(
                false,
                Some(
                    "failed to open extracted file "@ + error.path + ": "@ + error.message,
                ),
            ),
            (Stage::SpawnMember, Event::Spawned(Ok(()))) => (
                self.taken().at(Stage::SearchOutput),
                quiet(Action::Emit(self.info.spec_member(self.pending[0]))),
            ),
            (Stage::SpawnMember, Event::Spawned(Err(message))) => self.taken().proceed(
                true,
                Some("failed to spawn unrar for "@ + self.pending[0] + ": "@ + message),
            ),
            (Stage::SearchFile, _) => self.proceed(false, None),
            (Stage::SearchOutput, _) => self.proceed(true, None),
            (Stage::RemoveTempDir, Event::Removed(Err(error))) if self.job is Rar => (
                done,
                warned(
                    self.job,
                    Action::End,
                    "failed to clean up temp dir "@ + error.path + ": "@ + error.message,
                ),
            ),
            _ => (done, quiet(Action::End)),
        }
    }
}

/// A search through an archive. Whoever gives up a session before it has asked for an action that ends
/// it removes the directory that the session holds, if it holds one.
pub struct Session {
    job: Job,
    info: AdaptInfo,
    stage: Stage,
    entries: Vec<String>,
    /// How many of the entries have been taken.
    taken: usize,
    /// What the session is about to fail with.
    failure: Option<AdaptError>,
}

impl View for Session {
    type V = SessionView;

    closed spec fn view(&self) -> SessionView {
        SessionView {
            job: self.job@,
            info: self.info@,
            stage: self.stage,
            pending: texts(self.entries@).skip(self.taken as int),
            failure: match self.failure {
                Some(error) => Some(error@),
                None => None,
            },
        }
    }
}

fn quiet_step(action: Action) -> (res: Step)
    ensures
        res@ == quiet(action@),
{
    Step { action, log: None, stderr_line: None }
}

fn warned_step(job: &Job, action: Action, text: String) -> (res: Step)
    ensures
        res@ == warned(job@, action@, text@),
{
    let stderr_line: Option<String> = match job {
        Job::Sevenz(_) => Some("rga warning: ".to_owned().concat(text.as_str())),
        Job::Rar => None,
    };
    Step { action, log: Some(text), stderr_line }
}

impl Session {
    #[verifier::type_invariant]
    spec fn inv(self) -> bool {
        &&& self.taken <= self.entries@.len()
        &&& self.stage == Stage::OpenMember || self.stage == Stage::SpawnMember ==> self.taken
            < self.entries@.len()
        &&& self.stage == Stage::DiscardTempDir ==> self.failure is Some
    }

    /// Begins a session for an archive.
    pub fn start(job: Job, info: AdaptInfo) -> (res: (Session, Step))
        ensures
            (res.0@, res.1@) == begin(job@, info@),
            res.0@.wf(),
    {
        let entries: Vec<String> = Vec::new();
        assert(texts(entries@).skip(0) == Seq::<Seq<char>>::empty());
        if !info.is_real_file {
            let start: &str = match &job {
                Job::Sevenz(_) => "7z adapter: skipping ",
                Job::Rar => "rar adapter: skipping ",
            };
            let text: String = start.to_owned().concat(info.filepath_hint.as_str()).concat(
                " because it is not a real file on disk",
            );
            let step = warned_step(&job, Action::ReturnEmpty, text);
            return (Session { job, info, stage: Stage::Done, entries, taken: 0, failure: None }, step);
        }
        let (stage, program): (Stage, &str) = match &job {
            Job::Sevenz(adapter) => (Stage::CheckSevenz, adapter.cmd_name()),
            Job::Rar => (Stage::DetectTool(RarTool::Unrar), RarTool::Unrar.program()),
        };
        let step = quiet_step(Action::Run(help(program)));
        (Session { job, info, stage, entries, taken: 0, failure: None }, step)
    }

    /// Whether an event is an answer to what the session waits for.
    pub fn accepts(&self, event: &Event) -> (res: bool)
        ensures
            res == self@.accepts(event@),
    {
        match self.stage {
            Stage::CheckSevenz => matches!(event, Event::Ran(_)),
            Stage::DetectTool(_) => matches!(event, Event::Ran(_)),
            Stage::ListUnrar => matches!(event, Event::Ran(_)),
            Stage::ListSevenz => matches!(event, Event::Ran(_)),
            Stage::CreateTempDir => matches!(event, Event::TempDir(_)),
            Stage::Extract => matches!(event, Event::Ran(_)),
            Stage::OpenMember => matches!(event, Event::Opened(_)),
            Stage::SearchFile => matches!(event, Event::Resumed),
            Stage::SpawnMember => matches!(event, Event::Spawned(_)),
            Stage::SearchOutput => matches!(event, Event::Resumed),
            Stage::RemoveTempDir => matches!(event, Event::Removed(_)),
            Stage::DiscardTempDir => matches!(event, Event::Removed(_)),
            Stage::Done => false,
        }
    }

    /// The name of the program that lists and extracts, where it is `7z` that does.
    fn sevenz_name(&self) -> (res: &str)
        ensures
            res@ == self@.job.sevenz_name(),
    {
        match &self.job {
            Job::Sevenz(adapter) => adapter.cmd_name(),
            Job::Rar => RarTool::SevenZ.program(),
        }
    }

    fn at(self, stage: Stage) -> (res: Session)
        requires
            stage != Stage::OpenMember && stage != Stage::SpawnMember && stage
                != Stage::DiscardTempDir,
        ensures
            res@ == self@.at(stage),
    {
        proof {
            use_type_invariant(&self);
        }
        Session {
            job: self.job,
            info: self.info,
            stage,
            entries: self.entries,
            taken: self.taken,
            failure: self.failure,
        }
    }

    fn with_entries(self, entries: Vec<String>, by_unrar: bool) -> (res: (Session, Step))
        ensures
            (res.0@, res.1@) == self@.with_entries(texts(entries@), by_unrar),
    {
        if entries.len() == 0 {
            return (self.at(Stage::Done), quiet_step(Action::ReturnEmpty));
        }
        assert(texts(entries@).skip(0) == texts(entries@));
        let (stage, action): (Stage, Action) = if by_unrar {
            (Stage::SpawnMember, Action::SpawnMember(unrar_print(entries[0].as_str())))
        } else {
            (Stage::CreateTempDir, Action::CreateTempDir)
        };
        (
            Session {
                job: self.job,
                info: self.info,
                stage,
                entries,
                taken: 0,
                failure: self.failure,
            },
            quiet_step(action),
        )
    }

    fn proceed(self, by_unrar: bool, warning: Option<String>) -> (res: (Session, Step))
        ensures
            (res.0@, res.1@) == self@.proceed(
                by_unrar,
                match warning {
                    Some(text) => Some(text@),
                    None => None,
                },
            ),
    {
        proof {
            use_type_invariant(&self);
        }
        let (stage, action): (Stage, Action) = if self.taken < self.entries.len() {
            let entry: &str = self.entries[self.taken].as_str();
            if by_unrar {
                (Stage::SpawnMember, Action::SpawnMember(unrar_print(entry)))
            } else {
                (Stage::OpenMember, Action::OpenMember(entry.to_owned()))
            }
        } else if by_unrar {
            (Stage::Done, Action::End)
        } else {
            (Stage::RemoveTempDir, Action::RemoveTempDir)
        };
        let step = match warning {
            Some(text) => warned_step(&self.job, action, text),
            None => quiet_step(action),
        };
        (
            Session {
                job: self.job,
                info: self.info,
                stage,
                entries: self.entries,
                taken: self.taken,
                failure: self.failure,
            },
            step,
        )
    }

    /// Takes the first of the pending entries.
    fn take(self, stage: Stage) -> (res: Session)
        requires
            self@.pending.len() > 0,
            stage != Stage::OpenMember && stage != Stage::SpawnMember && stage
                != Stage::DiscardTempDir,
        ensures
            res@ == self@.taken().at(stage),
    {
        proof {
            use_type_invariant(&self);
            assert(self.taken < self.entries.len());
            assert(texts(self.entries@).skip(self.taken as int).skip(1) == texts(self.entries@).skip(
                self.taken + 1,
            ));
        }
        Session {
            job: self.job,
            info: self.info,
            stage,
            entries: self.entries,
            taken: self.taken + 1,
            failure: self.failure,
        }
    }

    /// Hands out the first of the pending entries.
    fn emit(self, stage: Stage) -> (res: (Session, Step))
        requires
            self@.pending.len() > 0,
            self@.info.archive_recursion_depth < i32::MAX,
            stage != Stage::OpenMember && stage != Stage::SpawnMember && stage
                != Stage::DiscardTempDir,
        ensures
            res.0@ == self@.taken().at(stage),
            res.1@ == quiet(Action::Emit(self@.info.spec_member(self@.pending[0]))),
    {
        proof {
            use_type_invariant(&self);
        }
        let member = self.info.member(self.entries[self.taken].as_str());
        (self.take(stage), quiet_step(Action::Emit(member)))
    }

    /// Goes on by what came of the action that the session asked for.
    pub fn step(self, event: Event) -> (res: (Session, Step))
        requires
            self@.accepts(event@),
            event@.gives_content() ==> self@.info.archive_recursion_depth < i32::MAX,
        ensures
            (res.0@, res.1@) == self@.next(event@),
            res.0@.wf(),
            self@.stage == Stage::ListUnrar || self@.stage == Stage::ListSevenz ==> (
            event@ matches Event::Ran(outcome) ==> output_is_read_as_utf8(outcome)),
            self@.stage == Stage::Extract ==> (event@ matches Event::Ran(Ok(output)) ==> (
            !output.success ==> is_read_as_utf8(output.stderr))),
    {
        proof {
            use_type_invariant(&self);
        }
        match (self.stage, event) {
            (Stage::CheckSevenz, Event::Ran(outcome)) => {
                let checked: Result<(), AdaptError> = match &self.job {
                    Job::Sevenz(adapter) => adapter.check_available(outcome),
                    Job::Rar => SevenzAdapter::new().check_available(outcome),
                };
                match checked {
                    Ok(()) => {
                        let list = sevenz_list(self.sevenz_name());
                        (self.at(Stage::ListSevenz), quiet_step(Action::Run(list)))
                    },
                    Err(error) => {
                        let text: String = "7z adapter disabled: ".to_owned().concat(
                            error.message().as_str(),
                        );
                        let step = warned_step(&self.job, Action::ReturnEmpty, text);
                        (self.at(Stage::Done), step)
                    },
                }
            },
            (Stage::DetectTool(tried), Event::Ran(outcome)) => {
                match detect_rar_tool(tried, outcome) {
                    Detection::Found(RarTool::Unrar) => {
                        (self.at(Stage::ListUnrar), quiet_step(Action::Run(unrar_list())))
                    },
                    Detection::Found(RarTool::SevenZ) => {
                        let list = sevenz_list(self.sevenz_name());
                        (self.at(Stage::ListSevenz), quiet_step(Action::Run(list)))
                    },
                    Detection::TryNext(tool) => {
                        (
                            self.at(Stage::DetectTool(tool)),
                            quiet_step(Action::Run(help(tool.program()))),
                        )
                    },
                    Detection::NotFound => {
                        let text: String =
                            "rar adapter disabled: neither unrar nor 7z is available. Install unrar or p7zip to search RAR archives.".to_owned();
                        let step = warned_step(&self.job, Action::ReturnEmpty, text);
                        (self.at(Stage::Done), step)
                    },
                }
            },
            (Stage::ListUnrar, Event::Ran(outcome)) => {
                match list_rar_entries_unrar(outcome) {
                    Ok(entries) => self.with_entries(entries, true),
                    Err(error) => (self.at(Stage::Done), quiet_step(Action::Fail(error))),
                }
            },
            (Stage::ListSevenz, Event::Ran(outcome)) => {
                let listed: Result<Vec<String>, AdaptError> = match &self.job {
                    Job::Sevenz(adapter) => adapter.list_entries(outcome),
                    Job::Rar => list_rar_entries_7z(outcome),
                };
                match listed {
                    Ok(entries) => self.with_entries(entries, false),
                    Err(error) => (self.at(Stage::Done), quiet_step(Action::Fail(error))),
                }
            },
            (Stage::CreateTempDir, Event::TempDir(Ok(dir))) => {
                let extract = sevenz_extract(self.sevenz_name(), dir.as_str());
                (self.at(Stage::Extract), quiet_step(Action::Run(extract)))
            },
            (Stage::CreateTempDir, Event::TempDir(Err(cause))) => {
                let context: &str = match &self.job {
                    Job::Sevenz(_) => "failed to create temp dir for 7z extraction",
                    Job::Rar => "failed to create temp dir for RAR extraction via 7z",
                };
                let error = AdaptError::TempDir { context: context.to_owned(), cause };
                (self.at(Stage::Done), quiet_step(Action::Fail(error)))
            },
            (Stage::Extract, Event::Ran(outcome)) => {
                let help: &str = match &self.job {
                    Job::Sevenz(_) => "Install p7zip or 7-zip to search 7z archives.",
                    Job::Rar => "Install p7zip to search RAR archives.",
                };
                match extract_with_sevenz(self.sevenz_name(), help, outcome) {
                    Ok(()) => self.proceed(false, None),
                    Err(error) => (
                        Session {
                            job: self.job,
                            info: self.info,
                            stage: Stage::DiscardTempDir,
                            entries: self.entries,
                            taken: self.taken,
                            failure: Some(error),
                        },
                        quiet_step(Action::RemoveTempDir),
                    ),
                }
            },
            (Stage::DiscardTempDir, _) => {
                let action: Action = match self.failure {
                    Some(error) => Action::Fail(error),
                    None => Action::End,
                };
                (
                    Session {
                        job: self.job,
                        info: self.info,
                        stage: Stage::Done,
                        entries: self.entries,
                        taken: self.taken,
                        failure: None,
                    },
                    quiet_step(action),
                )
            },
            (Stage::OpenMember, Event::Opened(Ok(()))) => self.emit(Stage::SearchFile),
            (Stage::OpenMember, Event::Opened(Err(error))) => {
                let text: String = "failed to open extracted file ".to_owned().concat(
                    error.path.as_str(),
                ).concat(": ").concat(error.message.as_str());
                self.take(Stage::SearchFile).proceed(false, Some(text))
            },
            (Stage::SpawnMember, Event::Spawned(Ok(()))) => self.emit(Stage::SearchOutput),
            (Stage::SpawnMember, Event::Spawned(Err(message))) => {
                let text: String = "failed to spawn unrar for ".to_owned().concat(
                    self.entries[self.taken].as_str(),
                ).concat(": ").concat(message.as_str());
                self.take(Stage::SearchOutput).proceed(true, Some(text))
            },
            (Stage::SearchFile, _) => self.proceed(false, None),
            (Stage::SearchOutput, _) => self.proceed(true, None),
            (Stage::RemoveTempDir, Event::Removed(Err(error))) => {
                let step = match &self.job {
                    Job::Sevenz(_) => quiet_step(Action::End),
                    Job::Rar => {
                        let text: String = "failed to clean up temp dir ".to_owned().concat(
                            error.path.as_str(),
                        ).concat(": ").concat(error.message.as_str());
                        warned_step(&self.job, Action::End, text)
                    },
                };
                (self.at(Stage::Done), step)
            },
            _ => (self.at(Stage::Done), quiet_step(Action::End)),
        }
    }
}

} // verus!
