//! Whole searches: what a session hands out, by what the outside world answers.
use crate::archive::unrar_listed;
use crate::error::AdaptError;
use crate::info::AdaptInfo;
use crate::listing::{
    is_entry, law_sevenz_listing_is_read_back, sevenz_entries, sevenz_listing, unrar_entries,
};
use crate::rar::{unrar_help, RarTool};
use crate::session::{
    begin, not_real_warning, Action, ActionView, Event, EventView, Job, PathError, SessionView, Stage,
};
use crate::sevenz::{sevenz_help, spec_check_available};
use crate::tool::{
    lossy_text, spec_help, spec_sevenz_extract, spec_sevenz_list, spec_unrar_list, spec_unrar_print,
    succeeded, Arg, InvocationView, LaunchError, OutcomeView,
};
use vstd::prelude::*;

verus! {

/// What the outside world answers in the course of a session. An entry is told by how many entries
/// are still to come, itself among them.
pub struct World {
    pub ran: spec_fn(InvocationView) -> OutcomeView,
    pub temp_dir: Result<Seq<char>, Seq<char>>,
    pub opened: spec_fn(nat) -> Result<(), PathError<Seq<char>>>,
    pub spawned: spec_fn(nat) -> Result<(), Seq<char>>,
    pub removed: Result<(), PathError<Seq<char>>>,
}

/// The files that a search hands out, or why it failed.
pub type Found = Result<Seq<AdaptInfo<Seq<char>>>, AdaptError<Seq<char>>>;

impl World {
    /// The answer to an action that a session in this state asked for.
    pub open spec fn answer(self, state: SessionView, action: ActionView) -> EventView {
        match state.stage {
            Stage::CreateTempDir => Event::TempDir(self.temp_dir),
            Stage::OpenMember => Event::Opened((self.opened)(state.pending.len())),
            Stage::SpawnMember => Event::Spawned((self.spawned)(state.pending.len())),
            Stage::SearchFile => Event::Resumed,
            Stage::SearchOutput => Event::Resumed,
            Stage::RemoveTempDir => Event::Removed(self.removed),
            Stage::DiscardTempDir => Event::Removed(self.removed),
            _ => Event::Ran((self.ran)(action->Run_0)),
        }
    }
}

impl SessionView {
    /// How many kinds of work can still come.
    pub open spec fn phases_left(self) -> nat {
        match self.stage {
            Stage::DetectTool(RarTool::Unrar) => 7,
            Stage::DetectTool(RarTool::SevenZ) => 6,
            Stage::CheckSevenz => 6,
            Stage::ListUnrar => 5,
            Stage::ListSevenz => 5,
            Stage::CreateTempDir => 4,
            Stage::Extract => 3,
            Stage::OpenMember => 2,
            Stage::SearchFile => 2,
            Stage::SpawnMember => 2,
            Stage::SearchOutput => 2,
            Stage::RemoveTempDir => 1,
            Stage::DiscardTempDir => 1,
            Stage::Done => 0,
        }
    }

    /// How much work on entries is left.
    pub open spec fn entry_work_left(self) -> nat {
        match self.stage {
            Stage::SearchFile => 2 * self.pending.len() + 1,
            Stage::SearchOutput => 2 * self.pending.len() + 1,
            _ => 2 * self.pending.len(),
        }
    }
}

/// A session comes to its end: with each answer there is less left to be done. It stays well formed
/// and keeps to its adapter and its archive.
pub proof fn law_session_progresses(state: SessionView, event: EventView)
    requires
        state.wf(),
        state.accepts(event),
    ensures
        ({
            let (after, step) = state.next(event);
            &&& after.phases_left() < state.phases_left() || (after.phases_left()
                == state.phases_left() && after.entry_work_left() < state.entry_work_left())
            &&& after.wf()
            &&& after.job == state.job
            &&& after.info == state.info
        }),
{
}

/// Whether an event is the kind of answer that an action calls for. The actions that end a session call
/// for none.
pub open spec fn answers(event: EventView, action: ActionView) -> bool {
    match action {
        Action::Run(_) => event is Ran,
        Action::CreateTempDir => event is TempDir,
        Action::OpenMember(_) => event is Opened,
        Action::SpawnMember(_) => event is Spawned,
        Action::Emit(_) => event is Resumed,
        Action::RemoveTempDir => event is Removed,
        Action::ReturnEmpty => false,
        Action::Fail(_) => false,
        Action::End => false,
    }
}

/// Whether an action ends a session.
pub open spec fn ends(action: ActionView) -> bool {
    action is ReturnEmpty || action is Fail || action is End
}

/// A session that has just begun accepts just the answers to the action that it asks for.
pub proof fn law_first_action_is_answered(
    job: Job<Seq<char>>,
    info: AdaptInfo<Seq<char>>,
    answer: EventView,
)
    ensures
        ({
            let (state, step) = begin(job, info);
            state.accepts(answer) <==> answers(answer, step.action)
        }),
{
}

/// After each step a session accepts just the answers to the action that it asks for.
pub proof fn law_next_action_is_answered(state: SessionView, event: EventView, answer: EventView)
    requires
        state.wf(),
        state.accepts(event),
    ensures
        ({
            let (after, step) = state.next(event);
            after.accepts(answer) <==> answers(answer, step.action)
        }),
{
}

/// A session holds a directory from the moment one was made for it until the answer to its request to
/// have it removed, and at no other time: it has none when it begins and none when it has ended, be it
/// with a failure.
pub proof fn law_directory_is_removed(
    job: Job<Seq<char>>,
    info: AdaptInfo<Seq<char>>,
    state: SessionView,
    event: EventView,
)
    requires
        state.wf(),
        state.accepts(event),
    ensures
        !begin(job, info).0.holds_temp_dir(),
        ({
            let (after, step) = state.next(event);
            &&& !state.holds_temp_dir() ==> (after.holds_temp_dir() <==> event matches Event::TempDir(
                Ok(_),
            ))
            &&& state.holds_temp_dir() ==> (after.holds_temp_dir() <==> !(event is Removed))
            &&& event is Removed ==> state.holds_temp_dir()
            &&& ends(step.action) ==> !after.holds_temp_dir()
        }),
{
}

/// The directory is kept while there are entries to be opened in it: after an extraction its removal is
/// asked for only when none is left.
pub proof fn law_directory_outlives_members(state: SessionView, event: EventView)
    requires
        state.wf(),
        state.accepts(event),
    ensures
        ({
            let (after, step) = state.next(event);
            &&& after.stage == Stage::RemoveTempDir ==> after.pending.len() == 0
            &&& step.action is RemoveTempDir ==> after.stage == Stage::RemoveTempDir || after.stage
                == Stage::DiscardTempDir
            &&& step.action is OpenMember ==> after.holds_temp_dir() && after.pending.len() > 0
            &&& (state.stage == Stage::OpenMember || state.stage == Stage::SearchFile)
                ==> after.holds_temp_dir()
        }),
{
}

/// The file that is handed out is the one that was asked for just before. It is asked for under the
/// first of the pending entries, and handed out only once its content is there.
pub proof fn law_file_handed_out_was_asked_for(state: SessionView, event: EventView)
    requires
        state.wf(),
        state.accepts(event),
    ensures
        ({
            let (after, step) = state.next(event);
            &&& after.stage == Stage::OpenMember ==> step.action == Action::<
                Seq<char>,
                Seq<Arg<Seq<char>>>,
            >::OpenMember(after.pending[0])
            &&& after.stage == Stage::SpawnMember ==> step.action == Action::<
                Seq<char>,
                Seq<Arg<Seq<char>>>,
            >::SpawnMember(spec_unrar_print(after.pending[0]))
            &&& step.action is Emit <==> (state.stage == Stage::OpenMember || state.stage
                == Stage::SpawnMember) && event.gives_content()
            &&& step.action matches Action::Emit(file) ==> file == state.info.spec_member(
                state.pending[0],
            ) && after.pending == state.pending.skip(1)
        }),
{
}

/// Whether a session has come to handing out files.
pub open spec fn hands_out(stage: Stage) -> bool {
    match stage {
        Stage::OpenMember => true,
        Stage::SearchFile => true,
        Stage::SpawnMember => true,
        Stage::SearchOutput => true,
        Stage::RemoveTempDir => true,
        _ => false,
    }
}

/// A session that asks for a file to be opened or printed has come to handing out files. From there on
/// it runs no further program to its end, makes no directory and does not fail: it goes on handing
/// out, and then ends.
pub proof fn law_handing_out_does_not_fail(state: SessionView, event: EventView)
    requires
        state.wf(),
        state.accepts(event),
    ensures
        ({
            let (after, step) = state.next(event);
            &&& step.action is OpenMember || step.action is SpawnMember || step.action is Emit
                ==> hands_out(after.stage)
            &&& hands_out(state.stage) ==> {
                ||| hands_out(after.stage) && (step.action is OpenMember || step.action is SpawnMember
                    || step.action is Emit || step.action is RemoveTempDir)
                ||| after.stage == Stage::Done && step.action is End
            }
        }),
{
}

/// What a session hands out from here on, if `action` is what it asked for last.
pub open spec fn handed_out(state: SessionView, action: ActionView, world: World) -> Found
    decreases state.phases_left(), state.entry_work_left(),
    when state.wf()
    via handed_out_decreases
{
    if state.stage == Stage::Done {
        match action {
            Action::Fail(error) => Err(error),
            _ => Ok(seq![]),
        }
    } else {
        let (after, step) = state.next(world.answer(state, action));
        let rest = handed_out(after, step.action, world);
        match (action, rest) {
            (Action::Emit(info), Ok(files)) => Ok(seq![info] + files),
            _ => rest,
        }
    }
}

#[via_fn]
proof fn handed_out_decreases(state: SessionView, action: ActionView, world: World) {
    if state.stage != Stage::Done {
        law_session_progresses(state, world.answer(state, action));
    }
}

/// All that a session asks for from here on, `action` being what it asked for last.
pub open spec fn requests(state: SessionView, action: ActionView, world: World) -> Seq<ActionView>
    decreases state.phases_left(), state.entry_work_left(),
    when state.wf()
    via requests_decreases
{
    if state.stage == Stage::Done {
        seq![action]
    } else {
        let (after, step) = state.next(world.answer(state, action));
        seq![action] + requests(after, step.action, world)
    }
}

#[via_fn]
proof fn requests_decreases(state: SessionView, action: ActionView, world: World) {
    if state.stage != Stage::Done {
        law_session_progresses(state, world.answer(state, action));
    }
}

/// Whether these requests end a session, the last but one of them being for the directory to go.
pub open spec fn ends_with_removal(requests: Seq<ActionView>) -> bool {
    &&& requests.len() >= 2
    &&& requests[requests.len() - 2] is RemoveTempDir
    &&& ends(requests.last())
}

proof fn lemma_requests_end(state: SessionView, action: ActionView, world: World)
    requires
        state.wf(),
        forall|event: EventView| #[trigger] state.accepts(event) <==> answers(event, action),
        state.stage == Stage::Done ==> ends(action),
    ensures
        ({
            let all = requests(state, action, world);
            &&& all.len() > 0
            &&& all[0] == action
            &&& ends(all.last())
            &&& state.holds_temp_dir() ==> ends_with_removal(all)
            &&& handed_out(state, action, world) is Err ==> all.last() == Action::<
                Seq<char>,
                Seq<Arg<Seq<char>>>,
            >::Fail(handed_out(state, action, world)->Err_0)
            &&& handed_out(state, action, world) is Ok ==> !(all.last() is Fail)
            &&& forall|i: int|
                0 <= i < all.len() && #[trigger] all[i] is CreateTempDir && world.temp_dir is Ok
                    ==> ends_with_removal(all)
        }),
    decreases state.phases_left(), state.entry_work_left(),
{
    if state.stage != Stage::Done {
        let event = world.answer(state, action);
        law_session_progresses(state, event);
        let (after, step) = state.next(event);
        assert forall|answer: EventView| #[trigger]
            after.accepts(answer) <==> answers(answer, step.action) by {
            law_next_action_is_answered(state, event, answer);
        }
        lemma_requests_end(after, step.action, world);
        let rest = requests(after, step.action, world);
        let all = requests(state, action, world);
        assert(all == seq![action] + rest);
        assert(all.last() == rest.last());
        assert(rest.len() >= 2 ==> all[all.len() - 2] == rest[rest.len() - 2]);
        if state.holds_temp_dir() && !after.holds_temp_dir() {
            assert(state.accepts(event));
            assert(rest.len() == 1);
            assert(all[all.len() - 2] == action);
        }
        assert forall|i: int|
            0 <= i < all.len() && #[trigger] all[i] is CreateTempDir
                && world.temp_dir is Ok implies ends_with_removal(all) by {
            if i > 0 {
                assert(all[i] == rest[i - 1]);
            } else {
                assert(answers(Event::TempDir(world.temp_dir), action));
                assert(state.accepts(Event::TempDir(world.temp_dir)));
                assert(after.holds_temp_dir());
            }
        }
    }
}

/// No extracted file is left behind: if a directory was made in the course of a search, then the last
/// that the session asks for before it ends is that the directory be removed. So it is where the search
/// fails, too; the failure is the very last that comes of it.
pub proof fn law_no_directory_is_left(job: Job<Seq<char>>, info: AdaptInfo<Seq<char>>, world: World)
    ensures
        ({
            let (state, step) = begin(job, info);
            let all = requests(state, step.action, world);
            &&& world.temp_dir is Ok && (exists|i: int|
                0 <= i < all.len() && #[trigger] all[i] is CreateTempDir) ==> ends_with_removal(all)
            &&& handed_out(state, step.action, world) is Err <==> all.last() is Fail
            &&& handed_out(state, step.action, world) matches Err(error) ==> all.last()
                == Action::<Seq<char>, Seq<Arg<Seq<char>>>>::Fail(error)
        }),
{
    let (state, step) = begin(job, info);
    assert forall|answer: EventView| #[trigger]
        state.accepts(answer) <==> answers(answer, step.action) by {
        law_first_action_is_answered(job, info, answer);
    }
    lemma_requests_end(state, step.action, world);
}

/// The files of an archive under those of these entries whose content could be had, in their order.
pub open spec fn members(
    info: AdaptInfo<Seq<char>>,
    entries: Seq<Seq<char>>,
    readable: spec_fn(nat) -> bool,
) -> Seq<AdaptInfo<Seq<char>>>
    decreases entries.len(),
{
    if entries.len() == 0 {
        seq![]
    } else if readable(entries.len()) {
        seq![info.spec_member(entries[0])] + members(info, entries.skip(1), readable)
    } else {
        members(info, entries.skip(1), readable)
    }
}

/// A search by means of `7z`: list, extract to a directory, hand out what can be opened there.
pub open spec fn adapt_with_7z(
    job: Job<Seq<char>>,
    info: AdaptInfo<Seq<char>>,
    world: World,
) -> Found {
    match job.listed((world.ran)(spec_sevenz_list(job.sevenz_name()))) {
        Err(error) => Err(error),
        Ok(entries) => if entries.len() == 0 {
            Ok(seq![])
        } else {
            match world.temp_dir {
                Err(cause) => Err(AdaptError::TempDir { context: job.temp_dir_context(), cause }),
                Ok(dir) => match job.extracted(
                    (world.ran)(spec_sevenz_extract(job.sevenz_name(), dir)),
                ) {
                    Err(error) => Err(error),
                    Ok(()) => Ok(members(info, entries, |n: nat| (world.opened)(n) is Ok)),
                },
            }
        },
    }
}

/// A search by means of `unrar`: list, hand out what it can be started to print.
pub open spec fn adapt_with_unrar(info: AdaptInfo<Seq<char>>, world: World) -> Found {
    match unrar_listed(unrar_help(), (world.ran)(spec_unrar_list())) {
        Err(error) => Err(error),
        Ok(entries) => Ok(members(info, entries, |n: nat| (world.spawned)(n) is Ok)),
    }
}

/// A search through a 7z archive.
pub open spec fn adapt_sevenz(
    cmd_name: Seq<char>,
    info: AdaptInfo<Seq<char>>,
    world: World,
) -> Found {
    if !info.is_real_file || spec_check_available(
        cmd_name,
        (world.ran)(spec_help(cmd_name)),
    ) is Err {
        Ok(seq![])
    } else {
        adapt_with_7z(Job::Sevenz(cmd_name), info, world)
    }
}

/// The program for RAR archives that is there: `unrar` if it is, else `7z` if that is.
pub open spec fn available_rar_tool(world: World) -> Option<RarTool> {
    if succeeded((world.ran)(spec_help("unrar"@))) {
        Some(RarTool::Unrar)
    } else if succeeded((world.ran)(spec_help("7z"@))) {
        Some(RarTool::SevenZ)
    } else {
        None
    }
}

/// A search through a RAR archive.
pub open spec fn adapt_rar(info: AdaptInfo<Seq<char>>, world: World) -> Found {
    if !info.is_real_file {
        Ok(seq![])
    } else {
        match available_rar_tool(world) {
            None => Ok(seq![]),
            Some(RarTool::Unrar) => adapt_with_unrar(info, world),
            Some(RarTool::SevenZ) => adapt_with_7z(Job::Rar, info, world),
        }
    }
}

proof fn lemma_opens_members(state: SessionView, world: World)
    requires
        state.stage == Stage::OpenMember,
        state.wf(),
    ensures
        handed_out(state, Action::OpenMember(state.pending[0]), world) == Ok::<
            Seq<AdaptInfo<Seq<char>>>,
            AdaptError<Seq<char>>,
        >(members(state.info, state.pending, |n: nat| (world.opened)(n) is Ok)),
    decreases state.pending.len(),
{
    reveal_with_fuel(handed_out, 4);
    reveal_with_fuel(members, 2);
    let rest = state.taken().at(Stage::OpenMember);
    if rest.pending.len() > 0 {
        lemma_opens_members(rest, world);
    }
}

proof fn lemma_spawns_members(state: SessionView, world: World)
    requires
        state.stage == Stage::SpawnMember,
        state.wf(),
    ensures
        handed_out(
            state,
            Action::SpawnMember(spec_unrar_print(state.pending[0])),
            world,
        ) == Ok::<Seq<AdaptInfo<Seq<char>>>, AdaptError<Seq<char>>>(
            members(state.info, state.pending, |n: nat| (world.spawned)(n) is Ok),
        ),
    decreases state.pending.len(),
{
    reveal_with_fuel(handed_out, 4);
    reveal_with_fuel(members, 2);
    let rest = state.taken().at(Stage::SpawnMember);
    if rest.pending.len() > 0 {
        lemma_spawns_members(rest, world);
    }
}

proof fn lemma_with_7z(state: SessionView, world: World)
    requires
        state.stage == Stage::ListSevenz,
    ensures
        handed_out(state, Action::Run(spec_sevenz_list(state.job.sevenz_name())), world)
            == adapt_with_7z(state.job, state.info, world),
{
    reveal_with_fuel(handed_out, 5);
    if let Ok(entries) = state.job.listed(
        (world.ran)(spec_sevenz_list(state.job.sevenz_name())),
    ) {
        if entries.len() > 0 {
            lemma_opens_members(
                SessionView { stage: Stage::OpenMember, pending: entries, ..state },
                world,
            );
        }
    }
}

/// A session of the adapter for 7z archives hands out just what [`adapt_sevenz`] says, whatever the
/// outside world answers.
pub proof fn law_sevenz_search(cmd_name: Seq<char>, info: AdaptInfo<Seq<char>>, world: World)
    ensures
        ({
            let (state, step) = begin(Job::Sevenz(cmd_name), info);
            handed_out(state, step.action, world) == adapt_sevenz(cmd_name, info, world)
        }),
{
    reveal_with_fuel(handed_out, 2);
    let (state, step) = begin(Job::Sevenz(cmd_name), info);
    lemma_with_7z(state.at(Stage::ListSevenz), world);
}

/// A session of the adapter for RAR archives hands out just what [`adapt_rar`] says, whatever the
/// outside world answers.
pub proof fn law_rar_search(info: AdaptInfo<Seq<char>>, world: World)
    ensures
        ({
            let (state, step) = begin(Job::Rar, info);
            handed_out(state, step.action, world) == adapt_rar(info, world)
        }),
{
    reveal_with_fuel(handed_out, 4);
    let (state, step) = begin(Job::Rar, info);
    lemma_with_7z(state.at(Stage::ListSevenz), world);
    if let Ok(entries) = unrar_listed(unrar_help(), (world.ran)(spec_unrar_list())) {
        if entries.len() > 0 {
            lemma_spawns_members(
                SessionView { stage: Stage::SpawnMember, pending: entries, ..state },
                world,
            );
        }
    }
}

/// Each file that is handed out stands under one of the entries, is no file on disk, is one archive
/// deeper than the archive it comes from (as far as that can be counted), and is searched with that
/// one's settings. Its lines are
/// told apart by the entry behind the archive's own prefix.
pub proof fn law_members(
    info: AdaptInfo<Seq<char>>,
    entries: Seq<Seq<char>>,
    readable: spec_fn(nat) -> bool,
    i: int,
)
    requires
        0 <= i < members(info, entries, readable).len(),
    ensures
        ({
            let file = members(info, entries, readable)[i];
            &&& entries.contains(file.filepath_hint)
            &&& !file.is_real_file
            &&& info.archive_recursion_depth < i32::MAX ==> file.archive_recursion_depth
                == info.archive_recursion_depth + 1
            &&& file.postprocess == info.postprocess
            &&& file.line_prefix == info.line_prefix + file.filepath_hint + ": "@
        }),
    decreases entries.len(),
{
    let rest = members(info, entries.skip(1), readable);
    let file = members(info, entries, readable)[i];
    if readable(entries.len()) && i == 0 {
        assert(file.filepath_hint == entries[0]);
    } else {
        let j = if readable(entries.len()) {
            i - 1
        } else {
            i
        };
        assert(file == rest[j]);
        law_members(info, entries.skip(1), readable, j);
        let k = choose|k: int|
            0 <= k < entries.skip(1).len() && entries.skip(1)[k] == file.filepath_hint;
        assert(entries[k + 1] == file.filepath_hint);
    }
}

/// Where the content of every entry can be had, every entry is handed out, in order.
pub proof fn law_all_members(
    info: AdaptInfo<Seq<char>>,
    entries: Seq<Seq<char>>,
    readable: spec_fn(nat) -> bool,
)
    requires
        forall|n: nat| 0 < n <= entries.len() ==> #[trigger] readable(n),
    ensures
        members(info, entries, readable) == entries.map_values(
            |entry: Seq<char>| info.spec_member(entry),
        ),
    decreases entries.len(),
{
    if entries.len() > 0 {
        law_all_members(info, entries.skip(1), readable);
        let member = |entry: Seq<char>| info.spec_member(entry);
        assert(readable(entries.len()));
        assert(seq![info.spec_member(entries[0])] + entries.skip(1).map_values(member)
            == entries.map_values(member));
    } else {
        assert(members(info, entries, readable) == entries.map_values(
            |entry: Seq<char>| info.spec_member(entry),
        ));
    }
}

/// An entry whose content cannot be had is left out, and nothing else is.
pub proof fn law_unreadable_member_is_skipped(
    info: AdaptInfo<Seq<char>>,
    before: Seq<Seq<char>>,
    entry: Seq<char>,
    after: Seq<Seq<char>>,
    readable: spec_fn(nat) -> bool,
)
    requires
        !readable((after.len() + 1) as nat),
    ensures
        members(info, before + seq![entry] + after, readable) == members(
            info,
            before,
            |n: nat| readable(n + after.len() + 1),
        ) + members(info, after, readable),
    decreases before.len(),
{
    let all = before + seq![entry] + after;
    let shifted = |n: nat| readable(n + after.len() + 1);
    if before.len() == 0 {
        assert(all.skip(1) == after);
        assert(members(info, before, shifted) + members(info, after, readable) == members(
            info,
            after,
            readable,
        ));
    } else {
        law_unreadable_member_is_skipped(info, before.skip(1), entry, after, readable);
        assert(all.skip(1) == before.skip(1) + seq![entry] + after);
        assert(readable(all.len()) == shifted(before.len()));
        let first = seq![info.spec_member(before[0])];
        let rest = members(info, before.skip(1), shifted);
        assert((first + rest) + members(info, after, readable) == first + (rest + members(
            info,
            after,
            readable,
        )));
    }
}

/// An archive that is not on disk is passed over: no outside work is done on it, and a warning says so.
pub proof fn law_not_on_disk_is_skipped(job: Job<Seq<char>>, info: AdaptInfo<Seq<char>>, world: World)
    requires
        !info.is_real_file,
    ensures
        ({
            let (state, step) = begin(job, info);
            &&& state.stage == Stage::Done
            &&& step.action is ReturnEmpty
            &&& step.log == Some(not_real_warning(job, info.filepath_hint))
            &&& handed_out(state, step.action, world) == Found::Ok(seq![])
        }),
{
}

/// An archive inside an archive is passed over.
pub proof fn law_inner_archive_is_skipped(
    job: Job<Seq<char>>,
    info: AdaptInfo<Seq<char>>,
    entry: Seq<char>,
    world: World,
)
    ensures
        ({
            let (state, step) = begin(job, info.spec_member(entry));
            &&& state.stage == Stage::Done
            &&& step.action is ReturnEmpty
            &&& handed_out(state, step.action, world) == Found::Ok(seq![])
        }),
{
    law_not_on_disk_is_skipped(job, info.spec_member(entry), world);
}

/// A run of `7z` to list an archive is read in the same way for 7z archives and for RAR archives, under
/// whatever name it ran: where it succeeded, and where it could not be started though it is installed.
/// Where it ran under the same name it is so for its failures, too.
pub proof fn law_listings_are_read_alike(
    a: Job<Seq<char>>,
    b: Job<Seq<char>>,
    outcome: OutcomeView,
)
    ensures
        succeeded(outcome) ==> a.listed(outcome) is Ok && a.listed(outcome) == b.listed(outcome),
        outcome matches Err(error) ==> (!error.not_found ==> a.listed(outcome) is Err && a.listed(
            outcome,
        ) == b.listed(outcome)),
        outcome matches Ok(output) ==> (!output.success && a.sevenz_name() == b.sevenz_name()
            ==> a.listed(outcome) is Err && a.listed(outcome) == b.listed(outcome)),
        Job::Sevenz("7z"@).sevenz_name() == Job::<Seq<char>>::Rar.sevenz_name(),
{
}

/// Without its program the adapter for 7z archives finds nothing to search, and a warning, which is
/// printed, too, names the program and ends with how to get it.
pub proof fn law_missing_sevenz_is_warned(
    cmd_name: Seq<char>,
    info: AdaptInfo<Seq<char>>,
    error: LaunchError<Seq<char>>,
)
    requires
        info.is_real_file,
        error.not_found,
    ensures
        ({
            let (state, step) = begin(Job::Sevenz(cmd_name), info);
            let (after, next) = state.next(Event::Ran(Err(error)));
            &&& step.action == Action::<Seq<char>, _>::Run(spec_help(cmd_name))
            &&& after.stage == Stage::Done
            &&& next.action is ReturnEmpty
            &&& next.log matches Some(text) && exists|i: int|
                0 <= i <= text.len() - cmd_name.len() && #[trigger] text.subrange(
                    i,
                    i + cmd_name.len(),
                ) == cmd_name
            &&& next.log matches Some(text) && sevenz_help().is_suffix_of(text)
            &&& next.log matches Some(text) && next.stderr_line == Some("rga warning: "@ + text)
        }),
{
    let (state, step) = begin(Job::Sevenz(cmd_name), info);
    let (after, next) = state.next(Event::Ran(Err(error)));
    let text = next.log->0;
    let start = "7z adapter disabled: "@.len() + "Could not find executable \""@.len()
        as int;
    assert(text.subrange(start, start + cmd_name.len()) == cmd_name);
    assert(text.subrange(text.len() - sevenz_help().len(), text.len() as int) == sevenz_help());
}

/// Whether a program that is started in this way reports success.
pub open spec fn works(world: World, run: InvocationView) -> bool {
    (world.ran)(run) matches Ok(output) && output.success
}

/// Whether these files are just those of an archive under these entries, all of them and in their order.
pub open spec fn stand_for(
    files: Seq<AdaptInfo<Seq<char>>>,
    info: AdaptInfo<Seq<char>>,
    entries: Seq<Seq<char>>,
) -> bool {
    &&& files.len() == entries.len()
    &&& forall|i: int|
        0 <= i < entries.len() ==> {
            let file = #[trigger] files[i];
            &&& file.filepath_hint == entries[i]
            &&& !file.is_real_file
            &&& file.line_prefix == info.line_prefix + entries[i] + ": "@
            &&& file.postprocess == info.postprocess
            &&& info.archive_recursion_depth < i32::MAX ==> file.archive_recursion_depth
                == info.archive_recursion_depth + 1
        }
}

/// The files of two runs of entries are those of the first and then those of the second; that of a single
/// entry is handed out just if its content can be had.
pub proof fn law_members_join(
    info: AdaptInfo<Seq<char>>,
    before: Seq<Seq<char>>,
    after: Seq<Seq<char>>,
    entry: Seq<char>,
    readable: spec_fn(nat) -> bool,
)
    ensures
        members(info, before + after, readable) == members(
            info,
            before,
            |n: nat| readable(n + after.len()),
        ) + members(info, after, readable),
        members(info, seq![entry], readable).len() == if readable(1) {
            1nat
        } else {
            0nat
        },
        readable(1) ==> stand_for(members(info, seq![entry], readable), info, seq![entry]),
    decreases before.len(),
{
    let all = before + after;
    let shifted = |n: nat| readable(n + after.len());
    reveal_with_fuel(members, 2);
    assert(seq![entry].skip(1) == Seq::<Seq<char>>::empty());
    if before.len() == 0 {
        assert(all == after);
        assert(members(info, before, shifted) + members(info, after, readable) == members(
            info,
            after,
            readable,
        ));
    } else {
        law_members_join(info, before.skip(1), after, entry, readable);
        assert(all.skip(1) == before.skip(1) + after);
        assert(readable(all.len()) == shifted(before.len()));
        let first = seq![info.spec_member(before[0])];
        let rest = members(info, before.skip(1), shifted);
        assert((first + rest) + members(info, after, readable) == first + (rest + members(
            info,
            after,
            readable,
        )));
    }
}

proof fn lemma_members_stand_for(
    info: AdaptInfo<Seq<char>>,
    entries: Seq<Seq<char>>,
    readable: spec_fn(nat) -> bool,
)
    requires
        forall|n: nat| 0 < n <= entries.len() ==> #[trigger] readable(n),
    ensures
        stand_for(members(info, entries, readable), info, entries),
{
    law_all_members(info, entries, readable);
}

/// A search by means of `7z` comes to this: where the program is there, lists entries and extracts them,
/// and every file can be opened, all the entries are handed out, in the order of the listing.
pub proof fn law_sevenz_archive_is_searched(
    cmd_name: Seq<char>,
    info: AdaptInfo<Seq<char>>,
    world: World,
    names: Seq<Seq<char>>,
    dir: Seq<char>,
)
    requires
        info.is_real_file,
        works(world, spec_help(cmd_name)),
        works(world, spec_sevenz_list(cmd_name)),
        lossy_text((world.ran)(spec_sevenz_list(cmd_name))->Ok_0.stdout) == sevenz_listing(names),
        forall|i: int| 0 <= i < names.len() ==> is_entry(#[trigger] names[i]) && names[i].last()
            != '/',
        world.temp_dir == Result::<Seq<char>, Seq<char>>::Ok(dir),
        works(world, spec_sevenz_extract(cmd_name, dir)),
        forall|n: nat| 0 < n <= names.len() ==> #[trigger] (world.opened)(n) is Ok,
    ensures
        ({
            let (state, step) = begin(Job::Sevenz(cmd_name), info);
            &&& handed_out(state, step.action, world) matches Ok(files)
            &&& stand_for(files, info, names)
        }),
{
    law_sevenz_search(cmd_name, info, world);
    law_sevenz_listing_is_read_back(names);
    lemma_members_stand_for(info, names, |n: nat| (world.opened)(n) is Ok);
}

/// The same holds of a RAR archive where `unrar` is not there and `7z` is.
pub proof fn law_rar_archive_is_searched_by_sevenz(
    info: AdaptInfo<Seq<char>>,
    world: World,
    names: Seq<Seq<char>>,
    dir: Seq<char>,
)
    requires
        info.is_real_file,
        !works(world, spec_help("unrar"@)),
        works(world, spec_help("7z"@)),
        works(world, spec_sevenz_list("7z"@)),
        lossy_text((world.ran)(spec_sevenz_list("7z"@))->Ok_0.stdout) == sevenz_listing(names),
        forall|i: int| 0 <= i < names.len() ==> is_entry(#[trigger] names[i]) && names[i].last()
            != '/',
        world.temp_dir == Result::<Seq<char>, Seq<char>>::Ok(dir),
        works(world, spec_sevenz_extract("7z"@, dir)),
        forall|n: nat| 0 < n <= names.len() ==> #[trigger] (world.opened)(n) is Ok,
    ensures
        ({
            let (state, step) = begin(Job::Rar, info);
            &&& handed_out(state, step.action, world) matches Ok(files)
            &&& stand_for(files, info, names)
        }),
{
    law_rar_search(info, world);
    law_sevenz_listing_is_read_back(names);
    lemma_members_stand_for(info, names, |n: nat| (world.opened)(n) is Ok);
}

/// Where `unrar` is there and lists the archive, and can be started to print every entry, all the entries
/// are handed out, in the order of the listing; no directory and no `7z` is needed.
pub proof fn law_rar_archive_is_searched_by_unrar(info: AdaptInfo<Seq<char>>, world: World)
    requires
        info.is_real_file,
        works(world, spec_help("unrar"@)),
        works(world, spec_unrar_list()),
        forall|n: nat| 0 < n ==> #[trigger] (world.spawned)(n) is Ok,
    ensures
        ({
            let (state, step) = begin(Job::Rar, info);
            let listing = lossy_text((world.ran)(spec_unrar_list())->Ok_0.stdout);
            &&& handed_out(state, step.action, world) matches Ok(files)
            &&& stand_for(files, info, unrar_entries(listing))
        }),
{
    law_rar_search(info, world);
    let listing = lossy_text((world.ran)(spec_unrar_list())->Ok_0.stdout);
    lemma_members_stand_for(
        info,
        unrar_entries(listing),
        |n: nat| (world.spawned)(n) is Ok,
    );
}

/// A search through a 7z archive fails just if the archive is on disk and its program is there, but the
/// listing fails, or there are entries and no directory for them, or their extraction fails.
pub proof fn law_sevenz_search_fails(cmd_name: Seq<char>, info: AdaptInfo<Seq<char>>, world: World)
    ensures
        ({
            let (state, step) = begin(Job::Sevenz(cmd_name), info);
            let entries = sevenz_entries(
                lossy_text((world.ran)(spec_sevenz_list(cmd_name))->Ok_0.stdout),
            );
            handed_out(state, step.action, world) is Err <==> {
                &&& info.is_real_file
                &&& works(world, spec_help(cmd_name))
                &&& {
                    ||| !works(world, spec_sevenz_list(cmd_name))
                    ||| entries.len() > 0 && world.temp_dir is Err
                    ||| entries.len() > 0 && !works(
                        world,
                        spec_sevenz_extract(cmd_name, world.temp_dir->Ok_0),
                    )
                }
            }
        }),
{
    law_sevenz_search(cmd_name, info, world);
}

/// A search through a RAR archive fails just if the archive is on disk and `unrar` is there, but its listing
/// fails, or if `7z` is there instead and fails as in a search through a 7z archive.
pub proof fn law_rar_search_fails(info: AdaptInfo<Seq<char>>, world: World)
    ensures
        ({
            let (state, step) = begin(Job::Rar, info);
            let entries = sevenz_entries(
                lossy_text((world.ran)(spec_sevenz_list("7z"@))->Ok_0.stdout),
            );
            handed_out(state, step.action, world) is Err <==> {
                &&& info.is_real_file
                &&& {
                    ||| works(world, spec_help("unrar"@)) && !works(world, spec_unrar_list())
                    ||| !works(world, spec_help("unrar"@)) && works(world, spec_help("7z"@)) && {
                        ||| !works(world, spec_sevenz_list("7z"@))
                        ||| entries.len() > 0 && world.temp_dir is Err
                        ||| entries.len() > 0 && !works(
                            world,
                            spec_sevenz_extract("7z"@, world.temp_dir->Ok_0),
                        )
                    }
                }
            }
        }),
{
    law_rar_search(info, world);
}

/// Where its programs are not there, or the archive is not on disk, a search finds nothing and does not
/// fail.
pub proof fn law_nothing_is_found_without_a_program(
    cmd_name: Seq<char>,
    info: AdaptInfo<Seq<char>>,
    world: World,
)
    ensures
        !info.is_real_file || !works(world, spec_help(cmd_name)) ==> {
            let (state, step) = begin(Job::Sevenz(cmd_name), info);
            &&& handed_out(state, step.action, world) matches Ok(files)
            &&& files.len() == 0
        },
        !info.is_real_file || !works(world, spec_help("unrar"@)) && !works(world, spec_help("7z"@))
            ==> {
            let (state, step) = begin(Job::Rar, info);
            &&& handed_out(state, step.action, world) matches Ok(files)
            &&& files.len() == 0
        },
{
    law_sevenz_search(cmd_name, info, world);
    law_rar_search(info, world);
}

} // verus!
