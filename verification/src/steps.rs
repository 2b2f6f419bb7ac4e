//! Single steps of a session: what is asked for, and what is said, upon each answer.
use crate::archive::Listed;
use crate::error::AdaptError;
use crate::info::AdaptInfo;
use crate::listing::{
    is_entry, law_sevenz_listing_is_read_back, sevenz_entries, sevenz_listing, unrar_entries,
};
use crate::rar::RarTool;
use crate::session::{
    begin, Action, Event, EventView, Job, PathError, SessionView, Stage, Step,
};
use crate::tool::{
    lossy_text, outcome_view, succeeded, Arg, LaunchError, OutcomeView, ToolOutput,
};
use vstd::prelude::*;

verus! {

/// A search begins with the question whether its program is there, which is put without a word, and with
/// no entries; an archive that is not on disk is passed over, with a warning that names it.
pub proof fn law_begin(job: Job<Seq<char>>, info: AdaptInfo<Seq<char>>)
    ensures
        ({
            let (state, step) = begin(job, info);
            let (first, program, stage) = match job {
                Job::Sevenz(cmd_name) => ("7z adapter: skipping "@, cmd_name, Stage::CheckSevenz),
                Job::Rar => (
                    "rar adapter: skipping "@,
                    "unrar"@,
                    Stage::DetectTool(RarTool::Unrar),
                ),
            };
            let text = first + info.filepath_hint + " because it is not a real file on disk"@;
            &&& state.job == job
            &&& state.info == info
            &&& state.pending.len() == 0
            &&& state.failure is None
            &&& info.is_real_file ==> {
                &&& state.stage == stage
                &&& step.action matches Action::Run(run)
                &&& run.program == program
                &&& run.args.len() == 1
                &&& run.args[0] == Arg::Text("--help"@)
                &&& step.log is None
                &&& step.stderr_line is None
            }
            &&& !info.is_real_file ==> {
                &&& state.stage == Stage::Done
                &&& step.action is ReturnEmpty
                &&& step.log == Some(text)
                &&& job is Sevenz ==> step.stderr_line == Some("rga warning: "@ + text)
                &&& job is Rar ==> step.stderr_line is None
            }
        }),
{
}

/// A 7z archive is listed, without a word, just if its program reported success when it was asked for its
/// help text. Otherwise there is nothing to search, and a warning, which is printed, too, says why.
pub proof fn law_sevenz_is_checked(state: SessionView, cmd_name: Seq<char>, outcome: OutcomeView)
    requires
        state.stage == Stage::CheckSevenz,
        state.job == Job::Sevenz(cmd_name),
    ensures
        ({
            let (after, step) = state.next(Event::Ran(outcome));
            let works = outcome matches Ok(output) && output.success;
            let reason = match outcome {
                Ok(_) => cmd_name + " command failed. Is 7-zip/p7zip installed?"@,
                Err(error) => if error.not_found {
                    "Could not find executable \""@ + cmd_name + "\". "@
                        + "Install p7zip or 7-zip to search 7z archives."@
                } else {
                    error.message
                },
            };
            &&& works ==> {
                &&& after.stage == Stage::ListSevenz
                &&& step.action matches Action::Run(run)
                &&& run.program == cmd_name
                &&& run.args.len() == 4
                &&& run.args[0] == Arg::Text("l"@)
                &&& run.args[1] == Arg::Text("-slt"@)
                &&& run.args[2] == Arg::Text("-ba"@)
                &&& run.args[3] is Archive
                &&& step.log is None
                &&& step.stderr_line is None
            }
            &&& !works ==> {
                &&& after.stage == Stage::Done
                &&& step.action is ReturnEmpty
                &&& step.log == Some("7z adapter disabled: "@ + reason)
                &&& step.stderr_line == Some("rga warning: "@ + ("7z adapter disabled: "@ + reason))
            }
        }),
{
}

/// A RAR archive is listed, without a word, by the program that reported success when it was asked for its
/// help text. Where `unrar` did not, `7z` is asked; where that did not either, there is nothing to search,
/// and a warning, which is not printed, says so.
pub proof fn law_rar_tool_is_found(state: SessionView, tried: RarTool, outcome: OutcomeView)
    requires
        state.stage == Stage::DetectTool(tried),
        state.job == Job::<Seq<char>>::Rar,
    ensures
        ({
            let (after, step) = state.next(Event::Ran(outcome));
            let works = outcome matches Ok(output) && output.success;
            &&& works && tried is Unrar ==> {
                &&& after.stage == Stage::ListUnrar
                &&& step.action matches Action::Run(run)
                &&& run.program == "unrar"@
                &&& run.args.len() == 3
                &&& run.args[0] == Arg::Text("l"@)
                &&& run.args[1] == Arg::Text("-inul"@)
                &&& run.args[2] is Archive
                &&& step.log is None
                &&& step.stderr_line is None
            }
            &&& works && tried is SevenZ ==> {
                &&& after.stage == Stage::ListSevenz
                &&& step.action matches Action::Run(run)
                &&& run.program == "7z"@
                &&& run.args.len() == 4
                &&& run.args[0] == Arg::Text("l"@)
                &&& run.args[1] == Arg::Text("-slt"@)
                &&& run.args[2] == Arg::Text("-ba"@)
                &&& run.args[3] is Archive
                &&& step.log is None
                &&& step.stderr_line is None
            }
            &&& !works && tried is Unrar ==> {
                &&& after.stage == Stage::DetectTool(RarTool::SevenZ)
                &&& step.action matches Action::Run(run)
                &&& run.program == "7z"@
                &&& run.args.len() == 1
                &&& run.args[0] == Arg::Text("--help"@)
                &&& step.log is None
                &&& step.stderr_line is None
            }
            &&& !works && tried is SevenZ ==> {
                &&& after.stage == Stage::Done
                &&& step.action is ReturnEmpty
                &&& step.log == Some(
                    "rar adapter disabled: neither unrar nor 7z is available. Install unrar or p7zip to search RAR archives."@,
                )
                &&& step.stderr_line is None
            }
        }),
{
}

/// All the entries that a listing names are pending once it has been read, in its order; where it names
/// none the search ends. A program that could not list makes the search fail. Nothing is said of it.
pub proof fn law_listing_is_taken(state: SessionView, outcome: OutcomeView)
    requires
        state.stage == Stage::ListUnrar || state.stage == Stage::ListSevenz,
    ensures
        ({
            let (after, step) = state.next(Event::Ran(outcome));
            let by_unrar = state.stage == Stage::ListUnrar;
            &&& outcome matches Ok(output) ==> {
                let text = lossy_text(output.stdout);
                let entries = if by_unrar {
                    unrar_entries(text)
                } else {
                    sevenz_entries(text)
                };
                &&& output.success && entries.len() == 0 ==> after.stage == Stage::Done
                    && step.action is ReturnEmpty
                &&& output.success && entries.len() > 0 ==> after.pending == entries
                &&& output.success && entries.len() > 0 && !by_unrar ==> after.stage
                    == Stage::CreateTempDir && step.action is CreateTempDir
                &&& output.success && entries.len() > 0 && by_unrar ==> {
                    &&& after.stage == Stage::SpawnMember
                    &&& step.action matches Action::SpawnMember(run)
                    &&& run.program == "unrar"@
                    &&& run.args.len() == 4
                    &&& run.args[0] == Arg::Text("p"@)
                    &&& run.args[1] == Arg::Text("-inul"@)
                    &&& run.args[2] is Archive
                    &&& run.args[3] == Arg::Text(entries[0])
                }
            }
            &&& !(outcome matches Ok(output) && output.success) ==> after.stage == Stage::Done
                && step.action is Fail
            &&& step.log is None
            &&& step.stderr_line is None
        }),
{
}

/// What a search fails with where the archive could not be listed is said in these words.
pub proof fn law_failed_listing_is_told(
    state: SessionView,
    output: ToolOutput<Seq<u8>>,
    error: LaunchError<Seq<char>>,
)
    requires
        state.stage == Stage::ListUnrar && state.job == Job::<Seq<char>>::Rar || state.stage
            == Stage::ListSevenz,
    ensures
        ({
            let (program, help) = match state.job {
                Job::Sevenz(cmd_name) => (
                    cmd_name,
                    "Install p7zip or 7-zip to search 7z archives."@,
                ),
                Job::Rar => if state.stage == Stage::ListUnrar {
                    ("unrar"@, "Install unrar to search RAR archives."@)
                } else {
                    ("7z"@, "Install 7z/p7zip to search RAR archives."@)
                },
            };
            &&& !output.success ==> {
                &&& state.next(Event::Ran(Ok(output))).1.action matches Action::Fail(failure)
                &&& failure.text() == program + " list failed: "@ + lossy_text(output.stderr)
            }
            &&& state.next(Event::Ran(Err(error))).1.action matches Action::Fail(failure)
            &&& error.not_found ==> failure.text() == "Could not find executable \""@ + program
                + "\". "@ + help
            &&& !error.not_found ==> failure.text() == error.message
        }),
{
}

/// The archive is extracted, without a word, into the very directory that was made, and all its entries
/// stay pending. Where none could be made, the search fails.
pub proof fn law_directory_is_used(state: SessionView, made: Result<Seq<char>, Seq<char>>)
    requires
        state.stage == Stage::CreateTempDir,
    ensures
        ({
            let (after, step) = state.next(Event::TempDir(made));
            let (program, context) = match state.job {
                Job::Sevenz(cmd_name) => (
                    cmd_name,
                    "failed to create temp dir for 7z extraction"@,
                ),
                Job::Rar => ("7z"@, "failed to create temp dir for RAR extraction via 7z"@),
            };
            &&& made matches Ok(dir) ==> {
                &&& after.stage == Stage::Extract
                &&& after.pending == state.pending
                &&& step.action matches Action::Run(run)
                &&& run.program == program
                &&& run.args.len() == 4
                &&& run.args[0] == Arg::Text("x"@)
                &&& run.args[1] == Arg::Text("-y"@)
                &&& run.args[2] == Arg::Text("-o"@ + dir)
                &&& run.args[3] is Archive
            }
            &&& made matches Err(reason) ==> {
                &&& after.stage == Stage::Done
                &&& step.action matches Action::Fail(AdaptError::TempDir { context: said, cause })
                &&& said == context
                &&& cause == reason
            }
            &&& step.log is None
            &&& step.stderr_line is None
        }),
{
}

/// After an extraction that reported success, whatever it printed, the first of the entries is opened, and
/// all of them are still pending. After one that did not, the directory is removed first, and then the
/// search fails in these words, whatever came of the removal.
pub proof fn law_extraction_is_taken(
    state: SessionView,
    outcome: OutcomeView,
    removed: Result<(), PathError<Seq<char>>>,
)
    requires
        state.stage == Stage::Extract,
        state.pending.len() > 0,
    ensures
        ({
            let (after, step) = state.next(Event::Ran(outcome));
            let (end, last) = after.next(Event::Removed(removed));
            let works = outcome matches Ok(output) && output.success;
            let (program, help) = match state.job {
                Job::Sevenz(cmd_name) => (
                    cmd_name,
                    "Install p7zip or 7-zip to search 7z archives."@,
                ),
                Job::Rar => ("7z"@, "Install p7zip to search RAR archives."@),
            };
            let reason = match outcome {
                Ok(output) => program + " extract failed: "@ + lossy_text(output.stderr),
                Err(error) => if error.not_found {
                    "Could not find executable \""@ + program + "\". "@ + help
                } else {
                    error.message
                },
            };
            &&& works ==> {
                &&& after.stage == Stage::OpenMember
                &&& after.pending == state.pending
                &&& step.action matches Action::OpenMember(name)
                &&& name == state.pending[0]
            }
            &&& !works ==> {
                &&& after.stage == Stage::DiscardTempDir
                &&& step.action is RemoveTempDir
                &&& end.stage == Stage::Done
                &&& last.log is None
                &&& last.stderr_line is None
                &&& last.action matches Action::Fail(failure)
                &&& failure.text() == reason
            }
            &&& step.log is None
            &&& step.stderr_line is None
        }),
{
}

/// A file that could be opened, or that a program could be started to print, is handed out under the first
/// of the pending entries, which is then no longer pending; the others are, in their order.
pub proof fn law_member_is_handed_out(state: SessionView)
    requires
        state.stage == Stage::OpenMember || state.stage == Stage::SpawnMember,
        state.pending.len() > 0,
    ensures
        ({
            let opened = state.stage == Stage::OpenMember;
            let event = if opened {
                Event::Opened(Ok(()))
            } else {
                Event::Spawned(Ok(()))
            };
            let (after, step) = state.next(event);
            &&& after.stage == if opened {
                Stage::SearchFile
            } else {
                Stage::SearchOutput
            }
            &&& seq![state.pending[0]] + after.pending == state.pending
            &&& step.log is None
            &&& step.stderr_line is None
            &&& step.action matches Action::Emit(file)
            &&& file.filepath_hint == state.pending[0]
            &&& !file.is_real_file
            &&& file.line_prefix == state.info.line_prefix + state.pending[0] + ": "@
            &&& file.postprocess == state.info.postprocess
            &&& state.info.archive_recursion_depth < i32::MAX ==> file.archive_recursion_depth
                == state.info.archive_recursion_depth + 1
        }),
{
}

/// A file that could not be had is passed over with a warning in these words, and the search goes on with
/// the next of the entries, or to its end.
pub proof fn law_member_is_passed_over(
    state: SessionView,
    error: PathError<Seq<char>>,
    message: Seq<char>,
)
    requires
        state.stage == Stage::OpenMember || state.stage == Stage::SpawnMember,
        state.pending.len() > 0,
    ensures
        ({
            let opened = state.stage == Stage::OpenMember;
            let (event, text) = if opened {
                (
                    Event::Opened(Err(error)),
                    "failed to open extracted file "@ + error.path + ": "@ + error.message,
                )
            } else {
                (
                    Event::Spawned(Err(message)),
                    "failed to spawn unrar for "@ + state.pending[0] + ": "@ + message,
                )
            };
            let (after, step) = state.next(event);
            &&& seq![state.pending[0]] + after.pending == state.pending
            &&& step.log == Some(text)
            &&& state.job is Sevenz ==> step.stderr_line == Some("rga warning: "@ + text)
            &&& state.job is Rar ==> step.stderr_line is None
            &&& opened && state.pending.len() > 1 ==> {
                &&& after.stage == Stage::OpenMember
                &&& step.action matches Action::OpenMember(name)
                &&& name == state.pending[1]
            }
            &&& opened && state.pending.len() == 1 ==> after.stage == Stage::RemoveTempDir
                && step.action is RemoveTempDir
            &&& !opened && state.pending.len() > 1 ==> {
                &&& after.stage == Stage::SpawnMember
                &&& step.action matches Action::SpawnMember(run)
                &&& run.program == "unrar"@
                &&& run.args.len() == 4
                &&& run.args[0] == Arg::Text("p"@)
                &&& run.args[1] == Arg::Text("-inul"@)
                &&& run.args[2] is Archive
                &&& run.args[3] == Arg::Text(state.pending[1])
            }
            &&& !opened && state.pending.len() == 1 ==> after.stage == Stage::Done
                && step.action is End
        }),
{
}

/// Once a file has been searched, the search goes on, without a word, with the first of the pending
/// entries, or to its end; none of them is lost.
pub proof fn law_search_is_resumed(state: SessionView)
    requires
        state.stage == Stage::SearchFile || state.stage == Stage::SearchOutput,
    ensures
        ({
            let opened = state.stage == Stage::SearchFile;
            let (after, step) = state.next(Event::Resumed);
            &&& after.pending == state.pending
            &&& step.log is None
            &&& step.stderr_line is None
            &&& opened && state.pending.len() > 0 ==> {
                &&& after.stage == Stage::OpenMember
                &&& step.action matches Action::OpenMember(name)
                &&& name == state.pending[0]
            }
            &&& opened && state.pending.len() == 0 ==> after.stage == Stage::RemoveTempDir
                && step.action is RemoveTempDir
            &&& !opened && state.pending.len() > 0 ==> {
                &&& after.stage == Stage::SpawnMember
                &&& step.action matches Action::SpawnMember(run)
                &&& run.program == "unrar"@
                &&& run.args.len() == 4
                &&& run.args[0] == Arg::Text("p"@)
                &&& run.args[1] == Arg::Text("-inul"@)
                &&& run.args[2] is Archive
                &&& run.args[3] == Arg::Text(state.pending[0])
            }
            &&& !opened && state.pending.len() == 0 ==> after.stage == Stage::Done
                && step.action is End
        }),
{
}

/// Once the directory has been asked to go, the search ends. For a RAR archive a warning, which is not
/// printed, says why it could not go; for a 7z archive none does.
pub proof fn law_search_ends(state: SessionView, removed: Result<(), PathError<Seq<char>>>)
    requires
        state.stage == Stage::RemoveTempDir,
    ensures
        ({
            let (after, step) = state.next(Event::Removed(removed));
            &&& after.stage == Stage::Done
            &&& step.action is End
            &&& step.stderr_line is None
            &&& step.log is Some <==> removed is Err && state.job is Rar
            &&& step.log matches Some(text) ==> text == "failed to clean up temp dir "@
                + removed->Err_0.path + ": "@ + removed->Err_0.message
        }),
{
}

/// A session waits for one kind of answer at a time, and for none once it has ended.
pub proof fn law_awaited_answers(state: SessionView, event: EventView)
    ensures
        match event {
            Event::Ran(_) => state.accepts(event) <==> (state.stage == Stage::CheckSevenz
                || state.stage is DetectTool || state.stage == Stage::ListUnrar || state.stage
                == Stage::ListSevenz || state.stage == Stage::Extract),
            Event::TempDir(_) => state.accepts(event) <==> state.stage == Stage::CreateTempDir,
            Event::Opened(_) => state.accepts(event) <==> state.stage == Stage::OpenMember,
            Event::Spawned(_) => state.accepts(event) <==> state.stage == Stage::SpawnMember,
            Event::Resumed => state.accepts(event) <==> (state.stage == Stage::SearchFile
                || state.stage == Stage::SearchOutput),
            Event::Removed(_) => state.accepts(event) <==> (state.stage == Stage::RemoveTempDir
                || state.stage == Stage::DiscardTempDir),
        },
        state.stage == Stage::Done ==> !state.accepts(event),
        event.gives_content() <==> ((event matches Event::Opened(Ok(_))) || (
        event matches Event::Spawned(Ok(_)))),
{
}

/// Whether `7z` counts as having listed or extracted an archive depends on the reported success alone,
/// whatever it printed, for either kind of archive.
pub proof fn law_job_done_if_succeeded(job: Job<Seq<char>>, outcome: OutcomeView)
    ensures
        succeeded(outcome) <==> job.listed(outcome) is Ok,
        succeeded(outcome) <==> job.extracted(outcome) is Ok,
        succeeded(outcome) <==> (outcome matches Ok(output) && output.success),
{
}

/// All the files that a listing was written for are listed, for either kind of archive, however many they
/// are.
pub proof fn law_job_lists_all_names(
    job: Job<Seq<char>>,
    output: ToolOutput<Seq<u8>>,
    names: Seq<Seq<char>>,
)
    requires
        output.success,
        lossy_text(output.stdout) == sevenz_listing(names),
        forall|i: int| 0 <= i < names.len() ==> is_entry(#[trigger] names[i]) && names[i].last()
            != '/',
    ensures
        job.listed(Ok(output)) == Listed::Ok(names),
{
    law_sevenz_listing_is_read_back(names);
}

/// The program that lists and extracts is the one that the adapter for 7z archives was made with, and `7z`
/// for RAR archives.
pub proof fn law_job_program(job: Job)
    ensures
        match job {
            Job::Sevenz(adapter) => job@ == Job::Sevenz(adapter@) && job@.sevenz_name() == adapter@,
            Job::Rar => job@ == Job::<Seq<char>>::Rar && job@.sevenz_name() == "7z"@,
        },
{
}

/// What an action stands for is all that it holds.
pub proof fn law_action_view(action: Action)
    ensures
        match action {
            Action::Run(run) => action@ matches Action::Run(view) && view == run@,
            Action::CreateTempDir => action@ is CreateTempDir,
            Action::OpenMember(entry) => action@ matches Action::OpenMember(view) && view == entry@,
            Action::SpawnMember(run) => action@ matches Action::SpawnMember(view) && view == run@,
            Action::Emit(info) => action@ matches Action::Emit(view) && view == info@,
            Action::RemoveTempDir => action@ is RemoveTempDir,
            Action::ReturnEmpty => action@ is ReturnEmpty,
            Action::Fail(error) => action@ matches Action::Fail(view) && view == error@,
            Action::End => action@ is End,
        },
{
}

/// What an event stands for is all that it holds.
pub proof fn law_event_view(event: Event)
    ensures
        match event {
            Event::Ran(outcome) => event@ matches Event::Ran(view) && view == outcome_view(outcome),
            Event::TempDir(Ok(dir)) => event@ matches Event::TempDir(Ok(view)) && view == dir@,
            Event::TempDir(Err(cause)) => event@ matches Event::TempDir(Err(view)) && view
                == cause@,
            Event::Opened(Ok(())) => event@ matches Event::Opened(Ok(())),
            Event::Opened(Err(error)) => event@ matches Event::Opened(Err(view)) && view.path
                == error.path@ && view.message == error.message@,
            Event::Spawned(Ok(())) => event@ matches Event::Spawned(Ok(())),
            Event::Spawned(Err(message)) => event@ matches Event::Spawned(Err(view)) && view
                == message@,
            Event::Resumed => event@ is Resumed,
            Event::Removed(Ok(())) => event@ matches Event::Removed(Ok(())),
            Event::Removed(Err(error)) => event@ matches Event::Removed(Err(view)) && view.path
                == error.path@ && view.message == error.message@,
        },
{
}

/// What a step stands for is all that it holds.
pub proof fn law_step_view(step: Step)
    ensures
        step@.action == step.action@,
        step@.log is Some <==> step.log is Some,
        step.log matches Some(text) ==> step@.log == Some(text@),
        step@.stderr_line is Some <==> step.stderr_line is Some,
        step.stderr_line matches Some(text) ==> step@.stderr_line == Some(text@),
{
}

} // verus!
