//! What a run of `7z` or `unrar` on an archive tells.
use crate::error::{map_exe_error, spec_map_exe_error, AdaptError};
use crate::listing::{
    is_entry, law_sevenz_listing_is_read_back, law_sevenz_listings_join,
    law_unrar_listing_is_read_back, parse_sevenz_listing, parse_unrar_listing, sevenz_entries,
    sevenz_listing, unrar_entries, unrar_listing,
};
use crate::text::{is_white_space, texts, trimmed};
use crate::tool::{
    decode_lossy, is_read_as_utf8, lossy_text, outcome_view, LaunchError, Outcome, OutcomeView,
    ToolOutput,
};
use vstd::prelude::*;
use vstd::utf8::{decode_utf8, valid_utf8};

verus! {

/// The entries of an archive, or why there are none to be had.
pub type Listed = Result<Seq<Seq<char>>, AdaptError<Seq<char>>>;

/// What the result of a listing stands for.
pub open spec fn listed_view(listed: Result<Vec<String>, AdaptError>) -> Listed {
    match listed {
        Ok(entries) => Ok(texts(entries@)),
        Err(error) => Err(error@),
    }
}

/// What the result of a step without a value stands for.
pub open spec fn done_view(done: Result<(), AdaptError>) -> Result<(), AdaptError<Seq<char>>> {
    match done {
        Ok(()) => Ok(()),
        Err(error) => Err(error@),
    }
}

/// What is read of a program's output, that is what it printed where it succeeded and its complaints
/// where it did not, is read as UTF-8 if it is that.
pub open spec fn output_is_read_as_utf8(outcome: OutcomeView) -> bool {
    outcome matches Ok(output) ==> if output.success {
        is_read_as_utf8(output.stdout)
    } else {
        is_read_as_utf8(output.stderr)
    }
}

/// What a run of [`spec_sevenz_list`](crate::tool::spec_sevenz_list) tells.
pub open spec fn sevenz_listed(
    cmd_name: Seq<char>,
    help: Seq<char>,
    outcome: OutcomeView,
) -> Listed {
    match outcome {
        Err(error) => Err(spec_map_exe_error(error, cmd_name, help)),
        Ok(output) if !output.success => Err(
            AdaptError::ListFailed { cmd_name, stderr: lossy_text(output.stderr) },
        ),
        Ok(output) => Ok(sevenz_entries(lossy_text(output.stdout))),
    }
}

/// What a run of [`spec_unrar_list`](crate::tool::spec_unrar_list) tells.
pub open spec fn unrar_listed(help: Seq<char>, outcome: OutcomeView) -> Listed {
    match outcome {
        Err(error) => Err(spec_map_exe_error(error, "unrar"@, help)),
        Ok(output) if !output.success => Err(
            AdaptError::ListFailed { cmd_name: "unrar"@, stderr: lossy_text(output.stderr) },
        ),
        Ok(output) => Ok(unrar_entries(lossy_text(output.stdout))),
    }
}

/// What a run of [`spec_sevenz_extract`](crate::tool::spec_sevenz_extract) tells.
pub open spec fn sevenz_extracted(
    cmd_name: Seq<char>,
    help: Seq<char>,
    outcome: OutcomeView,
) -> Result<(), AdaptError<Seq<char>>> {
    match outcome {
        Err(error) => Err(spec_map_exe_error(error, cmd_name, help)),
        Ok(output) if !output.success => Err(
            AdaptError::ExtractFailed { cmd_name, stderr: lossy_text(output.stderr) },
        ),
        Ok(_) => Ok(()),
    }
}

/// The entries that a run of `7z l` found.
pub fn list_with_sevenz(cmd_name: &str, help: &str, outcome: Outcome) -> (res: Result<
    Vec<String>,
    AdaptError,
>)
    ensures
        listed_view(res) == sevenz_listed(cmd_name@, help@, outcome_view(outcome)),
        res is Ok <==> (outcome matches Ok(output) && output.success),
        outcome matches Ok(output) ==> (output.success && valid_utf8(output.stdout@) ==> (
        res matches Ok(entries) && texts(entries@) == sevenz_entries(decode_utf8(output.stdout@)))),
        output_is_read_as_utf8(outcome_view(outcome)),
{
    match outcome {
        Err(error) => Err(map_exe_error(error, cmd_name, help)),
        Ok(output) => {
            if !output.success {
                let stderr: String = decode_lossy(output.stderr.as_slice());
                return Err(AdaptError::ListFailed { cmd_name: cmd_name.to_owned(), stderr });
            }
            let listing: String = decode_lossy(output.stdout.as_slice());
            Ok(parse_sevenz_listing(listing.as_str()))
        },
    }
}

/// The entries that a run of `unrar l` found.
pub fn list_with_unrar(help: &str, outcome: Outcome) -> (res: Result<Vec<String>, AdaptError>)
    ensures
        listed_view(res) == unrar_listed(help@, outcome_view(outcome)),
        res is Ok <==> (outcome matches Ok(output) && output.success),
        outcome matches Ok(output) ==> (output.success && valid_utf8(output.stdout@) ==> (
        res matches Ok(entries) && texts(entries@) == unrar_entries(decode_utf8(output.stdout@)))),
        output_is_read_as_utf8(outcome_view(outcome)),
{
    match outcome {
        Err(error) => Err(map_exe_error(error, "unrar", help)),
        Ok(output) => {
            if !output.success {
                let stderr: String = decode_lossy(output.stderr.as_slice());
                return Err(AdaptError::ListFailed { cmd_name: "unrar".to_owned(), stderr });
            }
            let listing: String = decode_lossy(output.stdout.as_slice());
            Ok(parse_unrar_listing(listing.as_str()))
        },
    }
}

/// Whether a run of `7z x` extracted the archive.
pub fn extract_with_sevenz(cmd_name: &str, help: &str, outcome: Outcome) -> (res: Result<
    (),
    AdaptError,
>)
    ensures
        done_view(res) == sevenz_extracted(cmd_name@, help@, outcome_view(outcome)),
        res is Ok <==> (outcome matches Ok(output) && output.success),
        outcome matches Ok(output) ==> (!output.success ==> is_read_as_utf8(output.stderr@)),
{
    match outcome {
        Err(error) => Err(map_exe_error(error, cmd_name, help)),
        Ok(output) => {
            if !output.success {
                let stderr: String = decode_lossy(output.stderr.as_slice());
                return Err(AdaptError::ExtractFailed { cmd_name: cmd_name.to_owned(), stderr });
            }
            Ok(())
        },
    }
}

/// An archive counts as listed, or as extracted, just if the program could be started and reported
/// success, whatever it printed.
pub proof fn law_done_if_succeeded(cmd_name: Seq<char>, help: Seq<char>, outcome: OutcomeView)
    ensures
        ({
            let works = outcome matches Ok(output) && output.success;
            &&& sevenz_listed(cmd_name, help, outcome) is Ok <==> works
            &&& unrar_listed(help, outcome) is Ok <==> works
            &&& sevenz_extracted(cmd_name, help, outcome) is Ok <==> works
        }),
{
}

/// What a successful run printed makes no difference to whether the archive is extracted, and what it
/// complained about makes none to the entries listed.
pub proof fn law_only_standard_output_is_read(
    cmd_name: Seq<char>,
    help: Seq<char>,
    a: ToolOutput<Seq<u8>>,
    b: ToolOutput<Seq<u8>>,
)
    requires
        a.success,
        b.success,
    ensures
        sevenz_extracted(cmd_name, help, Ok(a)) == sevenz_extracted(cmd_name, help, Ok(b)),
        lossy_text(a.stdout) == lossy_text(b.stdout) ==> sevenz_listed(cmd_name, help, Ok(a))
            == sevenz_listed(cmd_name, help, Ok(b)),
        lossy_text(a.stdout) == lossy_text(b.stdout) ==> unrar_listed(help, Ok(a)) == unrar_listed(
            help,
            Ok(b),
        ),
{
}

/// All the files that a listing was written for are listed, however many they are.
pub proof fn law_all_names_are_listed(
    cmd_name: Seq<char>,
    help: Seq<char>,
    output: ToolOutput<Seq<u8>>,
    names: Seq<Seq<char>>,
)
    requires
        output.success,
        lossy_text(output.stdout) == sevenz_listing(names),
        forall|i: int| 0 <= i < names.len() ==> is_entry(#[trigger] names[i]) && names[i].last()
            != '/',
    ensures
        sevenz_listed(cmd_name, help, Ok(output)) == Listed::Ok(names),
{
    law_sevenz_listing_is_read_back(names);
}

/// What a program lists in two goes it lists in one, whatever it printed.
pub proof fn law_listed_in_parts(
    cmd_name: Seq<char>,
    help: Seq<char>,
    a: ToolOutput<Seq<u8>>,
    b: ToolOutput<Seq<u8>>,
    whole: ToolOutput<Seq<u8>>,
)
    requires
        a.success && b.success && whole.success,
        lossy_text(whole.stdout) == lossy_text(a.stdout).push('\n') + lossy_text(b.stdout),
    ensures
        sevenz_listed(cmd_name, help, Ok(whole)) == Listed::Ok(
            sevenz_listed(cmd_name, help, Ok(a))->Ok_0 + sevenz_listed(cmd_name, help, Ok(b))->Ok_0,
        ),
{
    law_sevenz_listings_join(lossy_text(a.stdout), lossy_text(b.stdout));
}

/// What is listed is what the standard output names.
pub proof fn law_listed_from_standard_output(
    cmd_name: Seq<char>,
    help: Seq<char>,
    output: ToolOutput<Seq<u8>>,
)
    requires
        output.success,
    ensures
        sevenz_listed(cmd_name, help, Ok(output)) == Listed::Ok(
            sevenz_entries(lossy_text(output.stdout)),
        ),
        unrar_listed(help, Ok(output)) == Listed::Ok(unrar_entries(lossy_text(output.stdout))),
{
}

/// Why an archive could not be listed or extracted is said in these words: by the program, if it ran,
/// and else by the system or by how to get the program.
pub proof fn law_failures_are_told(
    cmd_name: Seq<char>,
    help: Seq<char>,
    output: ToolOutput<Seq<u8>>,
    error: LaunchError<Seq<char>>,
)
    ensures
        !output.success ==> {
            let stderr = lossy_text(output.stderr);
            &&& sevenz_listed(cmd_name, help, Ok(output))->Err_0.text() == cmd_name
                + " list failed: "@ + stderr
            &&& unrar_listed(help, Ok(output))->Err_0.text() == "unrar"@ + " list failed: "@ + stderr
            &&& sevenz_extracted(cmd_name, help, Ok(output))->Err_0.text() == cmd_name
                + " extract failed: "@ + stderr
        },
        error.not_found ==> {
            let text = "Could not find executable \""@ + cmd_name + "\". "@ + help;
            &&& sevenz_listed(cmd_name, help, Err(error))->Err_0.text() == text
            &&& sevenz_extracted(cmd_name, help, Err(error))->Err_0.text() == text
            &&& unrar_listed(help, Err(error))->Err_0.text() == "Could not find executable \""@
                + "unrar"@ + "\". "@ + help
        },
        !error.not_found ==> {
            &&& sevenz_listed(cmd_name, help, Err(error))->Err_0.text() == error.message
            &&& sevenz_extracted(cmd_name, help, Err(error))->Err_0.text() == error.message
            &&& unrar_listed(help, Err(error))->Err_0.text() == error.message
        },
{
}

/// What a result stands for is all that it holds.
pub proof fn law_result_views(listed: Result<Vec<String>, AdaptError>, done: Result<(), AdaptError>)
    ensures
        match listed {
            Ok(entries) => listed_view(listed) matches Ok(view) && view.len() == entries@.len()
                && forall|i: int| 0 <= i < entries@.len() ==> #[trigger] view[i] == entries@[i]@,
            Err(error) => listed_view(listed) == Listed::Err(error@),
        },
        match done {
            Ok(()) => done_view(done) is Ok,
            Err(error) => done_view(done) == Result::<(), AdaptError<Seq<char>>>::Err(error@),
        },
{
}

/// All the files that a listing of `unrar` was written for are listed, however many they are.
pub proof fn law_all_names_are_listed_by_unrar(
    help: Seq<char>,
    output: ToolOutput<Seq<u8>>,
    columns: (Seq<char>, Seq<char>, Seq<char>, Seq<char>),
    names: Seq<Seq<char>>,
)
    requires
        output.success,
        lossy_text(output.stdout) == unrar_listing(
            columns.0,
            columns.1,
            columns.2,
            columns.3,
            names,
        ),
        columns.0.len() > 0 && !is_white_space(columns.0[0]) && columns.0[0] != '-',
        !columns.0.contains(' ') && !columns.0.contains('\n'),
        !columns.1.contains(' ') && !columns.1.contains('\n'),
        !columns.2.contains(' ') && !columns.2.contains('\n'),
        !columns.3.contains(' ') && !columns.3.contains('\n'),
        forall|i: int| 0 <= i < names.len() ==> is_entry(#[trigger] names[i]),
    ensures
        unrar_listed(help, Ok(output)) == Listed::Ok(names),
{
    reveal_strlit("-----------");
    let none = Seq::<char>::empty();
    assert(trimmed(none) == none);
    law_unrar_listing_is_read_back(columns.0, columns.1, columns.2, columns.3, names, none);
}

} // verus!
