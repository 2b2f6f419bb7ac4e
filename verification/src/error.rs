//! Errors of the adapters.
use crate::tool::LaunchError;
use vstd::prelude::*;

verus! {

/// Why an archive could not be searched.
#[derive(Debug, PartialEq, Eq)]
pub enum AdaptError<S = String> {
    /// The program is not installed.
    MissingExecutable { exe_name: S, help: S },
    /// The program could not be started for another reason.
    Launch { message: S },
    /// The program did not even print its help text.
    Unusable { cmd_name: S },
    /// The program could not list the archive.
    ListFailed { cmd_name: S, stderr: S },
    /// The program could not extract the archive.
    ExtractFailed { cmd_name: S, stderr: S },
    /// There was no directory to extract the archive into.
    TempDir { context: S, cause: S },
}

impl View for AdaptError {
    type V = AdaptError<Seq<char>>;

    open spec fn view(&self) -> AdaptError<Seq<char>> {
        match self {
            AdaptError::MissingExecutable { exe_name, help } => AdaptError::MissingExecutable {
                exe_name: exe_name@,
                help: help@,
            },
            AdaptError::Launch { message } => AdaptError::Launch { message: message@ },
            AdaptError::Unusable { cmd_name } => AdaptError::Unusable { cmd_name: cmd_name@ },
            AdaptError::ListFailed { cmd_name, stderr } => AdaptError::ListFailed {
                cmd_name: cmd_name@,
                stderr: stderr@,
            },
            AdaptError::ExtractFailed { cmd_name, stderr } => AdaptError::ExtractFailed {
                cmd_name: cmd_name@,
                stderr: stderr@,
            },
            AdaptError::TempDir { context, cause } => AdaptError::TempDir {
                context: context@,
                cause: cause@,
            },
        }
    }
}

impl AdaptError<Seq<char>> {
    /// The message of the error.
    pub open spec fn text(self) -> Seq<char> {
        match self {
            AdaptError::MissingExecutable { exe_name, help } => "Could not find executable \""@
                + exe_name + "\". "@ + help,
            AdaptError::Launch { message } => message,
            AdaptError::Unusable { cmd_name } => cmd_name
                + " command failed. Is 7-zip/p7zip installed?"@,
            AdaptError::ListFailed { cmd_name, stderr } => cmd_name + " list failed: "@ + stderr,
            AdaptError::ExtractFailed { cmd_name, stderr } => cmd_name + " extract failed: "@
                + stderr,
            AdaptError::TempDir { context, cause } => context,
        }
    }
}

impl AdaptError {
    /// The message of the error.
    pub fn message(&self) -> (res: String)
        ensures
            res@ == self@.text(),
            match self {
                AdaptError::MissingExecutable { exe_name, help } => res@
                    == "Could not find executable \""@ + exe_name@ + "\". "@ + help@,
                AdaptError::Launch { message } => res@ == message@,
                AdaptError::Unusable { cmd_name } => res@ == cmd_name@
                    + " command failed. Is 7-zip/p7zip installed?"@,
                AdaptError::ListFailed { cmd_name, stderr } => res@ == cmd_name@
                    + " list failed: "@ + stderr@,
                AdaptError::ExtractFailed { cmd_name, stderr } => res@ == cmd_name@
                    + " extract failed: "@ + stderr@,
                AdaptError::TempDir { context, cause: _ } => res@ == context@,
            },
    {
        match self {
            AdaptError::MissingExecutable { exe_name, help } => "Could not find executable \""
                .to_owned()
                .concat(exe_name.as_str())
                .concat("\". ")
                .concat(help.as_str()),
            AdaptError::Launch { message } => message.clone(),
            AdaptError::Unusable { cmd_name } => cmd_name.clone().concat(
                " command failed. Is 7-zip/p7zip installed?",
            ),
            AdaptError::ListFailed { cmd_name, stderr } => cmd_name.clone().concat(
                " list failed: ",
            ).concat(stderr.as_str()),
            AdaptError::ExtractFailed { cmd_name, stderr } => cmd_name.clone().concat(
                " extract failed: ",
            ).concat(stderr.as_str()),
            AdaptError::TempDir { context, cause: _ } => context.clone(),
        }
    }
}

/// The error for a program that could not be started: where it is missing, one that says so and how
/// to get it.
pub open spec fn spec_map_exe_error(
    error: LaunchError<Seq<char>>,
    exe_name: Seq<char>,
    help: Seq<char>,
) -> AdaptError<Seq<char>> {
    if error.not_found {
        AdaptError::MissingExecutable { exe_name, help }
    } else {
        AdaptError::Launch { message: error.message }
    }
}

/// The error for a program that could not be started.
pub fn map_exe_error(error: LaunchError, exe_name: &str, help: &str) -> (res: AdaptError)
    ensures
        res@ == spec_map_exe_error(error@, exe_name@, help@),
        error.not_found ==> (res matches AdaptError::MissingExecutable { exe_name: name, help: how }
            && name@ == exe_name@ && how@ == help@),
        !error.not_found ==> (res matches AdaptError::Launch { message } && message@
            == error.message@),
{
    if error.not_found {
        AdaptError::MissingExecutable { exe_name: exe_name.to_owned(), help: help.to_owned() }
    } else {
        AdaptError::Launch { message: error.message }
    }
}

/// The message about a missing program names it and says how to get it.
pub proof fn law_missing_executable_message(
    error: LaunchError<Seq<char>>,
    exe_name: Seq<char>,
    help: Seq<char>,
)
    requires
        error.not_found,
    ensures
        ({
            let text = spec_map_exe_error(error, exe_name, help).text();
            &&& exists|i: int|
                0 <= i <= text.len() - exe_name.len() && #[trigger] text.subrange(
                    i,
                    i + exe_name.len(),
                ) == exe_name
            &&& help.is_suffix_of(text)
        }),
{
    let text = spec_map_exe_error(error, exe_name, help).text();
    let start = "Could not find executable \""@.len() as int;
    assert(text.subrange(start, start + exe_name.len()) == exe_name);
    assert(text.subrange(text.len() - help.len(), text.len() as int) == help);
}

/// A program that could not be started is reported as missing just if the system found none; any other
/// reason is reported in the words of the system.
pub proof fn law_launch_errors(
    error: LaunchError<Seq<char>>,
    exe_name: Seq<char>,
    help: Seq<char>,
)
    ensures
        spec_map_exe_error(error, exe_name, help) is MissingExecutable <==> error.not_found,
        spec_map_exe_error(error, exe_name, help) is Launch <==> !error.not_found,
        error.not_found ==> spec_map_exe_error(error, exe_name, help).text()
            == "Could not find executable \""@ + exe_name + "\". "@ + help,
        !error.not_found ==> spec_map_exe_error(error, exe_name, help).text() == error.message,
{
}

/// The message about a failed listing or extraction begins with the name of the program and ends with
/// its complaints, whole and unchanged, and tells the two apart.
pub proof fn law_failure_messages(cmd_name: Seq<char>, stderr: Seq<char>)
    ensures
        ({
            let list = (AdaptError::ListFailed { cmd_name, stderr }).text();
            let extract = (AdaptError::ExtractFailed { cmd_name, stderr }).text();
            let unusable = (AdaptError::Unusable { cmd_name }).text();
            &&& cmd_name.is_prefix_of(list) && stderr.is_suffix_of(list)
            &&& cmd_name.is_prefix_of(extract) && stderr.is_suffix_of(extract)
            &&& list == cmd_name + " list failed: "@ + stderr
            &&& extract == cmd_name + " extract failed: "@ + stderr
            &&& unusable == cmd_name + " command failed. Is 7-zip/p7zip installed?"@
        }),
{
    let list = (AdaptError::ListFailed { cmd_name, stderr }).text();
    let extract = (AdaptError::ExtractFailed { cmd_name, stderr }).text();
    let n = cmd_name.len() as int;
    assert(list.subrange(0, n) == cmd_name);
    assert(extract.subrange(0, n) == cmd_name);
    assert(list.subrange(list.len() - stderr.len(), list.len() as int) == stderr);
    assert(extract.subrange(extract.len() - stderr.len(), extract.len() as int) == stderr);
}

/// The lack of a directory is reported in the words for it, whatever caused it.
pub proof fn law_temp_dir_message(context: Seq<char>, cause: Seq<char>)
    ensures
        (AdaptError::TempDir { context, cause }).text() == context,
{
}

/// What an error stands for is all that it holds.
pub proof fn law_error_view(error: AdaptError)
    ensures
        match error {
            AdaptError::MissingExecutable { exe_name, help } => error@
                == (AdaptError::MissingExecutable { exe_name: exe_name@, help: help@ }),
            AdaptError::Launch { message } => error@ == (AdaptError::Launch { message: message@ }),
            AdaptError::Unusable { cmd_name } => error@ == (AdaptError::Unusable {
                cmd_name: cmd_name@,
            }),
            AdaptError::ListFailed { cmd_name, stderr } => error@ == (AdaptError::ListFailed {
                cmd_name: cmd_name@,
                stderr: stderr@,
            }),
            AdaptError::ExtractFailed { cmd_name, stderr } => error@
                == (AdaptError::ExtractFailed { cmd_name: cmd_name@, stderr: stderr@ }),
            AdaptError::TempDir { context, cause } => error@ == (AdaptError::TempDir {
                context: context@,
                cause: cause@,
            }),
        },
{
}

} // verus!
