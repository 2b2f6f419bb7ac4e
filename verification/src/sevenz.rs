//! The adapter for 7z archives.
use crate::archive::{done_view, list_with_sevenz, listed_view, output_is_read_as_utf8, sevenz_listed};
use crate::error::{map_exe_error, spec_map_exe_error, AdaptError};
use crate::info::AdaptInfo;
use crate::listing::sevenz_entries;
use crate::meta::{archive_meta, spec_archive_meta, AdapterMeta, FastFileMatcher};
use crate::session::{begin, Job, Session, Step};
use crate::text::texts;
use crate::tool::{outcome_view, LaunchError, Outcome, OutcomeView, ToolOutput};
use vstd::prelude::*;
use vstd::utf8::{decode_utf8, valid_utf8};

verus! {

/// `String::from` on a string slice copies the text.
pub assume_specification<'a>[ <String as From<&'a str>>::from ](s: &str) -> (res: String)
    ensures
        res@ == s@,
;

/// `From::from` on a value of the very type asked for gives that value back.
pub assume_specification<V0>[ <V0 as From<V0>>::from ](v: V0) -> (res: V0)
    ensures
        res == v,
;

/// Searches 7z archives by means of the `7z` program.
pub struct SevenzAdapter {
    cmd_name: String,
}

/// An adapter is the name of the program that it uses.
impl View for SevenzAdapter {
    type V = Seq<char>;

    closed spec fn view(&self) -> Seq<char> {
        self.cmd_name@
    }
}

impl Clone for SevenzAdapter {
    fn clone(&self) -> (res: Self)
        ensures
            res@ == self@,
    {
        Self::with_cmd(self.cmd_name.clone())
    }
}

impl Default for SevenzAdapter {
    fn default() -> (res: Self)
        ensures
            res@ == "7z"@,
    {
        Self::new()
    }
}

/// How to get the program, for searching 7z archives.
pub open spec fn sevenz_help() -> Seq<char> {
    "Install p7zip or 7-zip to search 7z archives."@
}

/// What a run of the program for its help text tells: whether it is there for use.
pub open spec fn spec_check_available(cmd_name: Seq<char>, outcome: OutcomeView) -> Result<
    (),
    AdaptError<Seq<char>>,
> {
    match outcome {
        Err(error) => Err(spec_map_exe_error(error, cmd_name, sevenz_help())),
        Ok(output) if !output.success => Err(AdaptError::Unusable { cmd_name }),
        Ok(_) => Ok(()),
    }
}

/// An adapter that is made with the name of a program as a string slice has just that name.
pub proof fn law_with_cmd_keeps_slice(cmd_name: &str, adapter: SevenzAdapter)
    requires
        call_ensures(SevenzAdapter::with_cmd::<&str>, (cmd_name,), adapter),
    ensures
        adapter@ == cmd_name@,
{
}

/// An adapter that is made with the name of a program as a string has just that name.
pub proof fn law_with_cmd_keeps_string(cmd_name: String, adapter: SevenzAdapter)
    requires
        call_ensures(SevenzAdapter::with_cmd::<String>, (cmd_name,), adapter),
    ensures
        adapter@ == cmd_name@,
{
}

impl SevenzAdapter {
    pub fn new() -> (res: Self)
        ensures
            res@ == "7z"@,
    {
        Self::with_cmd("7z")
    }

    /// An adapter that uses another program in place of `7z`.
    pub fn with_cmd<T: Into<String>>(cmd_name: T) -> (res: Self)
        ensures
            exists|name: String|
                res@ == name@ && #[trigger] call_ensures(
                    <T as Into<String>>::into,
                    (cmd_name,),
                    name,
                ),
    {
        SevenzAdapter { cmd_name: cmd_name.into() }
    }

    /// The name of the program.
    pub fn cmd_name(&self) -> (res: &str)
        ensures
            res@ == self@,
    {
        self.cmd_name.as_str()
    }

    /// Whether the program is there for use, by what came of [`help`](crate::tool::help).
    pub fn check_available(&self, outcome: Outcome) -> (res: Result<(), AdaptError>)
        ensures
            done_view(res) == spec_check_available(self@, outcome_view(outcome)),
            res is Ok <==> (outcome matches Ok(output) && output.success),
            outcome matches Ok(output) ==> (!output.success ==> (
            res matches Err(AdaptError::Unusable { cmd_name }) && cmd_name@ == self@)),
            outcome matches Err(error) ==> (error.not_found ==> (
            res matches Err(AdaptError::MissingExecutable { exe_name, help }) && exe_name@ == self@
                && help@ == "Install p7zip or 7-zip to search 7z archives."@)),
            outcome matches Err(error) ==> (!error.not_found ==> (
            res matches Err(AdaptError::Launch { message }) && message@ == error.message@)),
    {
        match outcome {
            Err(error) => Err(
                map_exe_error(
                    error,
                    self.cmd_name.as_str(),
                    "Install p7zip or 7-zip to search 7z archives.",
                ),
            ),
            Ok(output) => {
                if output.success {
                    Ok(())
                } else {
                    Err(AdaptError::Unusable { cmd_name: self.cmd_name.clone() })
                }
            },
        }
    }

    /// The entries of the archive, by what came of [`sevenz_list`](crate::tool::sevenz_list).
    pub fn list_entries(&self, outcome: Outcome) -> (res: Result<Vec<String>, AdaptError>)
        ensures
            listed_view(res) == sevenz_listed(self@, sevenz_help(), outcome_view(outcome)),
            res is Ok <==> (outcome matches Ok(output) && output.success),
            outcome matches Ok(output) ==> (output.success && valid_utf8(output.stdout@) ==> (
            res matches Ok(entries) && texts(entries@) == sevenz_entries(
                decode_utf8(output.stdout@),
            ))),
            output_is_read_as_utf8(outcome_view(outcome)),
    {
        list_with_sevenz(
            self.cmd_name.as_str(),
            "Install p7zip or 7-zip to search 7z archives.",
            outcome,
        )
    }

    /// Begins a search through an archive.
    pub fn adapt(&self, info: AdaptInfo) -> (res: (Session, Step))
        ensures
            (res.0@, res.1@) == begin(Job::Sevenz(self@), info@),
            res.0@.wf(),
    {
        Session::start(Job::Sevenz(self.clone()), info)
    }

    pub fn metadata(&self) -> (res: AdapterMeta)
        ensures
            res@ == spec_archive_meta(
                "7z"@,
                "Uses the 7z command to extract and search within 7z archives"@,
                ("7z"@, "7z001"@),
            ),
            res.name@ == "7z"@,
            res.version == 1,
            res.description@ == "Uses the 7z command to extract and search within 7z archives"@,
            res.recurses,
            res.fast_matchers@.len() == 2,
            res.fast_matchers@[0] matches FastFileMatcher::FileExtension(extension) && extension@
                == "7z"@,
            res.fast_matchers@[1] matches FastFileMatcher::FileExtension(extension) && extension@
                == "7z001"@,
            res.slow_matchers is None,
            res.keep_fast_matchers_if_accurate,
            !res.disabled_by_default,
    {
        archive_meta(
            "7z",
            "Uses the 7z command to extract and search within 7z archives",
            ("7z", "7z001"),
        )
    }
}

/// The program is there for use just if it could be started and reported success when it was asked for
/// its help text, whatever it printed.
pub proof fn law_available_if_succeeded(cmd_name: Seq<char>, outcome: OutcomeView)
    ensures
        spec_check_available(cmd_name, outcome) is Ok <==> (outcome matches Ok(output)
            && output.success),
{
}

/// Two runs that report the same say the same of whether the program is there, whatever they printed.
pub proof fn law_available_whatever_is_printed(
    cmd_name: Seq<char>,
    a: ToolOutput<Seq<u8>>,
    b: ToolOutput<Seq<u8>>,
)
    requires
        a.success == b.success,
    ensures
        spec_check_available(cmd_name, Ok(a)) == spec_check_available(cmd_name, Ok(b)),
{
}

/// Why the program is not there for use is said in these words.
pub proof fn law_unavailable_messages(
    cmd_name: Seq<char>,
    output: ToolOutput<Seq<u8>>,
    error: LaunchError<Seq<char>>,
)
    ensures
        !output.success ==> spec_check_available(cmd_name, Ok(output))->Err_0.text() == cmd_name
            + " command failed. Is 7-zip/p7zip installed?"@,
        error.not_found ==> spec_check_available(cmd_name, Err(error))->Err_0.text()
            == "Could not find executable \""@ + cmd_name + "\". "@
            + "Install p7zip or 7-zip to search 7z archives."@,
        !error.not_found ==> spec_check_available(cmd_name, Err(error))->Err_0.text()
            == error.message,
{
}

} // verus!
