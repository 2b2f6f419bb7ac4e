//! The adapter for RAR archives.
use crate::archive::{
    list_with_sevenz, list_with_unrar, listed_view, output_is_read_as_utf8, sevenz_listed,
    unrar_listed,
};
use crate::error::AdaptError;
use crate::info::AdaptInfo;
use crate::listing::{sevenz_entries, unrar_entries};
use crate::meta::{archive_meta, spec_archive_meta, AdapterMeta, FastFileMatcher};
use crate::session::{begin, Job, Session, Step};
use crate::text::texts;
use crate::tool::{outcome_view, succeeded, Outcome, OutcomeView};
use vstd::prelude::*;
use vstd::utf8::{decode_utf8, valid_utf8};

verus! {

/// Searches RAR archives by means of the `unrar` program, or `7z` where there is no `unrar`.
pub struct RarAdapter;

impl Clone for RarAdapter {
    fn clone(&self) -> (res: Self)
        ensures
            res == *self,
    {
        RarAdapter
    }
}

impl Default for RarAdapter {
    fn default() -> (res: Self)
        ensures
            res == RarAdapter,
    {
        RarAdapter
    }
}

/// A program that can read RAR archives.
#[derive(Debug, Clone, Copy, PartialEq, Eq, Structural)]
pub enum RarTool {
    Unrar,
    SevenZ,
}

/// What is known of the programs once one of them has been tried.
#[derive(Debug, Clone, Copy, PartialEq, Eq, Structural)]
pub enum Detection {
    /// This one is to be used.
    Found(RarTool),
    /// This one is to be tried next.
    TryNext(RarTool),
    /// There is none.
    NotFound,
}

impl RarTool {
    /// The name of the program.
    pub open spec fn spec_program(self) -> Seq<char> {
        match self {
            RarTool::Unrar => "unrar"@,
            RarTool::SevenZ => "7z"@,
        }
    }

    /// The name of the program.
    pub fn program(self) -> (res: &'static str)
        ensures
            res@ == self.spec_program(),
            self is Unrar ==> res@ == "unrar"@,
            self is SevenZ ==> res@ == "7z"@,
    {
        match self {
            RarTool::Unrar => "unrar",
            RarTool::SevenZ => "7z",
        }
    }
}

/// `unrar` is tried first, then `7z`; the first that prints its help text is used.
pub open spec fn spec_detect_rar_tool(tried: RarTool, outcome: OutcomeView) -> Detection {
    if succeeded(outcome) {
        Detection::Found(tried)
    } else {
        match tried {
            RarTool::Unrar => Detection::TryNext(RarTool::SevenZ),
            RarTool::SevenZ => Detection::NotFound,
        }
    }
}

/// What to do after a program was tried, by what came of its [`help`](crate::tool::help).
pub fn detect_rar_tool(tried: RarTool, outcome: Outcome) -> (res: Detection)
    ensures
        res == spec_detect_rar_tool(tried, outcome_view(outcome)),
        res == Detection::Found(tried) <==> (outcome matches Ok(output) && output.success),
        !(outcome matches Ok(output) && output.success) ==> match tried {
            RarTool::Unrar => res == Detection::TryNext(RarTool::SevenZ),
            RarTool::SevenZ => res == Detection::NotFound,
        },
{
    let works: bool = match outcome {
        Ok(output) => output.success,
        Err(_) => false,
    };
    if works {
        return Detection::Found(tried);
    }
    match tried {
        RarTool::Unrar => Detection::TryNext(RarTool::SevenZ),
        RarTool::SevenZ => Detection::NotFound,
    }
}

/// How to get `unrar`.
pub open spec fn unrar_help() -> Seq<char> {
    "Install unrar to search RAR archives."@
}

/// How to get `7z`, where it could not list an archive.
pub open spec fn rar_sevenz_list_help() -> Seq<char> {
    "Install 7z/p7zip to search RAR archives."@
}

/// How to get `7z`, where it could not extract an archive.
pub open spec fn rar_sevenz_extract_help() -> Seq<char> {
    "Install p7zip to search RAR archives."@
}

/// The entries of the archive, by what came of [`unrar_list`](crate::tool::unrar_list).
pub fn list_rar_entries_unrar(outcome: Outcome) -> (res: Result<Vec<String>, AdaptError>)
    ensures
        listed_view(res) == unrar_listed(unrar_help(), outcome_view(outcome)),
        res is Ok <==> (outcome matches Ok(output) && output.success),
        outcome matches Ok(output) ==> (output.success && valid_utf8(output.stdout@) ==> (
        res matches Ok(entries) && texts(entries@) == unrar_entries(decode_utf8(output.stdout@)))),
        output_is_read_as_utf8(outcome_view(outcome)),
{
    list_with_unrar("Install unrar to search RAR archives.", outcome)
}

/// The entries of the archive, by what came of [`sevenz_list`](crate::tool::sevenz_list).
pub fn list_rar_entries_7z(outcome: Outcome) -> (res: Result<Vec<String>, AdaptError>)
    ensures
        listed_view(res) == sevenz_listed("7z"@, rar_sevenz_list_help(), outcome_view(outcome)),
        res is Ok <==> (outcome matches Ok(output) && output.success),
        outcome matches Ok(output) ==> (output.success && valid_utf8(output.stdout@) ==> (
        res matches Ok(entries) && texts(entries@) == sevenz_entries(decode_utf8(output.stdout@)))),
        output_is_read_as_utf8(outcome_view(outcome)),
{
    list_with_sevenz("7z", "Install 7z/p7zip to search RAR archives.", outcome)
}

impl RarAdapter {
    pub fn new() -> (res: Self)
        ensures
            res == RarAdapter,
    {
        RarAdapter
    }

    /// Begins a search through an archive.
    pub fn adapt(&self, info: AdaptInfo) -> (res: (Session, Step))
        ensures
            (res.0@, res.1@) == begin(Job::Rar, info@),
            res.0@.wf(),
    {
        Session::start(Job::Rar, info)
    }

    pub fn metadata(&self) -> (res: AdapterMeta)
        ensures
            res@ == spec_archive_meta(
                "rar"@,
                "Uses unrar (or 7z as fallback) to extract and search within RAR archives"@,
                ("rar"@, "rar5"@),
            ),
            res.name@ == "rar"@,
            res.version == 1,
            res.description@ == "Uses unrar (or 7z as fallback) to extract and search within RAR archives"@,
            res.recurses,
            res.fast_matchers@.len() == 2,
            res.fast_matchers@[0] matches FastFileMatcher::FileExtension(extension) && extension@
                == "rar"@,
            res.fast_matchers@[1] matches FastFileMatcher::FileExtension(extension) && extension@
                == "rar5"@,
            res.slow_matchers is None,
            res.keep_fast_matchers_if_accurate,
            !res.disabled_by_default,
    {
        archive_meta(
            "rar",
            "Uses unrar (or 7z as fallback) to extract and search within RAR archives",
            ("rar", "rar5"),
        )
    }
}

/// A program for RAR archives is used just if it could be started and reported success when it was
/// tried, whatever it printed; `7z` is tried just if `unrar` did not, and none is used just if neither
/// did.
pub proof fn law_detection(tried: RarTool, outcome: OutcomeView)
    ensures
        ({
            let works = outcome matches Ok(output) && output.success;
            let detection = spec_detect_rar_tool(tried, outcome);
            &&& detection == Detection::Found(tried) <==> works
            &&& detection == Detection::TryNext(RarTool::SevenZ) <==> !works && tried is Unrar
            &&& detection == Detection::NotFound <==> !works && tried is SevenZ
        }),
        RarTool::Unrar.spec_program() == "unrar"@,
        RarTool::SevenZ.spec_program() == "7z"@,
{
}

} // verus!
