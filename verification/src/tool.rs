//! Commands to run, and what came of running them.
use vstd::prelude::*;
use vstd::utf8::{
    decode_utf8, encode_utf8, encode_utf8_decode_utf8, encode_utf8_valid_utf8, valid_utf8,
};

verus! {

/// An argument of a command.
#[derive(Debug, PartialEq, Eq)]
pub enum Arg<S = String> {
    /// The given text.
    Text(S),
    /// The path of the archive, just as it came.
    Archive,
}

impl View for Arg {
    type V = Arg<Seq<char>>;

    open spec fn view(&self) -> Arg<Seq<char>> {
        match self {
            Arg::Text(text) => Arg::Text(text@),
            Arg::Archive => Arg::Archive,
        }
    }
}

/// A program and its arguments.
#[derive(Debug, PartialEq, Eq)]
pub struct Invocation<S = String, A = Vec<Arg>> {
    pub program: S,
    pub args: A,
}

/// What an [`Invocation`] stands for.
pub type InvocationView = Invocation<Seq<char>, Seq<Arg<Seq<char>>>>;

impl View for Invocation {
    type V = InvocationView;

    open spec fn view(&self) -> InvocationView {
        Invocation { program: self.program@, args: self.args@.map_values(|arg: Arg| arg@) }
    }
}

/// Why a program could not be started.
#[derive(Debug, PartialEq, Eq)]
pub struct LaunchError<S = String> {
    /// Whether the reason is that there is no such program.
    pub not_found: bool,
    /// The reason as the system words it.
    pub message: S,
}

impl View for LaunchError {
    type V = LaunchError<Seq<char>>;

    open spec fn view(&self) -> LaunchError<Seq<char>> {
        LaunchError { not_found: self.not_found, message: self.message@ }
    }
}

/// What a program that ran to its end left behind.
#[derive(Debug, PartialEq, Eq)]
pub struct ToolOutput<B = Vec<u8>> {
    /// Whether it reported success.
    pub success: bool,
    pub stdout: B,
    pub stderr: B,
}

impl View for ToolOutput {
    type V = ToolOutput<Seq<u8>>;

    open spec fn view(&self) -> ToolOutput<Seq<u8>> {
        ToolOutput { success: self.success, stdout: self.stdout@, stderr: self.stderr@ }
    }
}

/// What came of running a program.
pub type Outcome = Result<ToolOutput, LaunchError>;

/// What an [`Outcome`] stands for.
pub type OutcomeView = Result<ToolOutput<Seq<u8>>, LaunchError<Seq<char>>>;

/// What an [`Outcome`] stands for, part by part.
pub open spec fn outcome_view(outcome: Outcome) -> OutcomeView {
    match outcome {
        Ok(output) => Ok(output@),
        Err(error) => Err(error@),
    }
}

/// Whether a program could be started and reported success.
pub open spec fn succeeded(outcome: OutcomeView) -> bool {
    outcome matches Ok(output) && output.success
}

/// Asks a program for its help text, to see whether it is there.
pub open spec fn spec_help(program: Seq<char>) -> InvocationView {
    Invocation { program, args: seq![Arg::Text("--help"@)] }
}

/// Has `7z` list the archive, a block of lines for each entry.
pub open spec fn spec_sevenz_list(program: Seq<char>) -> InvocationView {
    Invocation {
        program,
        args: seq![Arg::Text("l"@), Arg::Text("-slt"@), Arg::Text("-ba"@), Arg::Archive],
    }
}

/// Has `7z` extract the archive into a directory.
pub open spec fn spec_sevenz_extract(program: Seq<char>, dir: Seq<char>) -> InvocationView {
    Invocation {
        program,
        args: seq![Arg::Text("x"@), Arg::Text("-y"@), Arg::Text("-o"@ + dir), Arg::Archive],
    }
}

/// Has `unrar` list the archive.
pub open spec fn spec_unrar_list() -> InvocationView {
    Invocation {
        program: "unrar"@,
        args: seq![Arg::Text("l"@), Arg::Text("-inul"@), Arg::Archive],
    }
}

/// Has `unrar` print the content of an entry.
pub open spec fn spec_unrar_print(entry: Seq<char>) -> InvocationView {
    Invocation {
        program: "unrar"@,
        args: seq![Arg::Text("p"@), Arg::Text("-inul"@), Arg::Archive, Arg::Text(entry)],
    }
}

/// Asks a program for its help text.
pub fn help(program: &str) -> (res: Invocation)
    ensures
        res@ == spec_help(program@),
        res.program@ == program@,
        res.args@.len() == 1,
        res.args@[0] matches Arg::Text(text) && text@ == "--help"@,
{
    let res = Invocation { program: program.to_owned(), args: vec![text_arg("--help")] };
    assert(res@.args == spec_help(program@).args);
    res
}

/// Has `7z`, under the given name, list the archive.
pub fn sevenz_list(program: &str) -> (res: Invocation)
    ensures
        res@ == spec_sevenz_list(program@),
        res.program@ == program@,
        res.args@.len() == 4,
        res.args@[0] matches Arg::Text(text) && text@ == "l"@,
        res.args@[1] matches Arg::Text(text) && text@ == "-slt"@,
        res.args@[2] matches Arg::Text(text) && text@ == "-ba"@,
        res.args@[3] is Archive,
{
    let res = Invocation {
        program: program.to_owned(),
        args: vec![text_arg("l"), text_arg("-slt"), text_arg("-ba"), Arg::Archive],
    };
    assert(res@.args == spec_sevenz_list(program@).args);
    res
}

/// Has `7z`, under the given name, extract the archive into a directory.
pub fn sevenz_extract(program: &str, dir: &str) -> (res: Invocation)
    ensures
        res@ == spec_sevenz_extract(program@, dir@),
        res.program@ == program@,
        res.args@.len() == 4,
        res.args@[0] matches Arg::Text(text) && text@ == "x"@,
        res.args@[1] matches Arg::Text(text) && text@ == "-y"@,
        res.args@[2] matches Arg::Text(text) && text@ == "-o"@ + dir@,
        res.args@[3] is Archive,
{
    let out: String = "-o".to_owned().concat(dir);
    let res = Invocation {
        program: program.to_owned(),
        args: vec![text_arg("x"), text_arg("-y"), Arg::Text(out), Arg::Archive],
    };
    assert(res@.args == spec_sevenz_extract(program@, dir@).args);
    res
}

/// Has `unrar` list the archive.
pub fn unrar_list() -> (res: Invocation)
    ensures
        res@ == spec_unrar_list(),
        res.program@ == "unrar"@,
        res.args@.len() == 3,
        res.args@[0] matches Arg::Text(text) && text@ == "l"@,
        res.args@[1] matches Arg::Text(text) && text@ == "-inul"@,
        res.args@[2] is Archive,
{
    let res = Invocation {
        program: "unrar".to_owned(),
        args: vec![text_arg("l"), text_arg("-inul"), Arg::Archive],
    };
    assert(res@.args == spec_unrar_list().args);
    res
}

/// Has `unrar` print the content of an entry.
pub fn unrar_print(entry: &str) -> (res: Invocation)
    ensures
        res@ == spec_unrar_print(entry@),
        res.program@ == "unrar"@,
        res.args@.len() == 4,
        res.args@[0] matches Arg::Text(text) && text@ == "p"@,
        res.args@[1] matches Arg::Text(text) && text@ == "-inul"@,
        res.args@[2] is Archive,
        res.args@[3] matches Arg::Text(text) && text@ == entry@,
{
    let res = Invocation {
        program: "unrar".to_owned(),
        args: vec![text_arg("p"), text_arg("-inul"), Arg::Archive, text_arg(entry)],
    };
    assert(res@.args == spec_unrar_print(entry@).args);
    res
}

fn text_arg(text: &str) -> (res: Arg)
    ensures
        res@ == Arg::Text(text@),
{
    Arg::Text(text.to_owned())
}

/// What `String::from_utf8_lossy` makes of these bytes.
pub uninterp spec fn lossy_text(bytes: Seq<u8>) -> Seq<char>;

/// Bytes that are UTF-8 throughout are read as such.
pub open spec fn is_read_as_utf8(bytes: Seq<u8>) -> bool {
    valid_utf8(bytes) ==> lossy_text(bytes) == decode_utf8(bytes)
}

/// `String::from_utf8_lossy` reads bytes as UTF-8, with replacement characters in place of what is
/// none. Its result depends on the bytes alone, and bytes that are UTF-8 throughout are decoded as
/// they stand.
#[verifier::external_body]
pub(crate) fn decode_lossy(bytes: &[u8]) -> (res: String)
    ensures
        res@ == lossy_text(bytes@),
        valid_utf8(bytes@) ==> res@ == decode_utf8(bytes@),
{
    String::from_utf8_lossy(bytes).into_owned()
}

/// To see whether a program is there, it is run with `--help` as its one argument.
pub proof fn law_help(program: Seq<char>)
    ensures
        spec_help(program).program == program,
        spec_help(program).args.len() == 1,
        spec_help(program).args[0] == Arg::Text("--help"@),
{
}

/// `7z`, under whatever name, lists the archive with four arguments, the last of them the archive.
pub proof fn law_sevenz_list(program: Seq<char>)
    ensures
        spec_sevenz_list(program).program == program,
        spec_sevenz_list(program).args.len() == 4,
        spec_sevenz_list(program).args[0] == Arg::Text("l"@),
        spec_sevenz_list(program).args[1] == Arg::Text("-slt"@),
        spec_sevenz_list(program).args[2] == Arg::Text("-ba"@),
        spec_sevenz_list(program).args[3] == Arg::<Seq<char>>::Archive,
{
}

/// `7z`, under whatever name, extracts the archive into the directory that it is given the whole path
/// of, asking nothing; different directories make different runs.
pub proof fn law_sevenz_extract(program: Seq<char>, dir: Seq<char>, other: Seq<char>)
    ensures
        spec_sevenz_extract(program, dir).program == program,
        spec_sevenz_extract(program, dir).args.len() == 4,
        spec_sevenz_extract(program, dir).args[0] == Arg::Text("x"@),
        spec_sevenz_extract(program, dir).args[1] == Arg::Text("-y"@),
        spec_sevenz_extract(program, dir).args[2] == Arg::Text("-o"@ + dir),
        spec_sevenz_extract(program, dir).args[3] == Arg::<Seq<char>>::Archive,
        dir != other ==> spec_sevenz_extract(program, dir) != spec_sevenz_extract(program, other),
{
    if dir != other && spec_sevenz_extract(program, dir) == spec_sevenz_extract(program, other) {
        let a = "-o"@ + dir;
        let b = "-o"@ + other;
        assert(spec_sevenz_extract(program, dir).args[2] == Arg::Text(a));
        assert(spec_sevenz_extract(program, other).args[2] == Arg::Text(b));
        assert(a == b);
        assert(a.skip("-o"@.len() as int) == dir);
        assert(b.skip("-o"@.len() as int) == other);
    }
}

/// `unrar` lists the archive with three arguments, the last of them the archive.
pub proof fn law_unrar_list()
    ensures
        spec_unrar_list().program == "unrar"@,
        spec_unrar_list().args.len() == 3,
        spec_unrar_list().args[0] == Arg::Text("l"@),
        spec_unrar_list().args[1] == Arg::Text("-inul"@),
        spec_unrar_list().args[2] == Arg::<Seq<char>>::Archive,
{
}

/// `unrar` prints an entry that it is given the whole name of, unchanged, behind the archive; different
/// entries make different runs.
pub proof fn law_unrar_print(entry: Seq<char>, other: Seq<char>)
    ensures
        spec_unrar_print(entry).program == "unrar"@,
        spec_unrar_print(entry).args.len() == 4,
        spec_unrar_print(entry).args[0] == Arg::Text("p"@),
        spec_unrar_print(entry).args[1] == Arg::Text("-inul"@),
        spec_unrar_print(entry).args[2] == Arg::<Seq<char>>::Archive,
        spec_unrar_print(entry).args[3] == Arg::Text(entry),
        entry != other ==> spec_unrar_print(entry) != spec_unrar_print(other),
{
    assert(spec_unrar_print(entry).args[3] == Arg::Text(entry));
    assert(spec_unrar_print(other).args[3] == Arg::Text(other));
}

/// A program succeeded just if it could be started and reported success, whatever it printed.
pub proof fn law_succeeded(outcome: Outcome)
    ensures
        succeeded(outcome_view(outcome)) <==> (outcome matches Ok(output) && output.success),
{
}

/// What an outcome stands for is all that it holds.
pub proof fn law_outcome_view(outcome: Outcome)
    ensures
        match outcome {
            Ok(output) => outcome_view(outcome) matches Ok(view) && view.success == output.success
                && view.stdout == output.stdout@ && view.stderr == output.stderr@,
            Err(error) => outcome_view(outcome) matches Err(view) && view.not_found
                == error.not_found && view.message == error.message@,
        },
{
}

/// What an invocation stands for is its program and all its arguments, in their order.
pub proof fn law_invocation_view(invocation: Invocation)
    ensures
        invocation@.program == invocation.program@,
        invocation@.args.len() == invocation.args@.len(),
        forall|i: int|
            0 <= i < invocation.args@.len() ==> match invocation.args@[i] {
                Arg::Text(text) => #[trigger] invocation@.args[i] == Arg::Text(text@),
                Arg::Archive => invocation@.args[i] == Arg::<Seq<char>>::Archive,
            },
{
}

/// Bytes that are UTF-8 throughout are read as the text that they encode.
pub proof fn law_read_as_utf8(text: Seq<char>)
    requires
        is_read_as_utf8(encode_utf8(text)),
    ensures
        lossy_text(encode_utf8(text)) == text,
{
    encode_utf8_valid_utf8(text);
    encode_utf8_decode_utf8(text);
}

} // verus!
