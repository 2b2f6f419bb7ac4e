use rga_adapters::error::{map_exe_error, AdaptError};
use rga_adapters::info::AdaptInfo;
use rga_adapters::meta::FastFileMatcher;
use rga_adapters::rar::{
    detect_rar_tool, list_rar_entries_7z, list_rar_entries_unrar, Detection, RarAdapter, RarTool,
};
use rga_adapters::session::{Action, Event, PathError, Session, Step};
use rga_adapters::sevenz::SevenzAdapter;
use rga_adapters::tool::{Arg, Invocation, LaunchError, Outcome, ToolOutput};

fn archive(path: &str, is_real_file: bool) -> AdaptInfo {
    AdaptInfo {
        filepath_hint: path.to_owned(),
        is_real_file,
        line_prefix: "PREFIX:".to_owned(),
        archive_recursion_depth: 3,
        postprocess: true,
    }
}

fn member(entry: &str) -> AdaptInfo {
    AdaptInfo {
        filepath_hint: entry.to_owned(),
        is_real_file: false,
        line_prefix: format!("PREFIX:{}: ", entry),
        archive_recursion_depth: 4,
        postprocess: true,
    }
}

fn invocation(program: &str, args: &[&str]) -> Invocation {
    let args = args
        .iter()
        .map(|arg| if *arg == "ARCHIVE" { Arg::Archive } else { Arg::Text(arg.to_string()) })
        .collect();
    Invocation { program: program.to_owned(), args }
}

fn ok(stdout: &str) -> Outcome {
    Ok(ToolOutput { success: true, stdout: stdout.as_bytes().to_vec(), stderr: Vec::new() })
}

fn failed(stderr: &[u8]) -> Outcome {
    Ok(ToolOutput { success: false, stdout: b"Path = x\n".to_vec(), stderr: stderr.to_vec() })
}

fn missing() -> Outcome {
    Err(LaunchError { not_found: true, message: "No such file or directory".to_owned() })
}

fn denied() -> Outcome {
    Err(LaunchError { not_found: false, message: "Permission denied".to_owned() })
}

fn quiet(action: Action) -> Step {
    Step { action, log: None, stderr_line: None }
}

/// Answers one action after the other; the steps that follow upon them.
fn play(start: (Session, Step), events: Vec<Event>) -> Vec<Step> {
    let (mut session, first) = start;
    let mut steps = vec![first];
    for event in events {
        assert!(session.accepts(&event));
        let (next, step) = session.step(event);
        session = next;
        steps.push(step);
    }
    steps
}

fn emitted(steps: &[Step]) -> Vec<&AdaptInfo> {
    steps
        .iter()
        .filter_map(|step| match &step.action {
            Action::Emit(info) => Some(info),
            _ => None,
        })
        .collect()
}

#[test]
fn adapters_are_made() {
    assert_eq!(SevenzAdapter::new().cmd_name(), "7z");
    assert_eq!(SevenzAdapter::default().cmd_name(), "7z");
    assert_eq!(SevenzAdapter::with_cmd("7zz").cmd_name(), "7zz");
    assert_eq!(SevenzAdapter::with_cmd("7za".to_owned()).clone().cmd_name(), "7za");
    let _ = (RarAdapter::new().clone(), RarAdapter::default());
}

#[test]
fn adapters_describe_themselves() {
    let meta = SevenzAdapter::with_cmd("other").metadata();
    assert_eq!(meta.name, "7z");
    assert_eq!(meta.version, 1);
    assert_eq!(
        meta.description,
        "Uses the 7z command to extract and search within 7z archives"
    );
    assert!(meta.recurses);
    assert_eq!(
        meta.fast_matchers,
        vec![
            FastFileMatcher::FileExtension("7z".to_owned()),
            FastFileMatcher::FileExtension("7z001".to_owned()),
        ]
    );
    assert!(meta.slow_matchers.is_none());
    assert!(meta.keep_fast_matchers_if_accurate);
    assert!(!meta.disabled_by_default);

    let meta = RarAdapter::new().metadata();
    assert_eq!(meta.name, "rar");
    assert_eq!(
        meta.description,
        "Uses unrar (or 7z as fallback) to extract and search within RAR archives"
    );
    assert_eq!(
        meta.fast_matchers,
        vec![
            FastFileMatcher::FileExtension("rar".to_owned()),
            FastFileMatcher::FileExtension("rar5".to_owned()),
        ]
    );
}

#[test]
fn test_7z_not_real_file_skips() {
    let steps = play(SevenzAdapter::new().adapt(archive("test.7z", false)), vec![]);
    let text = "7z adapter: skipping test.7z because it is not a real file on disk";
    assert_eq!(
        steps,
        vec![Step {
            action: Action::ReturnEmpty,
            log: Some(text.to_owned()),
            stderr_line: Some(format!("rga warning: {}", text)),
        }]
    );
}

#[test]
fn test_rar_not_real_file() {
    let steps = play(RarAdapter::new().adapt(archive("test.rar", false)), vec![]);
    let text = "rar adapter: skipping test.rar because it is not a real file on disk";
    assert_eq!(
        steps,
        vec![Step {
            action: Action::ReturnEmpty,
            log: Some(text.to_owned()),
            stderr_line: None,
        }]
    );
}

#[test]
fn test_7z_missing_cmd_returns_empty_with_warning() {
    let adapter = SevenzAdapter::with_cmd("nonexistent_7z_cmd_xyz_12345");

    let check_result = adapter.check_available(missing());
    assert!(check_result.is_err());
    let err_msg = check_result.unwrap_err().message();
    assert!(
        err_msg.contains("nonexistent_7z_cmd_xyz_12345"),
        "error should mention the missing command name, got: {}",
        err_msg
    );
    assert!(
        err_msg.contains("p7zip") || err_msg.contains("7-zip") || err_msg.contains("7zip"),
        "error should hint at installing 7z/p7zip, got: {}",
        err_msg
    );

    let steps = play(adapter.adapt(archive("test.7z", true)), vec![Event::Ran(missing())]);
    assert_eq!(
        steps[0],
        quiet(Action::Run(invocation("nonexistent_7z_cmd_xyz_12345", &["--help"])))
    );
    assert_eq!(
        steps[1].action,
        Action::ReturnEmpty,
        "with missing command, adapt() must return empty stream"
    );
    assert_eq!(steps[1].log, Some(format!("7z adapter disabled: {}", err_msg)));
    assert_eq!(
        steps[1].stderr_line,
        Some(format!("rga warning: 7z adapter disabled: {}", err_msg))
    );
}

#[test]
fn unusable_7z_is_reported() {
    let adapter = SevenzAdapter::with_cmd("7zz");
    assert_eq!(adapter.check_available(ok("")), Ok(()));
    let error = adapter.check_available(failed(b"")).unwrap_err();
    assert_eq!(error, AdaptError::Unusable { cmd_name: "7zz".to_owned() });
    assert_eq!(error.message(), "7zz command failed. Is 7-zip/p7zip installed?");
    assert_eq!(adapter.check_available(denied()).unwrap_err().message(), "Permission denied");
}

#[test]
fn launch_errors_are_mapped() {
    let missing = LaunchError { not_found: true, message: "os".to_owned() };
    let error = map_exe_error(missing, "tool", "Get it.");
    assert_eq!(
        error,
        AdaptError::MissingExecutable { exe_name: "tool".to_owned(), help: "Get it.".to_owned() }
    );
    assert_eq!(error.message(), "Could not find executable \"tool\". Get it.");
    let other = LaunchError { not_found: false, message: "os".to_owned() };
    assert_eq!(map_exe_error(other, "tool", "Get it."), AdaptError::Launch { message: "os".to_owned() });
}

#[test]
fn listings_are_taken_from_the_output() {
    let adapter = SevenzAdapter::with_cmd("7zz");
    assert_eq!(
        adapter.list_entries(ok("Path = \u{fc}.txt\n")),
        Ok(vec!["\u{fc}.txt".to_owned()])
    );
    let output = ToolOutput {
        success: true,
        stdout: b"Path = a\xffb\n".to_vec(),
        stderr: b"Path = c\n".to_vec(),
    };
    assert_eq!(adapter.list_entries(Ok(output)), Ok(vec!["a\u{fffd}b".to_owned()]));

    let error = adapter.list_entries(failed(b"broken \xff")).unwrap_err();
    assert_eq!(
        error,
        AdaptError::ListFailed { cmd_name: "7zz".to_owned(), stderr: "broken \u{fffd}".to_owned() }
    );
    assert_eq!(error.message(), "7zz list failed: broken \u{fffd}");
    assert_eq!(
        adapter.list_entries(missing()).unwrap_err().message(),
        "Could not find executable \"7zz\". Install p7zip or 7-zip to search 7z archives."
    );
    assert_eq!(adapter.list_entries(denied()).unwrap_err().message(), "Permission denied");
}

#[test]
fn rar_listings_are_taken_from_the_output() {
    assert_eq!(list_rar_entries_7z(ok("Path = a\n")), Ok(vec!["a".to_owned()]));
    assert_eq!(
        list_rar_entries_7z(missing()).unwrap_err().message(),
        "Could not find executable \"7z\". Install 7z/p7zip to search RAR archives."
    );
    assert_eq!(list_rar_entries_7z(failed(b"no")).unwrap_err().message(), "7z list failed: no");

    assert_eq!(
        list_rar_entries_unrar(ok("-----------\na b c d e f\n-----------\n")),
        Ok(vec!["e f".to_owned()])
    );
    assert_eq!(
        list_rar_entries_unrar(missing()).unwrap_err().message(),
        "Could not find executable \"unrar\". Install unrar to search RAR archives."
    );
    assert_eq!(
        list_rar_entries_unrar(failed(b"no")).unwrap_err().message(),
        "unrar list failed: no"
    );
}

#[test]
fn both_adapters_read_7z_listings_alike() {
    let listing = "Path = a\nPath = b/\n  Path = c d\n";
    assert_eq!(
        SevenzAdapter::new().list_entries(ok(listing)),
        list_rar_entries_7z(ok(listing))
    );
    assert_eq!(
        SevenzAdapter::new().list_entries(failed(b"bad")),
        list_rar_entries_7z(failed(b"bad"))
    );
    assert_eq!(SevenzAdapter::new().list_entries(denied()), list_rar_entries_7z(denied()));
    assert_ne!(SevenzAdapter::new().list_entries(missing()), list_rar_entries_7z(missing()));
}

#[test]
fn unrar_is_preferred() {
    assert_eq!(detect_rar_tool(RarTool::Unrar, ok("")), Detection::Found(RarTool::Unrar));
    assert_eq!(detect_rar_tool(RarTool::Unrar, missing()), Detection::TryNext(RarTool::SevenZ));
    assert_eq!(
        detect_rar_tool(RarTool::Unrar, failed(b"")),
        Detection::TryNext(RarTool::SevenZ)
    );
    assert_eq!(detect_rar_tool(RarTool::SevenZ, ok("")), Detection::Found(RarTool::SevenZ));
    assert_eq!(detect_rar_tool(RarTool::SevenZ, denied()), Detection::NotFound);
}

#[test]
fn sevenz_search_hands_out_what_opens() {
    let steps = play(
        SevenzAdapter::with_cmd("7zz").adapt(archive("test.7z", true)),
        vec![
            Event::Ran(ok("help")),
            Event::Ran(ok("Path = a\nPath = b\nPath = c\n")),
            Event::TempDir(Ok("/tmp/d".to_owned())),
            Event::Ran(ok("")),
            Event::Opened(Ok(())),
            Event::Resumed,
            Event::Opened(Err(PathError {
                path: "/tmp/d/b".to_owned(),
                message: "gone".to_owned(),
            })),
            Event::Opened(Ok(())),
            Event::Resumed,
            Event::Removed(Err(PathError {
                path: "/tmp/d".to_owned(),
                message: "busy".to_owned(),
            })),
        ],
    );
    let text = "failed to open extracted file /tmp/d/b: gone";
    assert_eq!(
        steps,
        vec![
            quiet(Action::Run(invocation("7zz", &["--help"]))),
            quiet(Action::Run(invocation("7zz", &["l", "-slt", "-ba", "ARCHIVE"]))),
            quiet(Action::CreateTempDir),
            quiet(Action::Run(invocation("7zz", &["x", "-y", "-o/tmp/d", "ARCHIVE"]))),
            quiet(Action::OpenMember("a".to_owned())),
            quiet(Action::Emit(member("a"))),
            quiet(Action::OpenMember("b".to_owned())),
            Step {
                action: Action::OpenMember("c".to_owned()),
                log: Some(text.to_owned()),
                stderr_line: Some(format!("rga warning: {}", text)),
            },
            quiet(Action::Emit(member("c"))),
            quiet(Action::RemoveTempDir),
            quiet(Action::End),
        ]
    );
}

#[test]
fn sevenz_search_of_an_empty_archive() {
    let steps = play(
        SevenzAdapter::new().adapt(archive("test.7z", true)),
        vec![Event::Ran(ok("")), Event::Ran(ok("Path = dir/\n"))],
    );
    assert_eq!(steps[2], quiet(Action::ReturnEmpty));
}

#[test]
fn sevenz_search_fails() {
    let start = || SevenzAdapter::new().adapt(archive("test.7z", true));
    let list = || Event::Ran(ok("Path = a\n"));

    let steps = play(start(), vec![Event::Ran(ok("")), Event::Ran(failed(b"bad"))]);
    assert_eq!(
        steps[2],
        quiet(Action::Fail(AdaptError::ListFailed {
            cmd_name: "7z".to_owned(),
            stderr: "bad".to_owned(),
        }))
    );

    let steps =
        play(start(), vec![Event::Ran(ok("")), list(), Event::TempDir(Err("full".to_owned()))]);
    let error = AdaptError::TempDir {
        context: "failed to create temp dir for 7z extraction".to_owned(),
        cause: "full".to_owned(),
    };
    assert_eq!(error.message(), "failed to create temp dir for 7z extraction");
    assert_eq!(steps[3], quiet(Action::Fail(error)));

    let extract = |outcome: Outcome| {
        play(
            start(),
            vec![
                Event::Ran(ok("")),
                list(),
                Event::TempDir(Ok("d".to_owned())),
                Event::Ran(outcome),
                Event::Removed(Ok(())),
            ],
        )
    };
    let error = AdaptError::ExtractFailed { cmd_name: "7z".to_owned(), stderr: "crc".to_owned() };
    assert_eq!(error.message(), "7z extract failed: crc");
    let steps = extract(failed(b"crc"));
    assert_eq!(steps[4], quiet(Action::RemoveTempDir));
    assert_eq!(steps[5], quiet(Action::Fail(error)));
    assert_eq!(
        extract(missing())[5],
        quiet(Action::Fail(AdaptError::MissingExecutable {
            exe_name: "7z".to_owned(),
            help: "Install p7zip or 7-zip to search 7z archives.".to_owned(),
        }))
    );
}

#[test]
fn rar_search_with_unrar() {
    let listing = "head\n-----------\na b c d one\na b c d two words\n-----------\n";
    let steps = play(
        RarAdapter::new().adapt(archive("test.rar", true)),
        vec![
            Event::Ran(ok("")),
            Event::Ran(ok(listing)),
            Event::Spawned(Err("too many".to_owned())),
            Event::Spawned(Ok(())),
            Event::Resumed,
        ],
    );
    assert_eq!(
        steps,
        vec![
            quiet(Action::Run(invocation("unrar", &["--help"]))),
            quiet(Action::Run(invocation("unrar", &["l", "-inul", "ARCHIVE"]))),
            quiet(Action::SpawnMember(invocation("unrar", &["p", "-inul", "ARCHIVE", "one"]))),
            Step {
                action: Action::SpawnMember(invocation(
                    "unrar",
                    &["p", "-inul", "ARCHIVE", "two words"],
                )),
                log: Some("failed to spawn unrar for one: too many".to_owned()),
                stderr_line: None,
            },
            quiet(Action::Emit(member("two words"))),
            quiet(Action::End),
        ]
    );
}

#[test]
fn rar_search_with_7z() {
    let steps = play(
        RarAdapter::new().adapt(archive("test.rar", true)),
        vec![
            Event::Ran(missing()),
            Event::Ran(ok("")),
            Event::Ran(ok("Path = a\nPath = b\n")),
            Event::TempDir(Ok("/tmp/d".to_owned())),
            Event::Ran(ok("")),
            Event::Opened(Ok(())),
            Event::Resumed,
            Event::Opened(Err(PathError {
                path: "/tmp/d/b".to_owned(),
                message: "gone".to_owned(),
            })),
            Event::Removed(Err(PathError {
                path: "/tmp/d".to_owned(),
                message: "busy".to_owned(),
            })),
        ],
    );
    assert_eq!(
        steps,
        vec![
            quiet(Action::Run(invocation("unrar", &["--help"]))),
            quiet(Action::Run(invocation("7z", &["--help"]))),
            quiet(Action::Run(invocation("7z", &["l", "-slt", "-ba", "ARCHIVE"]))),
            quiet(Action::CreateTempDir),
            quiet(Action::Run(invocation("7z", &["x", "-y", "-o/tmp/d", "ARCHIVE"]))),
            quiet(Action::OpenMember("a".to_owned())),
            quiet(Action::Emit(member("a"))),
            quiet(Action::OpenMember("b".to_owned())),
            Step {
                action: Action::RemoveTempDir,
                log: Some("failed to open extracted file /tmp/d/b: gone".to_owned()),
                stderr_line: None,
            },
            Step {
                action: Action::End,
                log: Some("failed to clean up temp dir /tmp/d: busy".to_owned()),
                stderr_line: None,
            },
        ]
    );
    assert_eq!(emitted(&steps), vec![&member("a")]);
}

#[test]
fn rar_search_without_a_program() {
    let steps = play(
        RarAdapter::new().adapt(archive("test.rar", true)),
        vec![Event::Ran(missing()), Event::Ran(failed(b""))],
    );
    assert_eq!(
        steps[2],
        Step {
            action: Action::ReturnEmpty,
            log: Some(
                "rar adapter disabled: neither unrar nor 7z is available. \
                 Install unrar or p7zip to search RAR archives."
                    .to_owned()
            ),
            stderr_line: None,
        }
    );
}

#[test]
fn rar_search_fails() {
    let via_unrar = |outcome: Outcome| {
        play(
            RarAdapter::new().adapt(archive("test.rar", true)),
            vec![Event::Ran(ok("")), Event::Ran(outcome)],
        )
    };
    assert_eq!(
        via_unrar(failed(b"bad"))[2],
        quiet(Action::Fail(AdaptError::ListFailed {
            cmd_name: "unrar".to_owned(),
            stderr: "bad".to_owned(),
        }))
    );
    assert_eq!(via_unrar(ok("nothing\n"))[2], quiet(Action::ReturnEmpty));

    let via_7z = |events: Vec<Event>| {
        let mut all = vec![
            Event::Ran(denied()),
            Event::Ran(ok("")),
            Event::Ran(ok("Path = a\n")),
        ];
        all.extend(events);
        play(RarAdapter::new().adapt(archive("test.rar", true)), all)
    };
    assert_eq!(
        via_7z(vec![Event::TempDir(Err("full".to_owned()))])[4],
        quiet(Action::Fail(AdaptError::TempDir {
            context: "failed to create temp dir for RAR extraction via 7z".to_owned(),
            cause: "full".to_owned(),
        }))
    );
    let steps = via_7z(vec![
        Event::TempDir(Ok("d".to_owned())),
        Event::Ran(missing()),
        Event::Removed(Err(PathError { path: "d".to_owned(), message: "busy".to_owned() })),
    ]);
    assert_eq!(steps[5], quiet(Action::RemoveTempDir));
    assert_eq!(
        steps[6],
        quiet(Action::Fail(AdaptError::MissingExecutable {
            exe_name: "7z".to_owned(),
            help: "Install p7zip to search RAR archives.".to_owned(),
        }))
    );
}

#[test]
fn no_directory_is_left() {
    let outcomes: [fn() -> Outcome; 4] = [|| ok(""), || failed(b"x"), missing, denied];
    for outcome in outcomes {
        let (mut session, mut step) = SevenzAdapter::new().adapt(archive("test.7z", true));
        let mut requests = Vec::new();
        loop {
            let event = match &step.action {
                Action::Run(run) if run.args[0] == Arg::Text("x".to_owned()) => {
                    Event::Ran(outcome())
                }
                Action::Run(_) => Event::Ran(ok("Path = a\nPath = b\n")),
                Action::CreateTempDir => Event::TempDir(Ok("d".to_owned())),
                Action::OpenMember(_) => Event::Opened(Ok(())),
                Action::SpawnMember(_) => Event::Spawned(Ok(())),
                Action::Emit(_) => Event::Resumed,
                Action::RemoveTempDir => Event::Removed(Ok(())),
                Action::ReturnEmpty | Action::Fail(_) | Action::End => break,
            };
            let (after, next) = session.step(event);
            session = after;
            requests.push(step.action);
            step = next;
        }
        assert!(requests.contains(&Action::CreateTempDir));
        assert_eq!(requests.last(), Some(&Action::RemoveTempDir));
        assert_eq!(matches!(step.action, Action::Fail(_)), outcome() != ok(""));
    }
}

#[test]
fn command_names_are_kept_as_they_are() {
    for name in ["", " 7z ", "\u{fc}/7z"] {
        assert_eq!(SevenzAdapter::with_cmd(name).cmd_name(), name);
        assert_eq!(SevenzAdapter::with_cmd(name.to_owned()).cmd_name(), name);
    }
}

#[test]
fn archives_in_archives_are_passed_over() {
    let inner = archive("outer.7z", true).member("inner.7z");
    assert_eq!(inner, member("inner.7z"));
    let steps = play(SevenzAdapter::new().adapt(inner), vec![]);
    assert_eq!(steps[0].action, Action::ReturnEmpty);
    let steps = play(RarAdapter::new().adapt(archive("outer.rar", true).member("i.rar")), vec![]);
    assert_eq!(steps[0].action, Action::ReturnEmpty);
}

#[test]
fn only_fitting_answers_are_accepted() {
    let (session, _) = SevenzAdapter::new().adapt(archive("test.7z", true));
    assert!(session.accepts(&Event::Ran(missing())));
    assert!(!session.accepts(&Event::Resumed));
    assert!(!session.accepts(&Event::Opened(Ok(()))));
    assert!(!session.accepts(&Event::TempDir(Ok(String::new()))));
    let (session, _) = session.step(Event::Ran(missing()));
    assert!(!session.accepts(&Event::Ran(missing())));
    assert!(!session.accepts(&Event::Removed(Ok(()))));
    assert!(!session.accepts(&Event::Spawned(Ok(()))));
}
