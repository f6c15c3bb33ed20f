use file_agent::mediator::{Effect, EffectResult, Event, Mediation, Phase, Step};
use file_agent::outcome::{ActionOutcome, Status};
use file_agent::request::ActionRequest;
use std::collections::BTreeMap;

/// A stand-in for the operator and the machine: files in memory, and the
/// operator's lines in the order in which they will be given.
struct World {
    files: BTreeMap<String, Vec<u8>>,
    replies: Vec<Option<String>>,
    prompts: Vec<Step>,
    effects: Vec<Effect>,
}

fn world(files: &[(&str, &str)], replies: &[Option<&str>]) -> World {
    World {
        files: files.iter().map(|(p, c)| (p.to_string(), c.as_bytes().to_vec())).collect(),
        replies: replies.iter().rev().map(|r| r.map(|s| s.to_string())).collect(),
        prompts: Vec::new(),
        effects: Vec::new(),
    }
}

fn perform(world: &mut World, effect: &Effect) -> EffectResult {
    world.effects.push(effect.clone());
    match effect {
        Effect::EnsureParents { .. } => EffectResult::Done,
        Effect::WriteFile { path, content } => {
            world.files.insert(path.clone(), content.clone());
            EffectResult::Done
        }
        Effect::ReadFile { path } => match world.files.get(path) {
            Some(bytes) => EffectResult::Content(bytes.clone()),
            None => EffectResult::Error("No such file or directory".to_string()),
        },
        Effect::RemoveFile { path } => match world.files.remove(path) {
            Some(_) => EffectResult::Done,
            None => EffectResult::Error("No such file or directory".to_string()),
        },
        Effect::ListDirectory { detailed } => EffectResult::Entries(
            world
                .files
                .iter()
                .map(|(name, bytes)| {
                    if *detailed {
                        format!("{} {}", name, bytes.len())
                    } else {
                        name.clone()
                    }
                })
                .collect(),
        ),
        Effect::Spawn { program, args } => {
            if program == "sh" && args.len() == 2 && args[0] == "-c" && args[1] == "exit 3" {
                EffectResult::Exited { code: Some(3), stdout: Vec::new(), stderr: Vec::new() }
            } else if program == "echo" {
                EffectResult::Exited {
                    code: Some(0),
                    stdout: format!("{}\n", args.join(" ")).into_bytes(),
                    stderr: Vec::new(),
                }
            } else {
                EffectResult::Error("No such file or directory (os error 2)".to_string())
            }
        }
    }
}

fn dispatch(world: &mut World, request: ActionRequest) -> ActionOutcome {
    let (mut mediation, mut step) = Mediation::begin(request);
    let mut events = 0;
    loop {
        let event = match &step {
            Step::Probe { path } => Event::Existence(world.files.contains_key(path)),
            Step::Confirm { .. } | Step::ConfirmElevated { .. } => {
                world.prompts.push(step.clone());
                Event::Reply(world.replies.pop().unwrap_or(None))
            }
            Step::Perform(effect) => Event::Completed(perform(world, effect)),
            Step::Finish(outcome) => {
                assert!(mediation.is_closed());
                assert!(events <= 4);
                return outcome.clone();
            }
        };
        assert!(!mediation.is_closed());
        step = mediation.advance(event);
        events += 1;
    }
}

fn create(path: &str, content: &str) -> ActionRequest {
    ActionRequest::CreateFile { path: path.to_string(), content: content.as_bytes().to_vec() }
}

fn read(path: &str) -> ActionRequest {
    ActionRequest::ReadFile { path: path.to_string() }
}

fn delete(path: &str) -> ActionRequest {
    ActionRequest::DeleteFile { path: path.to_string() }
}

fn run(program: &str, args: &[&str]) -> ActionRequest {
    ActionRequest::RunCommand {
        program: program.to_string(),
        args: args.iter().map(|a| a.to_string()).collect(),
    }
}

fn failed(message: &str) -> ActionOutcome {
    ActionOutcome::Failed { message: message.to_string() }
}

fn cancelled(reason: &str) -> ActionOutcome {
    ActionOutcome::Cancelled { reason: reason.to_string() }
}

#[test]
fn denied_delete_leaves_the_file_where_it_is() {
    let mut w = world(&[("a.txt", "keep")], &[Some("n")]);
    let outcome = dispatch(&mut w, delete("a.txt"));
    assert_eq!(outcome, cancelled("用户取消了删除文件操作"));
    assert_eq!(outcome.status(), Status::Cancelled);
    assert_eq!(w.files.get("a.txt"), Some(&b"keep".to_vec()));
    assert!(w.effects.is_empty());
}

#[test]
fn denied_delete_of_a_missing_file_leaves_it_missing() {
    let mut w = world(&[], &[Some("n")]);
    let outcome = dispatch(&mut w, delete("a.txt"));
    assert_eq!(outcome.status(), Status::Error);
    assert!(w.files.is_empty());
    assert!(w.effects.is_empty());
}

#[test]
fn denying_twice_changes_nothing_twice() {
    let mut w = world(&[("a.txt", "keep")], &[Some("n"), Some("")]);
    let first = dispatch(&mut w, delete("a.txt"));
    let second = dispatch(&mut w, delete("a.txt"));
    assert_eq!(first, second);
    assert_eq!(w.files.len(), 1);
    assert!(w.effects.is_empty());
}

#[test]
fn created_file_reads_back_exactly() {
    let mut w = world(&[], &[Some("y"), Some("y")]);
    let made = dispatch(&mut w, create("a.txt", "hi"));
    assert_eq!(made, ActionOutcome::Created { path: "a.txt".to_string(), size: 2 });
    assert_eq!(made.status(), Status::Success);
    let got = dispatch(&mut w, read("a.txt"));
    assert_eq!(got, ActionOutcome::Read { path: "a.txt".to_string(), content: "hi".to_string() });
    assert_eq!(got.status(), Status::Success);
}

#[test]
fn create_replaces_an_existing_file() {
    let mut w = world(&[("a.txt", "old content")], &[Some("yes"), Some("yes")]);
    dispatch(&mut w, create("a.txt", "new"));
    let got = dispatch(&mut w, read("a.txt"));
    assert_eq!(got, ActionOutcome::Read { path: "a.txt".to_string(), content: "new".to_string() });
}

#[test]
fn command_with_exit_code_three_is_reported_not_failed() {
    let mut w = world(&[], &[Some("y"), Some("yes")]);
    let outcome = dispatch(&mut w, run("sh", &["-c", "exit 3"]));
    assert_eq!(
        outcome,
        ActionOutcome::Ran { exit_code: Some(3), stdout: String::new(), stderr: String::new() }
    );
    assert_eq!(outcome.status(), Status::Error);
    assert_eq!(
        w.effects,
        vec![Effect::Spawn {
            program: "sh".to_string(),
            args: vec!["-c".to_string(), "exit 3".to_string()],
        }]
    );
}

#[test]
fn delete_of_a_missing_file_fails_without_a_prompt() {
    let mut w = world(&[], &[Some("y"), Some("yes")]);
    let outcome = dispatch(&mut w, delete("missing.txt"));
    assert_eq!(outcome, failed("文件不存在: missing.txt"));
    assert!(w.prompts.is_empty());
    assert!(w.effects.is_empty());
    assert_eq!(w.replies.len(), 2);
}

#[test]
fn read_of_a_missing_file_fails_without_a_prompt() {
    let mut w = world(&[], &[Some("y")]);
    let outcome = dispatch(&mut w, read("missing.txt"));
    assert_eq!(outcome, failed("文件不存在: missing.txt"));
    assert!(w.prompts.is_empty());
}

#[test]
fn delete_removes_exactly_the_named_file() {
    let mut w = world(&[("a.txt", "1"), ("b.txt", "2")], &[Some("y")]);
    let outcome = dispatch(&mut w, delete("a.txt"));
    assert_eq!(outcome, ActionOutcome::Deleted);
    assert_eq!(w.files.len(), 1);
    assert!(w.files.contains_key("b.txt"));
    assert_eq!(w.effects, vec![Effect::RemoveFile { path: "a.txt".to_string() }]);
}

#[test]
fn a_normal_request_is_asked_once() {
    let mut w = world(&[("a.txt", "1")], &[Some("y")]);
    dispatch(&mut w, delete("a.txt"));
    assert_eq!(w.prompts, vec![Step::Confirm { description: "删除文件 a.txt".to_string() }]);
}

#[test]
fn a_dangerous_request_is_asked_twice_in_order() {
    let mut w = world(&[("/etc/passwd", "root")], &[Some("y"), Some("yes")]);
    let outcome = dispatch(&mut w, delete("/etc/passwd"));
    assert_eq!(outcome, ActionOutcome::Deleted);
    assert_eq!(
        w.prompts,
        vec![
            Step::Confirm { description: "删除文件 /etc/passwd".to_string() },
            Step::ConfirmElevated { description: "删除文件 /etc/passwd".to_string() },
        ]
    );
    assert!(w.files.is_empty());
}

#[test]
fn the_short_form_does_not_pass_the_elevated_gate() {
    let mut w = world(&[("/etc/passwd", "root")], &[Some("y"), Some("y")]);
    let outcome = dispatch(&mut w, delete("/etc/passwd"));
    assert_eq!(outcome, cancelled("用户取消了删除文件操作"));
    assert_eq!(w.prompts.len(), 2);
    assert!(w.effects.is_empty());
    assert_eq!(w.files.len(), 1);
}

#[test]
fn a_denial_at_the_first_gate_skips_the_second() {
    let mut w = world(&[], &[Some("no"), Some("yes")]);
    let outcome = dispatch(&mut w, run("sudo", &["rm", "-rf", "/"]));
    assert_eq!(outcome, cancelled("用户取消了执行命令操作"));
    assert_eq!(w.prompts, vec![Step::Confirm { description: "执行命令 sudo rm -rf /".to_string() }]);
    assert!(w.effects.is_empty());
}

#[test]
fn an_unreadable_reply_is_a_denial() {
    let mut w = world(&[], &[None]);
    let outcome = dispatch(&mut w, create("a.txt", "hi"));
    assert_eq!(outcome, cancelled("用户取消了创建文件操作"));
    assert!(w.files.is_empty());
}

#[test]
fn a_dangerous_command_runs_after_both_gates() {
    let mut w = world(&[], &[Some("Y"), Some("YES")]);
    let outcome = dispatch(&mut w, run("echo", &["kill", "it"]));
    assert_eq!(
        outcome,
        ActionOutcome::Ran {
            exit_code: Some(0),
            stdout: "kill it\n".to_string(),
            stderr: String::new(),
        }
    );
    assert_eq!(outcome.status(), Status::Success);
    assert_eq!(w.prompts.len(), 2);
}

#[test]
fn a_command_that_cannot_start_is_a_failure() {
    let mut w = world(&[], &[Some("y")]);
    let outcome = dispatch(&mut w, run("no-such-program", &[]));
    assert_eq!(outcome, failed("执行命令失败: No such file or directory (os error 2)"));
    assert_eq!(w.prompts, vec![Step::Confirm { description: "执行命令 no-such-program ".to_string() }]);
}

#[test]
fn create_makes_the_parents_first_and_then_writes() {
    let mut w = world(&[], &[Some("y")]);
    let outcome = dispatch(&mut w, create("out/deep/a.txt", "héllo"));
    assert_eq!(outcome, ActionOutcome::Created { path: "out/deep/a.txt".to_string(), size: 6 });
    assert_eq!(
        w.effects,
        vec![
            Effect::EnsureParents { path: "out/deep/a.txt".to_string() },
            Effect::WriteFile {
                path: "out/deep/a.txt".to_string(),
                content: "héllo".as_bytes().to_vec(),
            },
        ]
    );
    assert_eq!(w.prompts, vec![Step::Confirm { description: "创建/修改文件 out/deep/a.txt".to_string() }]);
}

#[test]
fn create_is_confirmed_before_anything_is_looked_at() {
    let (_, step) = Mediation::begin(create("a.txt", "hi"));
    assert_eq!(step, Step::Confirm { description: "创建/修改文件 a.txt".to_string() });
}

#[test]
fn read_and_delete_start_with_a_probe() {
    let (m, step) = Mediation::begin(read("a.txt"));
    assert_eq!(step, Step::Probe { path: "a.txt".to_string() });
    assert_eq!(m.current_phase(), Phase::Probing);
    let (_, step) = Mediation::begin(delete("b\\a.txt"));
    assert_eq!(step, Step::Probe { path: "b\\a.txt".to_string() });
}

#[test]
fn a_failure_to_make_the_parents_ends_the_request() {
    let (mut m, _) = Mediation::begin(create("out/a.txt", "hi"));
    let step = m.advance(Event::Reply(Some("y".to_string())));
    assert_eq!(step, Step::Perform(Effect::EnsureParents { path: "out/a.txt".to_string() }));
    assert_eq!(m.current_phase(), Phase::Preparing);
    let step = m.advance(Event::Completed(EffectResult::Error("Permission denied".to_string())));
    assert_eq!(step, Step::Finish(failed("创建目录失败: Permission denied")));
    assert!(m.is_closed());
}

#[test]
fn a_failure_of_each_effect_has_its_message() {
    let cases = vec![
        (create("a", ""), "写入文件失败: boom"),
        (read("a"), "读取文件失败: boom"),
        (delete("a"), "删除文件失败: boom"),
        (ActionRequest::ListFiles { detailed: false }, "列出目录失败: boom"),
        (run("a", &[]), "执行命令失败: boom"),
    ];
    for (request, message) in cases {
        let outcome = request.conclusion(EffectResult::Error("boom".to_string()));
        assert_eq!(outcome, failed(message));
        assert_eq!(outcome.status(), Status::Error);
    }
}

#[test]
fn text_that_is_not_utf8_is_a_failure_of_the_read() {
    let mut w = world(&[], &[Some("y")]);
    w.files.insert("bin.dat".to_string(), vec![0xff, 0xfe]);
    let outcome = dispatch(&mut w, read("bin.dat"));
    assert_eq!(outcome, failed("读取文件失败: 文件不是有效的 UTF-8 文本"));
    assert_eq!(w.files.len(), 1);
}

#[test]
fn a_file_is_read_as_the_text_that_its_bytes_encode() {
    let bytes = "héllo, 文件 🙂\n".as_bytes().to_vec();
    let outcome = read("a.txt").conclusion(EffectResult::Content(bytes));
    assert_eq!(
        outcome,
        ActionOutcome::Read { path: "a.txt".to_string(), content: "héllo, 文件 🙂\n".to_string() }
    );
    let empty = read("a.txt").conclusion(EffectResult::Content(Vec::new()));
    assert_eq!(empty, ActionOutcome::Read { path: "a.txt".to_string(), content: String::new() });
}

#[test]
fn ill_formed_bytes_are_no_text() {
    for bytes in [vec![0xff], vec![b'a', 0xc3], vec![0xed, 0xa0, 0x80], vec![0xc0, 0x80]] {
        let outcome = read("a.txt").conclusion(EffectResult::Content(bytes));
        assert_eq!(outcome, failed("读取文件失败: 文件不是有效的 UTF-8 文本"));
    }
}

#[test]
fn the_output_of_a_command_is_taken_with_what_is_ill_formed_replaced() {
    let outcome = run("a", &[]).conclusion(EffectResult::Exited {
        code: Some(0),
        stdout: vec![b'f', 0xff, b'o'],
        stderr: "wörld".as_bytes().to_vec(),
    });
    assert_eq!(
        outcome,
        ActionOutcome::Ran {
            exit_code: Some(0),
            stdout: "f\u{FFFD}o".to_string(),
            stderr: "wörld".to_string(),
        }
    );
}

#[test]
fn listing_gives_names_or_details() {
    let mut w = world(&[("a.txt", "1"), ("b.txt", "22")], &[Some("y"), Some("y")]);
    let plain = dispatch(&mut w, ActionRequest::ListFiles { detailed: false });
    assert_eq!(
        plain,
        ActionOutcome::Listed { entries: vec!["a.txt".to_string(), "b.txt".to_string()] }
    );
    let detailed = dispatch(&mut w, ActionRequest::ListFiles { detailed: true });
    assert_eq!(
        detailed,
        ActionOutcome::Listed { entries: vec!["a.txt 1".to_string(), "b.txt 2".to_string()] }
    );
    assert_eq!(
        w.prompts,
        vec![
            Step::Confirm { description: "列出当前目录".to_string() },
            Step::Confirm { description: "列出当前目录 (详细)".to_string() },
        ]
    );
}

#[test]
fn a_denied_listing_is_cancelled() {
    let mut w = world(&[("a.txt", "1")], &[Some("n")]);
    let outcome = dispatch(&mut w, ActionRequest::ListFiles { detailed: false });
    assert_eq!(outcome, cancelled("用户取消了列出目录操作"));
}

#[test]
fn a_denied_read_is_cancelled() {
    let mut w = world(&[("a.txt", "1")], &[Some("n")]);
    let outcome = dispatch(&mut w, read("a.txt"));
    assert_eq!(outcome, cancelled("用户取消了读取文件操作"));
    assert!(w.effects.is_empty());
}

#[test]
fn a_request_without_a_target_fails_before_any_step() {
    for (request, message) in [
        (create("", "x"), "请求无效: 路径为空"),
        (read(""), "请求无效: 路径为空"),
        (delete(""), "请求无效: 路径为空"),
        (run("", &["-x"]), "请求无效: 命令为空"),
    ] {
        assert!(!request.is_well_formed());
        let (m, step) = Mediation::begin(request);
        assert_eq!(step, Step::Finish(failed(message)));
        assert!(m.is_closed());
    }
}

#[test]
fn an_event_that_answers_another_step_ends_the_request() {
    let violation = Step::Finish(failed("内部错误: 事件与当前步骤不符"));
    let (mut m, _) = Mediation::begin(delete("a.txt"));
    assert_eq!(m.advance(Event::Reply(Some("yes".to_string()))), violation);
    assert!(m.is_closed());

    let (mut m, _) = Mediation::begin(create("a.txt", "x"));
    assert_eq!(m.advance(Event::Completed(EffectResult::Done)), violation);
    assert!(m.is_closed());

    let (mut m, _) = Mediation::begin(create("a.txt", "x"));
    assert_eq!(m.advance(Event::Existence(true)), violation);

    let (mut m, _) = Mediation::begin(create("a.txt", "x"));
    m.advance(Event::Reply(Some("y".to_string())));
    assert_eq!(m.advance(Event::Completed(EffectResult::Content(b"x".to_vec()))), violation);
    assert!(m.is_closed());
}

#[test]
fn a_result_of_the_wrong_kind_is_a_failure() {
    let violation = failed("内部错误: 事件与当前步骤不符");
    assert_eq!(read("a").conclusion(EffectResult::Done), violation);
    assert_eq!(delete("a").conclusion(EffectResult::Content(b"x".to_vec())), violation);
    assert_eq!(create("a", "x").conclusion(EffectResult::Entries(Vec::new())), violation);
    assert_eq!(
        ActionRequest::ListFiles { detailed: true }.conclusion(EffectResult::Done),
        violation
    );
    assert_eq!(run("a", &[]).conclusion(EffectResult::Done), violation);
}

#[test]
fn a_closed_request_answers_every_event_with_a_failure() {
    let (mut m, _) = Mediation::begin(delete("a.txt"));
    m.advance(Event::Existence(false));
    assert!(m.is_closed());
    for event in [
        Event::Existence(true),
        Event::Reply(Some("yes".to_string())),
        Event::Completed(EffectResult::Done),
    ] {
        let step = m.advance(event);
        assert_eq!(step, Step::Finish(failed("内部错误: 事件与当前步骤不符")));
        assert!(m.is_closed());
    }
}

#[test]
fn the_phases_follow_one_another() {
    let (mut m, _) = Mediation::begin(delete("/etc/hosts"));
    assert_eq!(m.current_phase(), Phase::Probing);
    m.advance(Event::Existence(true));
    assert_eq!(m.current_phase(), Phase::Confirming);
    m.advance(Event::Reply(Some("y".to_string())));
    assert_eq!(m.current_phase(), Phase::Escalating);
    let step = m.advance(Event::Reply(Some("yes".to_string())));
    assert_eq!(m.current_phase(), Phase::Performing);
    assert_eq!(step, Step::Perform(Effect::RemoveFile { path: "/etc/hosts".to_string() }));
    m.advance(Event::Completed(EffectResult::Done));
    assert_eq!(m.current_phase(), Phase::Closed);
}

#[test]
fn the_path_is_classified_normalized_and_used_as_given() {
    let mut w = world(&[("C:\\Windows\\win.ini", "x")], &[Some("y"), Some("yes")]);
    let outcome = dispatch(&mut w, delete("C:\\Windows\\win.ini"));
    assert_eq!(outcome, ActionOutcome::Deleted);
    assert_eq!(w.prompts.len(), 2);
    assert_eq!(w.effects, vec![Effect::RemoveFile { path: "C:\\Windows\\win.ini".to_string() }]);
}

#[test]
fn a_process_without_an_exit_code_has_status_error() {
    let outcome = run("a", &[]).conclusion(EffectResult::Exited {
        code: None,
        stdout: b"out".to_vec(),
        stderr: b"err".to_vec(),
    });
    assert_eq!(
        outcome,
        ActionOutcome::Ran { exit_code: None, stdout: "out".to_string(), stderr: "err".to_string() }
    );
    assert_eq!(outcome.status(), Status::Error);
}
