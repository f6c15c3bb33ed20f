use file_agent::call::{dispatch, rejection, same_text, CallError, Param, ParamName, ParamValue, ToolCall};
use file_agent::mediator::{Effect, Phase, Step};
use file_agent::outcome::{ActionOutcome, Field, FieldValue, Status};
use file_agent::request::{full_command, prefixed, ActionRequest};
use file_agent::risk::RiskTier;

fn text(name: &str, value: &str) -> Param {
    Param { name: name.to_string(), value: ParamValue::Text(value.to_string()) }
}

fn call(name: &str, params: Vec<Param>) -> ToolCall {
    ToolCall { name: name.to_string(), params }
}

fn words(items: &[&str]) -> Vec<String> {
    items.iter().map(|s| s.to_string()).collect()
}

fn field(name: &str, value: FieldValue) -> Field {
    Field { name: name.to_string(), value }
}

fn text_field(name: &str, value: &str) -> Field {
    field(name, FieldValue::Text(value.to_string()))
}

#[test]
fn create_file_call_is_read_with_its_content_as_bytes() {
    let c = call("create_file", vec![text("filename", "a.txt"), text("content", "héllo")]);
    assert_eq!(
        c.parse(),
        Ok(ActionRequest::CreateFile {
            path: "a.txt".to_string(),
            content: vec![b'h', 0xc3, 0xa9, b'l', b'l', b'o'],
        })
    );
}

#[test]
fn read_and_delete_calls_are_read() {
    assert_eq!(
        call("read_file", vec![text("filename", "a.txt")]).parse(),
        Ok(ActionRequest::ReadFile { path: "a.txt".to_string() })
    );
    assert_eq!(
        call("delete_file", vec![text("filename", "a.txt")]).parse(),
        Ok(ActionRequest::DeleteFile { path: "a.txt".to_string() })
    );
}

#[test]
fn list_files_call_has_an_optional_flag() {
    assert_eq!(call("list_files", vec![]).parse(), Ok(ActionRequest::ListFiles { detailed: false }));
    let flag = Param { name: "detailed".to_string(), value: ParamValue::Flag(true) };
    assert_eq!(call("list_files", vec![flag]).parse(), Ok(ActionRequest::ListFiles { detailed: true }));
    let null = Param { name: "detailed".to_string(), value: ParamValue::Null };
    assert_eq!(call("list_files", vec![null]).parse(), Ok(ActionRequest::ListFiles { detailed: false }));
    assert_eq!(
        call("list_files", vec![text("detailed", "yes")]).parse(),
        Err(CallError::Mistyped(ParamName::Detailed))
    );
}

#[test]
fn run_command_call_keeps_the_order_of_its_arguments() {
    let args = Param { name: "args".to_string(), value: ParamValue::List(words(&["-c", "exit 3"])) };
    assert_eq!(
        call("run_command", vec![args, text("command", "sh")]).parse(),
        Ok(ActionRequest::RunCommand { program: "sh".to_string(), args: words(&["-c", "exit 3"]) })
    );
}

#[test]
fn run_command_call_without_arguments_has_none() {
    let expected = Ok(ActionRequest::RunCommand { program: "ls".to_string(), args: Vec::new() });
    assert_eq!(call("run_command", vec![text("command", "ls")]).parse(), expected);
    let null = Param { name: "args".to_string(), value: ParamValue::Null };
    assert_eq!(call("run_command", vec![text("command", "ls"), null]).parse(), expected);
    assert_eq!(
        call("run_command", vec![text("command", "ls"), text("args", "-la")]).parse(),
        Err(CallError::Mistyped(ParamName::Args))
    );
}

#[test]
fn an_unknown_tool_is_turned_down() {
    assert_eq!(call("format_disk", vec![]).parse(), Err(CallError::UnknownTool));
    assert_eq!(call("", vec![]).parse(), Err(CallError::UnknownTool));
    assert_eq!(call("Read_File", vec![text("filename", "a")]).parse(), Err(CallError::UnknownTool));
}

#[test]
fn a_missing_parameter_is_turned_down() {
    assert_eq!(call("read_file", vec![]).parse(), Err(CallError::Missing(ParamName::Filename)));
    assert_eq!(
        call("create_file", vec![text("filename", "a.txt")]).parse(),
        Err(CallError::Missing(ParamName::Content))
    );
    assert_eq!(
        call("create_file", vec![text("content", "x")]).parse(),
        Err(CallError::Missing(ParamName::Filename))
    );
    assert_eq!(call("run_command", vec![]).parse(), Err(CallError::Missing(ParamName::Command)));
    assert_eq!(
        call("delete_file", vec![text("file", "a.txt")]).parse(),
        Err(CallError::Missing(ParamName::Filename))
    );
}

#[test]
fn a_parameter_of_the_wrong_type_is_turned_down() {
    let flag = Param { name: "filename".to_string(), value: ParamValue::Flag(true) };
    assert_eq!(call("read_file", vec![flag]).parse(), Err(CallError::Mistyped(ParamName::Filename)));
    let null = Param { name: "filename".to_string(), value: ParamValue::Null };
    assert_eq!(call("delete_file", vec![null]).parse(), Err(CallError::Mistyped(ParamName::Filename)));
    let other = Param { name: "content".to_string(), value: ParamValue::Other };
    assert_eq!(
        call("create_file", vec![text("filename", "a"), other]).parse(),
        Err(CallError::Mistyped(ParamName::Content))
    );
    let list = Param { name: "command".to_string(), value: ParamValue::List(words(&["ls"])) };
    assert_eq!(call("run_command", vec![list]).parse(), Err(CallError::Mistyped(ParamName::Command)));
}

#[test]
fn an_empty_path_or_program_is_turned_down() {
    assert_eq!(
        call("read_file", vec![text("filename", "")]).parse(),
        Err(CallError::Empty(ParamName::Filename))
    );
    assert_eq!(
        call("run_command", vec![text("command", "")]).parse(),
        Err(CallError::Empty(ParamName::Command))
    );
    assert_eq!(
        call("create_file", vec![text("filename", "a.txt"), text("content", "")]).parse(),
        Ok(ActionRequest::CreateFile { path: "a.txt".to_string(), content: Vec::new() })
    );
}

#[test]
fn the_first_parameter_at_fault_is_reported() {
    assert_eq!(
        call("create_file", vec![text("filename", "")]).parse(),
        Err(CallError::Empty(ParamName::Filename))
    );
    let bad_args = Param { name: "args".to_string(), value: ParamValue::Flag(false) };
    assert_eq!(
        call("run_command", vec![bad_args]).parse(),
        Err(CallError::Missing(ParamName::Command))
    );
}

#[test]
fn the_first_of_two_parameters_with_one_name_counts() {
    let c = call("read_file", vec![text("filename", "first"), text("filename", "second")]);
    assert_eq!(c.parse(), Ok(ActionRequest::ReadFile { path: "first".to_string() }));
    assert_eq!(c.find("filename"), Some(&ParamValue::Text("first".to_string())));
    assert_eq!(c.find("content"), None);
}

#[test]
fn each_call_error_has_its_message() {
    assert_eq!(CallError::UnknownTool.message(), "未知工具");
    assert_eq!(CallError::Missing(ParamName::Filename).message(), "缺少参数: filename");
    assert_eq!(CallError::Mistyped(ParamName::Args).message(), "参数类型错误: args");
    assert_eq!(CallError::Empty(ParamName::Command).message(), "参数为空: command");
    assert_eq!(ParamName::Content.as_str(), "content");
    assert_eq!(ParamName::Detailed.as_str(), "detailed");
    assert_eq!(
        rejection(CallError::Missing(ParamName::Content)),
        ActionOutcome::Failed { message: "缺少参数: content".to_string() }
    );
}

#[test]
fn dispatch_starts_a_good_call_and_fails_a_bad_one() {
    match dispatch(&call("delete_file", vec![text("filename", "a.txt")])) {
        Ok((mediation, step)) => {
            assert_eq!(step, Step::Probe { path: "a.txt".to_string() });
            assert_eq!(mediation.current_phase(), Phase::Probing);
        }
        Err(outcome) => panic!("turned down: {:?}", outcome),
    }
    match dispatch(&call("create_file", vec![text("filename", "a.txt"), text("content", "hi")])) {
        Ok((mediation, step)) => {
            assert_eq!(step, Step::Confirm { description: "创建/修改文件 a.txt".to_string() });
            assert_eq!(mediation.current_phase(), Phase::Confirming);
        }
        Err(outcome) => panic!("turned down: {:?}", outcome),
    }
    match dispatch(&call("nothing", vec![])) {
        Ok(_) => panic!("an unknown tool was started"),
        Err(outcome) => {
            assert_eq!(outcome, ActionOutcome::Failed { message: "未知工具".to_string() });
            assert_eq!(outcome.status(), Status::Error);
        }
    }
    match dispatch(&call("read_file", vec![])) {
        Ok(_) => panic!("a call without its parameter was started"),
        Err(outcome) => {
            assert_eq!(outcome, ActionOutcome::Failed { message: "缺少参数: filename".to_string() })
        }
    }
}

#[test]
fn same_text_compares_strings() {
    assert!(same_text("read_file", "read_file"));
    assert!(!same_text("read_file", "read_files"));
    assert!(!same_text("read_file", "Read_file"));
    assert!(same_text("", ""));
}

#[test]
fn the_command_line_is_the_program_and_its_arguments() {
    assert_eq!(full_command("sh", &words(&["-c", "exit 3"])), "sh -c exit 3");
    assert_eq!(full_command("ls", &Vec::new()), "ls ");
    assert_eq!(full_command("echo", &words(&["a b", "", "c"])), "echo a b  c");
    assert_eq!(prefixed("ab", "cd"), "abcd");
}

#[test]
fn a_request_is_classified_by_its_target() {
    let tier = |r: ActionRequest| r.tier();
    assert_eq!(tier(ActionRequest::ReadFile { path: "/etc/passwd".to_string() }), RiskTier::Dangerous);
    assert_eq!(tier(ActionRequest::ReadFile { path: "a.txt".to_string() }), RiskTier::Normal);
    assert_eq!(
        tier(ActionRequest::CreateFile { path: "x\\.ssh\\k".to_string(), content: Vec::new() }),
        RiskTier::Dangerous
    );
    assert_eq!(tier(ActionRequest::DeleteFile { path: "/dev/null".to_string() }), RiskTier::Dangerous);
    assert_eq!(tier(ActionRequest::ListFiles { detailed: true }), RiskTier::Normal);
    assert_eq!(
        tier(ActionRequest::RunCommand { program: "rm".to_string(), args: words(&["-rf", "/tmp/x"]) }),
        RiskTier::Dangerous
    );
    assert_eq!(
        tier(ActionRequest::RunCommand { program: "ls".to_string(), args: words(&["-la"]) }),
        RiskTier::Normal
    );
    assert_eq!(
        tier(ActionRequest::RunCommand { program: "RM".to_string(), args: words(&["-R", "x"]) }),
        RiskTier::Dangerous
    );
    assert_eq!(
        tier(ActionRequest::RunCommand { program: "cat".to_string(), args: words(&["/etc/passwd"]) }),
        RiskTier::Normal
    );
}

#[test]
fn a_request_describes_itself() {
    let run = ActionRequest::RunCommand { program: "sh".to_string(), args: words(&["-c", "exit 3"]) };
    assert_eq!(run.description(), "执行命令 sh -c exit 3");
    assert_eq!(run.cancel_reason(), "用户取消了执行命令操作");
    assert_eq!(run.failure_message("x"), "执行命令失败: x");
    assert_eq!(run.target(), "");
    assert!(!run.needs_existing_target());
    assert_eq!(
        run.effect(),
        Effect::Spawn { program: "sh".to_string(), args: words(&["-c", "exit 3"]) }
    );
    let read = ActionRequest::ReadFile { path: "a.txt".to_string() };
    assert_eq!(read.description(), "读取文件 a.txt");
    assert_eq!(read.target(), "a.txt");
    assert!(read.needs_existing_target());
    assert_eq!(read.effect(), Effect::ReadFile { path: "a.txt".to_string() });
    let list = ActionRequest::ListFiles { detailed: true };
    assert_eq!(list.effect(), Effect::ListDirectory { detailed: true });
    assert!(list.is_well_formed());
    assert_eq!(list.malformed_message(), "请求无效: 路径为空");
    assert_eq!(run.malformed_message(), "请求无效: 命令为空");
}

#[test]
fn status_labels_are_the_three_markers() {
    assert_eq!(Status::Success.label(), "success");
    assert_eq!(Status::Cancelled.label(), "cancelled");
    assert_eq!(Status::Error.label(), "error");
}

#[test]
fn the_record_of_a_command_has_code_and_both_streams() {
    let outcome =
        ActionOutcome::Ran { exit_code: Some(3), stdout: String::new(), stderr: String::new() };
    assert_eq!(
        outcome.record(),
        vec![
            text_field("status", "error"),
            field("exit_code", FieldValue::Integer(3)),
            text_field("stdout", ""),
            text_field("stderr", ""),
        ]
    );
    let ok = ActionOutcome::Ran {
        exit_code: Some(0),
        stdout: "out".to_string(),
        stderr: "err".to_string(),
    };
    assert_eq!(
        ok.record(),
        vec![
            text_field("status", "success"),
            field("exit_code", FieldValue::Integer(0)),
            text_field("stdout", "out"),
            text_field("stderr", "err"),
        ]
    );
    let killed = ActionOutcome::Ran { exit_code: None, stdout: String::new(), stderr: String::new() };
    assert_eq!(killed.record()[0], text_field("status", "error"));
    assert_eq!(killed.record()[1], field("exit_code", FieldValue::Null));
    let negative =
        ActionOutcome::Ran { exit_code: Some(-1), stdout: String::new(), stderr: String::new() };
    assert_eq!(negative.record()[1], field("exit_code", FieldValue::Integer(-1)));
}

#[test]
fn the_record_of_each_other_outcome() {
    assert_eq!(
        ActionOutcome::Created { path: "a.txt".to_string(), size: 2 }.record(),
        vec![
            text_field("status", "success"),
            text_field("file", "a.txt"),
            field("size", FieldValue::Unsigned(2)),
        ]
    );
    assert_eq!(
        ActionOutcome::Read { path: "a.txt".to_string(), content: "hi".to_string() }.record(),
        vec![
            text_field("status", "success"),
            text_field("content", "hi"),
            text_field("filename", "a.txt"),
        ]
    );
    assert_eq!(ActionOutcome::Deleted.record(), vec![text_field("status", "success")]);
    assert_eq!(
        ActionOutcome::Listed { entries: words(&["a", "b"]) }.record(),
        vec![text_field("status", "success"), field("entries", FieldValue::List(words(&["a", "b"])))]
    );
    assert_eq!(
        ActionOutcome::Cancelled { reason: "no".to_string() }.record(),
        vec![text_field("status", "cancelled"), text_field("message", "no")]
    );
    assert_eq!(
        ActionOutcome::Failed { message: "bad".to_string() }.record(),
        vec![text_field("status", "error"), text_field("message", "bad")]
    );
}
