use file_agent::config::Config;
use file_agent::confirm::{elevated_prompt, prompt};
use file_agent::session::{interpret, Input};
use file_agent::text::trim_str;

#[test]
fn the_words_that_end_a_session() {
    for line in ["quit", "exit", "q", "quit\n", "  exit  \r\n", "\tq\n"] {
        assert_eq!(interpret(line), Input::Quit);
    }
}

#[test]
fn every_other_line_is_a_query_without_its_margins() {
    assert_eq!(interpret("list the files\n"), Input::Query("list the files".to_string()));
    assert_eq!(interpret("  删除 a.txt \n"), Input::Query("删除 a.txt".to_string()));
    assert_eq!(interpret("Quit\n"), Input::Query("Quit".to_string()));
    assert_eq!(interpret("EXIT"), Input::Query("EXIT".to_string()));
    assert_eq!(interpret("quit now"), Input::Query("quit now".to_string()));
    assert_eq!(interpret("qq"), Input::Query("qq".to_string()));
}

#[test]
fn an_empty_line_is_an_empty_query() {
    assert_eq!(interpret(""), Input::Query(String::new()));
    assert_eq!(interpret(" \n"), Input::Query(String::new()));
}

#[test]
fn trim_str_agrees_with_std() {
    for s in ["", " ", "a", " a", "a ", "  héllo wörld \n", "\u{3000}文件\u{2003}", "\n\n"] {
        assert_eq!(trim_str(s), s.trim());
    }
}

#[test]
fn the_prompts_name_the_operation() {
    assert_eq!(prompt("删除文件 a.txt"), "\n是否执行 删除文件 a.txt (y/n): ");
    assert_eq!(
        elevated_prompt("删除文件 /etc/passwd"),
        "\n危险操作! 确定要执行 删除文件 /etc/passwd 吗? 输入 yes 确认: "
    );
}

#[test]
fn a_configuration_holds_the_key_it_was_given() {
    let config = Config::new("sk-abc".to_string());
    assert_eq!(config.deepseek_api_key, "sk-abc");
    assert_eq!(config.validate(), Ok(()));
}
