//! Action requests: what the planner may ask for, and what the mediator reads
//! off a request before anything is done.

use crate::risk::{classify_command, classify_path, command_tier, path_tier, RiskTier};
use crate::text::{join, joined, texts};
use vstd::prelude::*;

verus! {

/// One instruction of the planner.
#[derive(Clone, Debug, PartialEq, Eq)]
pub enum ActionRequest {
    /// Write `content` to the file at `path`, replacing what is there.
    CreateFile { path: String, content: Vec<u8> },
    /// Read the file at `path` as text.
    ReadFile { path: String },
    /// Remove the file at `path`.
    DeleteFile { path: String },
    /// List the working directory, with or without per-entry details.
    ListFiles { detailed: bool },
    /// Run `program` with `args` as a child process, without a shell.
    RunCommand { program: String, args: Vec<String> },
}

/// An action request as a mathematical value.
pub enum RequestModel {
    CreateFile { path: Seq<char>, content: Seq<u8> },
    ReadFile { path: Seq<char> },
    DeleteFile { path: Seq<char> },
    ListFiles { detailed: bool },
    RunCommand { program: Seq<char>, args: Seq<Seq<char>> },
}

impl View for ActionRequest {
    type V = RequestModel;

    open spec fn view(&self) -> RequestModel {
        match self {
            ActionRequest::CreateFile { path, content } => RequestModel::CreateFile {
                path: path@,
                content: content@,
            },
            ActionRequest::ReadFile { path } => RequestModel::ReadFile { path: path@ },
            ActionRequest::DeleteFile { path } => RequestModel::DeleteFile { path: path@ },
            ActionRequest::ListFiles { detailed } => RequestModel::ListFiles {
                detailed: *detailed,
            },
            ActionRequest::RunCommand { program, args } => RequestModel::RunCommand {
                program: program@,
                args: texts(args@),
            },
        }
    }
}

/// The command line of a program and its arguments: all of them in order,
/// with one space after the program and between each two arguments.
pub open spec fn command_line(program: Seq<char>, args: Seq<Seq<char>>) -> Seq<char> {
    program + " "@ + joined(args, " "@)
}

impl RequestModel {
    /// A path or a program is never empty.
    pub open spec fn well_formed(self) -> bool {
        match self {
            RequestModel::CreateFile { path, .. } => path.len() > 0,
            RequestModel::ReadFile { path } => path.len() > 0,
            RequestModel::DeleteFile { path } => path.len() > 0,
            RequestModel::ListFiles { .. } => true,
            RequestModel::RunCommand { program, .. } => program.len() > 0,
        }
    }

    /// The target must exist before the operator is asked anything.
    pub open spec fn needs_existing_target(self) -> bool {
        self is ReadFile || self is DeleteFile
    }

    /// The request's risk: that of its path or of its command line. Listing
    /// the working directory names no target and is normal.
    pub open spec fn tier(self) -> RiskTier {
        match self {
            RequestModel::CreateFile { path, .. } => path_tier(path),
            RequestModel::ReadFile { path } => path_tier(path),
            RequestModel::DeleteFile { path } => path_tier(path),
            RequestModel::ListFiles { .. } => RiskTier::Normal,
            RequestModel::RunCommand { program, args } => command_tier(command_line(program, args)),
        }
    }

    /// What the operator is shown at a prompt: the operation and its path
    /// or command line.
    pub open spec fn description(self) -> Seq<char> {
        match self {
            RequestModel::CreateFile { path, .. } => "创建/修改文件 "@ + path,
            RequestModel::ReadFile { path } => "读取文件 "@ + path,
            RequestModel::DeleteFile { path } => "删除文件 "@ + path,
            RequestModel::ListFiles { detailed } => if detailed {
                "列出当前目录 (详细)"@
            } else {
                "列出当前目录"@
            },
            RequestModel::RunCommand { program, args } => "执行命令 "@ + command_line(program, args),
        }
    }

    /// What the planner is told when the operator says no.
    pub open spec fn cancel_reason(self) -> Seq<char> {
        match self {
            RequestModel::CreateFile { .. } => "用户取消了创建文件操作"@,
            RequestModel::ReadFile { .. } => "用户取消了读取文件操作"@,
            RequestModel::DeleteFile { .. } => "用户取消了删除文件操作"@,
            RequestModel::ListFiles { .. } => "用户取消了列出目录操作"@,
            RequestModel::RunCommand { .. } => "用户取消了执行命令操作"@,
        }
    }

    /// What stands before the cause when the operation itself fails.
    pub open spec fn failure_prefix(self) -> Seq<char> {
        match self {
            RequestModel::CreateFile { .. } => "写入文件失败: "@,
            RequestModel::ReadFile { .. } => "读取文件失败: "@,
            RequestModel::DeleteFile { .. } => "删除文件失败: "@,
            RequestModel::ListFiles { .. } => "列出目录失败: "@,
            RequestModel::RunCommand { .. } => "执行命令失败: "@,
        }
    }

    /// What the planner is told of a request that is not well formed.
    pub open spec fn malformed_message(self) -> Seq<char> {
        match self {
            RequestModel::RunCommand { .. } => "请求无效: 命令为空"@,
            _ => "请求无效: 路径为空"@,
        }
    }
}

/// The command line of a program and its arguments.
pub fn full_command(program: &str, args: &Vec<String>) -> (line: String)
    ensures
        line@ == command_line(program@, texts(args@)),
{
    let mut line = String::from_str(program);
    line.append(" ");
    let rest = join(args, " ");
    line.append(rest.as_str());
    line
}

/// A prefix followed by a text.
pub fn prefixed(prefix: &str, text: &str) -> (r: String)
    ensures
        r@ == prefix@ + text@,
{
    let mut r = String::from_str(prefix);
    r.append(text);
    r
}

impl ActionRequest {
    /// Tells whether the request names its target.
    pub fn is_well_formed(&self) -> (r: bool)
        ensures
            r == self@.well_formed(),
    {
        match self {
            ActionRequest::CreateFile { path, .. } => !path.as_str().is_empty(),
            ActionRequest::ReadFile { path } => !path.as_str().is_empty(),
            ActionRequest::DeleteFile { path } => !path.as_str().is_empty(),
            ActionRequest::ListFiles { .. } => true,
            ActionRequest::RunCommand { program, .. } => !program.as_str().is_empty(),
        }
    }

    /// Tells whether the target must exist before the operator is asked.
    pub fn needs_existing_target(&self) -> (r: bool)
        ensures
            r == self@.needs_existing_target(),
    {
        match self {
            ActionRequest::ReadFile { .. } => true,
            ActionRequest::DeleteFile { .. } => true,
            _ => false,
        }
    }

    /// Classifies the request. It is computed anew at each call and stored
    /// nowhere.
    pub fn tier(&self) -> (tier: RiskTier)
        ensures
            tier == self@.tier(),
    {
        match self {
            ActionRequest::CreateFile { path, .. } => classify_path(path.as_str()),
            ActionRequest::ReadFile { path } => classify_path(path.as_str()),
            ActionRequest::DeleteFile { path } => classify_path(path.as_str()),
            ActionRequest::ListFiles { .. } => RiskTier::Normal,
            ActionRequest::RunCommand { program, args } => {
                let line = full_command(program.as_str(), args);
                classify_command(line.as_str())
            },
        }
    }

    /// The text that the operator is shown at a prompt.
    pub fn description(&self) -> (text: String)
        ensures
            text@ == self@.description(),
    {
        match self {
            ActionRequest::CreateFile { path, .. } => prefixed("创建/修改文件 ", path.as_str()),
            ActionRequest::ReadFile { path } => prefixed("读取文件 ", path.as_str()),
            ActionRequest::DeleteFile { path } => prefixed("删除文件 ", path.as_str()),
            ActionRequest::ListFiles { detailed } => if *detailed {
                String::from_str("列出当前目录 (详细)")
            } else {
                String::from_str("列出当前目录")
            },
            ActionRequest::RunCommand { program, args } => {
                let line = full_command(program.as_str(), args);
                prefixed("执行命令 ", line.as_str())
            },
        }
    }

    /// The reason that the planner is given when the operator says no.
    pub fn cancel_reason(&self) -> (text: String)
        ensures
            text@ == self@.cancel_reason(),
    {
        match self {
            ActionRequest::CreateFile { .. } => String::from_str("用户取消了创建文件操作"),
            ActionRequest::ReadFile { .. } => String::from_str("用户取消了读取文件操作"),
            ActionRequest::DeleteFile { .. } => String::from_str("用户取消了删除文件操作"),
            ActionRequest::ListFiles { .. } => String::from_str("用户取消了列出目录操作"),
            ActionRequest::RunCommand { .. } => String::from_str("用户取消了执行命令操作"),
        }
    }

    /// The message for an operation that failed with `cause`.
    pub fn failure_message(&self, cause: &str) -> (text: String)
        ensures
            text@ == self@.failure_prefix() + cause@,
    {
        match self {
            ActionRequest::CreateFile { .. } => prefixed("写入文件失败: ", cause),
            ActionRequest::ReadFile { .. } => prefixed("读取文件失败: ", cause),
            ActionRequest::DeleteFile { .. } => prefixed("删除文件失败: ", cause),
            ActionRequest::ListFiles { .. } => prefixed("列出目录失败: ", cause),
            ActionRequest::RunCommand { .. } => prefixed("执行命令失败: ", cause),
        }
    }

    /// The message for a request that is not well formed.
    pub fn malformed_message(&self) -> (text: String)
        ensures
            text@ == self@.malformed_message(),
    {
        match self {
            ActionRequest::RunCommand { .. } => String::from_str("请求无效: 命令为空"),
            _ => String::from_str("请求无效: 路径为空"),
        }
    }
}

} // verus!
