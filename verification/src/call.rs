//! The planner's side of the boundary: a tool call, loosely typed as the
//! planner sends it, and its reading as an action request.
//!
//! A call that names no known tool, lacks a parameter or gives one the
//! wrong type is turned down here, with a failure for its outcome, before
//! any step is taken.

use crate::mediator::{Mediation, Step};
use crate::outcome::{copy_words, ActionOutcome, OutcomeModel};
use crate::request::{prefixed, ActionRequest, RequestModel};
use crate::text::{chars_of, same_chars, texts};
use vstd::prelude::*;
use vstd::utf8::encode_utf8;

verus! {

/// The value of one parameter of a call.
#[derive(Clone, Debug, PartialEq, Eq)]
pub enum ParamValue {
    Text(String),
    Flag(bool),
    List(Vec<String>),
    Null,
    /// A value of any other shape.
    Other,
}

/// A parameter's value as a mathematical value.
pub enum ParamModel {
    Text(Seq<char>),
    Flag(bool),
    List(Seq<Seq<char>>),
    Null,
    Other,
}

impl View for ParamValue {
    type V = ParamModel;

    open spec fn view(&self) -> ParamModel {
        match self {
            ParamValue::Text(text) => ParamModel::Text(text@),
            ParamValue::Flag(flag) => ParamModel::Flag(*flag),
            ParamValue::List(items) => ParamModel::List(texts(items@)),
            ParamValue::Null => ParamModel::Null,
            ParamValue::Other => ParamModel::Other,
        }
    }
}

/// One named parameter of a call.
#[derive(Clone, Debug, PartialEq, Eq)]
pub struct Param {
    pub name: String,
    pub value: ParamValue,
}

impl View for Param {
    type V = (Seq<char>, ParamModel);

    open spec fn view(&self) -> (Seq<char>, ParamModel) {
        (self.name@, self.value@)
    }
}

/// The views of the parameters of a call.
pub open spec fn param_views(params: Seq<Param>) -> Seq<(Seq<char>, ParamModel)> {
    Seq::new(params.len(), |i: int| params[i]@)
}

/// A call as the planner sends it: the tool's name and its parameters.
#[derive(Clone, Debug, PartialEq, Eq)]
pub struct ToolCall {
    pub name: String,
    pub params: Vec<Param>,
}

impl View for ToolCall {
    type V = (Seq<char>, Seq<(Seq<char>, ParamModel)>);

    open spec fn view(&self) -> (Seq<char>, Seq<(Seq<char>, ParamModel)>) {
        (self.name@, param_views(self.params@))
    }
}

/// The parameters that the tools know.
#[derive(Clone, Copy, Debug, PartialEq, Eq, Structural)]
pub enum ParamName {
    Filename,
    Content,
    Command,
    Args,
    Detailed,
}

impl ParamName {
    /// The parameter's name as the planner writes it.
    pub open spec fn text(self) -> Seq<char> {
        match self {
            ParamName::Filename => "filename"@,
            ParamName::Content => "content"@,
            ParamName::Command => "command"@,
            ParamName::Args => "args"@,
            ParamName::Detailed => "detailed"@,
        }
    }

    /// The parameter's name as the planner writes it.
    pub fn as_str(&self) -> (name: &'static str)
        ensures
            name@ == self.text(),
    {
        match self {
            ParamName::Filename => "filename",
            ParamName::Content => "content",
            ParamName::Command => "command",
            ParamName::Args => "args",
            ParamName::Detailed => "detailed",
        }
    }
}

/// Why a call is turned down.
#[derive(Clone, Copy, Debug, PartialEq, Eq, Structural)]
pub enum CallError {
    /// The call names no tool that there is.
    UnknownTool,
    /// A parameter that the tool needs is not there.
    Missing(ParamName),
    /// A parameter is there with a value of the wrong type.
    Mistyped(ParamName),
    /// A path or a program is the empty string.
    Empty(ParamName),
}

impl CallError {
    /// The message of the failure that the planner gets.
    pub open spec fn message_text(self) -> Seq<char> {
        match self {
            CallError::UnknownTool => "未知工具"@,
            CallError::Missing(name) => "缺少参数: "@ + name.text(),
            CallError::Mistyped(name) => "参数类型错误: "@ + name.text(),
            CallError::Empty(name) => "参数为空: "@ + name.text(),
        }
    }

    /// The message of the failure that the planner gets.
    pub fn message(&self) -> (text: String)
        ensures
            text@ == self.message_text(),
    {
        match self {
            CallError::UnknownTool => String::from_str("未知工具"),
            CallError::Missing(name) => prefixed("缺少参数: ", name.as_str()),
            CallError::Mistyped(name) => prefixed("参数类型错误: ", name.as_str()),
            CallError::Empty(name) => prefixed("参数为空: ", name.as_str()),
        }
    }
}

/// The value of the first parameter with a name, if there is one.
pub open spec fn lookup(params: Seq<(Seq<char>, ParamModel)>, name: Seq<char>) -> Option<
    ParamModel,
>
    decreases params.len(),
{
    if params.len() == 0 {
        None
    } else if params.first().0 == name {
        Some(params.first().1)
    } else {
        lookup(params.drop_first(), name)
    }
}

/// The text of a parameter that must be there.
pub open spec fn required_text(params: Seq<(Seq<char>, ParamModel)>, name: ParamName) -> Result<
    Seq<char>,
    CallError,
> {
    match lookup(params, name.text()) {
        Some(ParamModel::Text(text)) => Ok(text),
        Some(_) => Err(CallError::Mistyped(name)),
        None => Err(CallError::Missing(name)),
    }
}

/// The text of a parameter that must be there and must not be empty.
pub open spec fn required_name(params: Seq<(Seq<char>, ParamModel)>, name: ParamName) -> Result<
    Seq<char>,
    CallError,
> {
    match required_text(params, name) {
        Ok(text) => if text.len() == 0 {
            Err(CallError::Empty(name))
        } else {
            Ok(text)
        },
        Err(error) => Err(error),
    }
}

/// The flag `detailed`; left out or null, it is off.
pub open spec fn detailed_flag(params: Seq<(Seq<char>, ParamModel)>) -> Result<bool, CallError> {
    match lookup(params, ParamName::Detailed.text()) {
        Some(ParamModel::Flag(flag)) => Ok(flag),
        Some(ParamModel::Null) => Ok(false),
        None => Ok(false),
        Some(_) => Err(CallError::Mistyped(ParamName::Detailed)),
    }
}

/// The arguments of a command; left out or null, there are none.
pub open spec fn argument_list(params: Seq<(Seq<char>, ParamModel)>) -> Result<
    Seq<Seq<char>>,
    CallError,
> {
    match lookup(params, ParamName::Args.text()) {
        Some(ParamModel::List(items)) => Ok(items),
        Some(ParamModel::Null) => Ok(Seq::empty()),
        None => Ok(Seq::empty()),
        Some(_) => Err(CallError::Mistyped(ParamName::Args)),
    }
}

/// The request that a call stands for, or why it stands for none. The
/// parameters are read in the order in which the tool declares them, and
/// the first one at fault is reported. A file's content is the text's
/// UTF-8 encoding.
pub open spec fn parsed(call: (Seq<char>, Seq<(Seq<char>, ParamModel)>)) -> Result<
    RequestModel,
    CallError,
> {
    let (tool, params) = call;
    if tool == "create_file"@ {
        match (required_name(params, ParamName::Filename), required_text(params, ParamName::Content)) {
            (Err(error), _) => Err(error),
            (Ok(_), Err(error)) => Err(error),
            (Ok(path), Ok(content)) => Ok(
                RequestModel::CreateFile { path, content: encode_utf8(content) },
            ),
        }
    } else if tool == "read_file"@ {
        match required_name(params, ParamName::Filename) {
            Err(error) => Err(error),
            Ok(path) => Ok(RequestModel::ReadFile { path }),
        }
    } else if tool == "delete_file"@ {
        match required_name(params, ParamName::Filename) {
            Err(error) => Err(error),
            Ok(path) => Ok(RequestModel::DeleteFile { path }),
        }
    } else if tool == "list_files"@ {
        match detailed_flag(params) {
            Err(error) => Err(error),
            Ok(detailed) => Ok(RequestModel::ListFiles { detailed }),
        }
    } else if tool == "run_command"@ {
        match (required_name(params, ParamName::Command), argument_list(params)) {
            (Err(error), _) => Err(error),
            (Ok(_), Err(error)) => Err(error),
            (Ok(program), Ok(args)) => Ok(RequestModel::RunCommand { program, args }),
        }
    } else {
        Err(CallError::UnknownTool)
    }
}

/// Tells whether two strings hold the same text.
pub fn same_text(a: &str, b: &str) -> (r: bool)
    ensures
        r == (a@ == b@),
{
    same_chars(&chars_of(a), &chars_of(b))
}

impl ToolCall {
    /// The value of the first parameter with a name, if there is one.
    pub fn find(&self, name: &str) -> (found: Option<&ParamValue>)
        ensures
            match found {
                Some(value) => lookup(self@.1, name@) == Some(value@),
                None => lookup(self@.1, name@) is None,
            },
    {
        let ghost all = param_views(self.params@);
        let mut i: usize = 0;
        assert(all.subrange(0, all.len() as int) =~= all);
        while i < self.params.len()
            invariant
                i <= self.params.len(),
                all == param_views(self.params@),
                lookup(all, name@) == lookup(all.subrange(i as int, all.len() as int), name@),
            decreases self.params.len() - i,
        {
            let ghost rest = all.subrange(i as int, all.len() as int);
            assert(rest.first() == self.params@[i as int]@);
            if same_text(self.params[i].name.as_str(), name) {
                return Some(&self.params[i].value);
            }
            assert(rest.drop_first() =~= all.subrange(i + 1, all.len() as int));
            i = i + 1;
        }
        None
    }

    /// The text of a parameter that must be there.
    fn text_of(&self, name: ParamName) -> (r: Result<&str, CallError>)
        ensures
            match r {
                Ok(text) => required_text(self@.1, name) == Ok::<Seq<char>, CallError>(text@),
                Err(error) => required_text(self@.1, name) == Err::<Seq<char>, CallError>(error),
            },
    {
        match self.find(name.as_str()) {
            Some(ParamValue::Text(text)) => Ok(text.as_str()),
            Some(_) => Err(CallError::Mistyped(name)),
            None => Err(CallError::Missing(name)),
        }
    }

    /// The text of a parameter that must be there and must not be empty.
    fn name_of(&self, name: ParamName) -> (r: Result<String, CallError>)
        ensures
            match r {
                Ok(text) => required_name(self@.1, name) == Ok::<Seq<char>, CallError>(text@),
                Err(error) => required_name(self@.1, name) == Err::<Seq<char>, CallError>(error),
            },
    {
        match self.text_of(name) {
            Ok(text) => if text.is_empty() {
                Err(CallError::Empty(name))
            } else {
                Ok(String::from_str(text))
            },
            Err(error) => Err(error),
        }
    }

    /// Reads the call as a request.
    pub fn parse(&self) -> (r: Result<ActionRequest, CallError>)
        ensures
            match r {
                Ok(request) => parsed(self@) == Ok::<RequestModel, CallError>(request@),
                Err(error) => parsed(self@) == Err::<RequestModel, CallError>(error),
            },
            r matches Ok(request) ==> request@.well_formed(),
    {
        let tool = self.name.as_str();
        if same_text(tool, "create_file") {
            let path = match self.name_of(ParamName::Filename) {
                Ok(path) => path,
                Err(error) => { return Err(error); },
            };
            let content = match self.text_of(ParamName::Content) {
                Ok(content) => content.as_bytes_vec(),
                Err(error) => { return Err(error); },
            };
            Ok(ActionRequest::CreateFile { path, content })
        } else if same_text(tool, "read_file") {
            match self.name_of(ParamName::Filename) {
                Ok(path) => Ok(ActionRequest::ReadFile { path }),
                Err(error) => Err(error),
            }
        } else if same_text(tool, "delete_file") {
            match self.name_of(ParamName::Filename) {
                Ok(path) => Ok(ActionRequest::DeleteFile { path }),
                Err(error) => Err(error),
            }
        } else if same_text(tool, "list_files") {
            match self.find(ParamName::Detailed.as_str()) {
                Some(ParamValue::Flag(flag)) => Ok(ActionRequest::ListFiles { detailed: *flag }),
                Some(ParamValue::Null) => Ok(ActionRequest::ListFiles { detailed: false }),
                None => Ok(ActionRequest::ListFiles { detailed: false }),
                Some(_) => Err(CallError::Mistyped(ParamName::Detailed)),
            }
        } else if same_text(tool, "run_command") {
            let program = match self.name_of(ParamName::Command) {
                Ok(program) => program,
                Err(error) => { return Err(error); },
            };
            let args = match self.find(ParamName::Args.as_str()) {
                Some(ParamValue::List(items)) => copy_words(items),
                Some(ParamValue::Null) => Vec::new(),
                None => Vec::new(),
                Some(_) => { return Err(CallError::Mistyped(ParamName::Args)); },
            };
            assert(texts(Seq::<String>::empty()) =~= Seq::<Seq<char>>::empty());
            Ok(ActionRequest::RunCommand { program, args })
        } else {
            Err(CallError::UnknownTool)
        }
    }
}

/// The outcome of a call that is turned down.
pub fn rejection(error: CallError) -> (outcome: ActionOutcome)
    ensures
        outcome@ == (OutcomeModel::Failed { message: error.message_text() }),
{
    ActionOutcome::Failed { message: error.message() }
}

/// Takes a call from the planner. A call that stands for a request starts
/// its mediation and gets its first step; any other gets its outcome, a
/// failure, at once.
pub fn dispatch(call: &ToolCall) -> (r: Result<(Mediation, Step), ActionOutcome>)
    ensures
        match parsed(call@) {
            Ok(request) => r matches Ok(started) && started.0.request() == request && (
                started.0.phase(),
                started.1@,
            ) == request.opening(),
            Err(error) => r matches Err(outcome) && outcome@ == (OutcomeModel::Failed {
                message: error.message_text(),
            }),
        },
{
    match call.parse() {
        Ok(request) => Ok(Mediation::begin(request)),
        Err(error) => Err(rejection(error)),
    }
}

} // verus!
