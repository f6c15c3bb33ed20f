//! Action outcomes: what the planner is told of one request, and the flat
//! record of named fields in which it is told.

use crate::text::texts;
use vstd::prelude::*;

verus! {

/// The result of one request.
#[derive(Clone, Debug, PartialEq, Eq)]
pub enum ActionOutcome {
    /// The file was written; `size` is the number of bytes.
    Created { path: String, size: usize },
    /// The file was read.
    Read { path: String, content: String },
    /// The file was removed.
    Deleted,
    /// The working directory was listed, one entry per item.
    Listed { entries: Vec<String> },
    /// The command ran to its end. A code other than zero is a result, not
    /// a failure of the action; `None` stands for a process that ended
    /// without one.
    Ran { exit_code: Option<i32>, stdout: String, stderr: String },
    /// The operator said no.
    Cancelled { reason: String },
    /// The action could not be done.
    Failed { message: String },
}

/// An outcome as a mathematical value.
pub enum OutcomeModel {
    Created { path: Seq<char>, size: nat },
    Read { path: Seq<char>, content: Seq<char> },
    Deleted,
    Listed { entries: Seq<Seq<char>> },
    Ran { exit_code: Option<i32>, stdout: Seq<char>, stderr: Seq<char> },
    Cancelled { reason: Seq<char> },
    Failed { message: Seq<char> },
}

impl View for ActionOutcome {
    type V = OutcomeModel;

    open spec fn view(&self) -> OutcomeModel {
        match self {
            ActionOutcome::Created { path, size } => OutcomeModel::Created {
                path: path@,
                size: *size as nat,
            },
            ActionOutcome::Read { path, content } => OutcomeModel::Read {
                path: path@,
                content: content@,
            },
            ActionOutcome::Deleted => OutcomeModel::Deleted,
            ActionOutcome::Listed { entries } => OutcomeModel::Listed { entries: texts(entries@) },
            ActionOutcome::Ran { exit_code, stdout, stderr } => OutcomeModel::Ran {
                exit_code: *exit_code,
                stdout: stdout@,
                stderr: stderr@,
            },
            ActionOutcome::Cancelled { reason } => OutcomeModel::Cancelled { reason: reason@ },
            ActionOutcome::Failed { message } => OutcomeModel::Failed { message: message@ },
        }
    }
}

/// The marker that every outcome carries.
#[derive(Clone, Copy, Debug, PartialEq, Eq, Structural)]
pub enum Status {
    Success,
    Cancelled,
    Error,
}

impl Status {
    /// The marker as the planner reads it.
    pub open spec fn label_text(self) -> Seq<char> {
        match self {
            Status::Success => "success"@,
            Status::Cancelled => "cancelled"@,
            Status::Error => "error"@,
        }
    }

    /// The marker as the planner reads it.
    pub fn label(&self) -> (text: String)
        ensures
            text@ == self.label_text(),
    {
        match self {
            Status::Success => String::from_str("success"),
            Status::Cancelled => String::from_str("cancelled"),
            Status::Error => String::from_str("error"),
        }
    }
}

/// The value of one field of the record.
#[derive(Clone, Debug, PartialEq, Eq)]
pub enum FieldValue {
    Text(String),
    Unsigned(u64),
    Integer(i64),
    Null,
    List(Vec<String>),
}

/// A field's value as a mathematical value.
pub enum ValueModel {
    Text(Seq<char>),
    Number(int),
    Null,
    List(Seq<Seq<char>>),
}

impl View for FieldValue {
    type V = ValueModel;

    open spec fn view(&self) -> ValueModel {
        match self {
            FieldValue::Text(text) => ValueModel::Text(text@),
            FieldValue::Unsigned(n) => ValueModel::Number(*n as int),
            FieldValue::Integer(n) => ValueModel::Number(*n as int),
            FieldValue::Null => ValueModel::Null,
            FieldValue::List(items) => ValueModel::List(texts(items@)),
        }
    }
}

/// One named field of the record.
#[derive(Clone, Debug, PartialEq, Eq)]
pub struct Field {
    pub name: String,
    pub value: FieldValue,
}

impl View for Field {
    type V = (Seq<char>, ValueModel);

    open spec fn view(&self) -> (Seq<char>, ValueModel) {
        (self.name@, self.value@)
    }
}

/// The views of the fields of a record.
pub open spec fn field_views(fields: Seq<Field>) -> Seq<(Seq<char>, ValueModel)> {
    Seq::new(fields.len(), |i: int| fields[i]@)
}

impl OutcomeModel {
    /// Success for what was done; for a command, success only with exit
    /// code zero.
    pub open spec fn status(self) -> Status {
        match self {
            OutcomeModel::Ran { exit_code, .. } => if exit_code == Some(0i32) {
                Status::Success
            } else {
                Status::Error
            },
            OutcomeModel::Cancelled { .. } => Status::Cancelled,
            OutcomeModel::Failed { .. } => Status::Error,
            _ => Status::Success,
        }
    }

    /// The record: `status` first, then the fields of the variant.
    pub open spec fn record(self) -> Seq<(Seq<char>, ValueModel)> {
        let status = ("status"@, ValueModel::Text(self.status().label_text()));
        match self {
            OutcomeModel::Created { path, size } => seq![
                status,
                ("file"@, ValueModel::Text(path)),
                ("size"@, ValueModel::Number(size as int)),
            ],
            OutcomeModel::Read { path, content } => seq![
                status,
                ("content"@, ValueModel::Text(content)),
                ("filename"@, ValueModel::Text(path)),
            ],
            OutcomeModel::Deleted => seq![status],
            OutcomeModel::Listed { entries } => seq![status, ("entries"@, ValueModel::List(entries))],
            OutcomeModel::Ran { exit_code, stdout, stderr } => seq![
                status,
                (
                    "exit_code"@,
                    match exit_code {
                        Some(code) => ValueModel::Number(code as int),
                        None => ValueModel::Null,
                    },
                ),
                ("stdout"@, ValueModel::Text(stdout)),
                ("stderr"@, ValueModel::Text(stderr)),
            ],
            OutcomeModel::Cancelled { reason } => seq![status, ("message"@, ValueModel::Text(reason))],
            OutcomeModel::Failed { message } => seq![status, ("message"@, ValueModel::Text(message))],
        }
    }
}

/// A copy of a list of strings.
pub fn copy_words(words: &Vec<String>) -> (r: Vec<String>)
    ensures
        texts(r@) == texts(words@),
{
    let mut r: Vec<String> = Vec::new();
    let mut i: usize = 0;
    while i < words.len()
        invariant
            i <= words.len(),
            r.len() == i,
            forall|j: int| 0 <= j < i ==> r@[j]@ == words@[j]@,
        decreases words.len() - i,
    {
        r.push(words[i].clone());
        i = i + 1;
    }
    assert(texts(r@) =~= texts(words@));
    r
}

/// A field with a text for its value.
fn text_field(name: &str, text: &str) -> (field: Field)
    ensures
        field@ == (name@, ValueModel::Text(text@)),
{
    Field { name: String::from_str(name), value: FieldValue::Text(String::from_str(text)) }
}

impl ActionOutcome {
    /// The outcome's marker.
    pub fn status(&self) -> (status: Status)
        ensures
            status == self@.status(),
    {
        match self {
            ActionOutcome::Ran { exit_code, .. } => match exit_code {
                Some(code) => if *code == 0 {
                    Status::Success
                } else {
                    Status::Error
                },
                None => Status::Error,
            },
            ActionOutcome::Cancelled { .. } => Status::Cancelled,
            ActionOutcome::Failed { .. } => Status::Error,
            _ => Status::Success,
        }
    }

    /// The outcome as a flat record of named fields.
    pub fn record(&self) -> (fields: Vec<Field>)
        ensures
            field_views(fields@) == self@.record(),
    {
        let label = self.status().label();
        let mut fields: Vec<Field> = Vec::new();
        fields.push(text_field("status", label.as_str()));
        match self {
            ActionOutcome::Created { path, size } => {
                fields.push(text_field("file", path.as_str()));
                fields.push(
                    Field { name: String::from_str("size"), value: FieldValue::Unsigned(*size as u64) },
                );
            },
            ActionOutcome::Read { path, content } => {
                fields.push(text_field("content", content.as_str()));
                fields.push(text_field("filename", path.as_str()));
            },
            ActionOutcome::Deleted => {},
            ActionOutcome::Listed { entries } => {
                fields.push(
                    Field {
                        name: String::from_str("entries"),
                        value: FieldValue::List(copy_words(entries)),
                    },
                );
            },
            ActionOutcome::Ran { exit_code, stdout, stderr } => {
                let code = match exit_code {
                    Some(code) => FieldValue::Integer(*code as i64),
                    None => FieldValue::Null,
                };
                fields.push(Field { name: String::from_str("exit_code"), value: code });
                fields.push(text_field("stdout", stdout.as_str()));
                fields.push(text_field("stderr", stderr.as_str()));
            },
            ActionOutcome::Cancelled { reason } => {
                fields.push(text_field("message", reason.as_str()));
            },
            ActionOutcome::Failed { message } => {
                fields.push(text_field("message", message.as_str()));
            },
        }
        assert(field_views(fields@) =~= self@.record());
        fields
    }
}

} // verus!
