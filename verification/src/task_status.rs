use vstd::prelude::*;

use crate::text::same_text;

verus! {

/// Where a task stands in its life.
#[derive(Debug, Clone, Copy, PartialEq, Eq, Structural)]
pub enum TaskStatus {
    Pending,
    InProcess,
    Done,
    Cancel,
}

/// The text under which a status is stored and sent.
pub open spec fn status_text(status: TaskStatus) -> Seq<char> {
    match status {
        TaskStatus::Pending => "pending"@,
        TaskStatus::InProcess => "in_process"@,
        TaskStatus::Done => "done"@,
        TaskStatus::Cancel => "cancel"@,
    }
}

impl From<TaskStatus> for String {
    fn from(value: TaskStatus) -> (text: String)
        ensures
            text@ == status_text(value),
    {
        match value {
            TaskStatus::Pending => String::from_str("pending"),
            TaskStatus::InProcess => String::from_str("in_process"),
            TaskStatus::Done => String::from_str("done"),
            TaskStatus::Cancel => String::from_str("cancel"),
        }
    }
}

impl vstd::std_specs::convert::FromSpecImpl<TaskStatus> for String {
    open spec fn obeys_from_spec() -> bool {
        false
    }

    open spec fn from_spec(v: TaskStatus) -> String {
        arbitrary()
    }
}

/// The status stored under `text`, if any.
pub open spec fn status_named(text: Seq<char>) -> Option<TaskStatus> {
    if text == "pending"@ {
        Some(TaskStatus::Pending)
    } else if text == "in_process"@ {
        Some(TaskStatus::InProcess)
    } else if text == "done"@ {
        Some(TaskStatus::Done)
    } else if text == "cancel"@ {
        Some(TaskStatus::Cancel)
    } else {
        None
    }
}

/// The message given for a text that names no status.
pub open spec fn unknown_status_message(text: Seq<char>) -> Seq<char> {
    "Unknown task status: "@ + text
}

impl TryFrom<String> for TaskStatus {
    type Error = String;

    fn try_from(value: String) -> (parsed: Result<TaskStatus, String>)
        ensures
            match status_named(value@) {
                Some(status) => parsed == Ok::<TaskStatus, String>(status),
                None => parsed matches Err(message) && message@ == unknown_status_message(value@),
            },
    {
        let text = value.as_str();
        if same_text(text, "pending") {
            Ok(TaskStatus::Pending)
        } else if same_text(text, "in_process") {
            Ok(TaskStatus::InProcess)
        } else if same_text(text, "done") {
            Ok(TaskStatus::Done)
        } else if same_text(text, "cancel") {
            Ok(TaskStatus::Cancel)
        } else {
            Err(String::from_str("Unknown task status: ").concat(text))
        }
    }
}

impl vstd::std_specs::convert::TryFromSpecImpl<String> for TaskStatus {
    open spec fn obeys_try_from_spec() -> bool {
        false
    }

    open spec fn try_from_spec(v: String) -> Result<TaskStatus, String> {
        arbitrary()
    }
}

/// Reading back the text of a status gives that status.
pub proof fn lemma_status_text_round_trip(status: TaskStatus)
    ensures
        status_named(status_text(status)) == Some(status),
{
    reveal_strlit("pending");
    reveal_strlit("in_process");
    reveal_strlit("done");
    reveal_strlit("cancel");
    assert("pending"@.len() == 7 && "in_process"@.len() == 10);
    assert("done"@.len() == 4 && "cancel"@.len() == 6);
}

/// A text that names a status is exactly the text of that status.
pub proof fn lemma_status_named_is_text(text: Seq<char>)
    ensures
        status_named(text) matches Some(status) ==> status_text(status) == text,
{
}

/// Distinct statuses are stored under distinct texts.
pub proof fn lemma_status_text_injective(a: TaskStatus, b: TaskStatus)
    ensures
        status_text(a) == status_text(b) ==> a == b,
{
    lemma_status_text_round_trip(a);
    lemma_status_text_round_trip(b);
}

} // verus!
