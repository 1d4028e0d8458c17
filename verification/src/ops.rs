//! The operations on the instances that were found, and what each reports.

use vstd::prelude::*;
use vstd::string::StringExecFns;
use crate::error::Error;
use crate::idset::texts;
use crate::schedule::Tag;
use crate::text::{join_ids, joined, spaced};

verus! {

/// The state of an instance, as far as it is read: its name, if it has one.
#[derive(Debug, Clone, PartialEq, Eq)]
pub struct InstanceState {
    pub name: Option<String>,
}

/// The change of state that a lifecycle call reports for one instance.
#[derive(Debug, Clone, PartialEq, Eq)]
pub struct StateChange {
    pub instance_id: Option<String>,
    pub previous_state: Option<InstanceState>,
    pub current_state: Option<InstanceState>,
}

/// What is done with the instances that were found.
#[derive(Debug, Clone, PartialEq, Eq)]
pub enum Operation {
    /// Their identifiers are printed.
    Print,
    /// They are rebooted.
    Reboot,
    /// They are tagged with the moment before which they are not to be stopped.
    SetNoStopBefore(Tag),
    /// They are started.
    Start,
    /// They are stopped.
    Stop,
    /// They are terminated.
    Terminate,
}

/// The operations by name.
#[derive(Debug, Clone, Copy, PartialEq, Eq, Structural)]
pub enum OperationKind {
    Print,
    Reboot,
    SetNoStopBefore,
    Start,
    Stop,
    Terminate,
}

/// The operation that a word of the command line names.
pub open spec fn kind_of(name: Seq<char>) -> Option<OperationKind> {
    if name == "print"@ {
        Some(OperationKind::Print)
    } else if name == "reboot"@ {
        Some(OperationKind::Reboot)
    } else if name == "set-no-stop-before"@ {
        Some(OperationKind::SetNoStopBefore)
    } else if name == "start"@ {
        Some(OperationKind::Start)
    } else if name == "stop"@ {
        Some(OperationKind::Stop)
    } else if name == "terminate"@ {
        Some(OperationKind::Terminate)
    } else {
        None
    }
}

/// Tells whether two texts are the same.
fn same(a: &str, b: &str) -> (yes: bool)
    ensures
        yes == (a@ == b@),
{
    String::from_str(a) == String::from_str(b)
}

/// The operation that a word of the command line names, if it names one.
pub fn kind_named(name: &str) -> (kind: Option<OperationKind>)
    ensures
        kind == kind_of(name@),
{
    if same(name, "print") {
        Some(OperationKind::Print)
    } else if same(name, "reboot") {
        Some(OperationKind::Reboot)
    } else if same(name, "set-no-stop-before") {
        Some(OperationKind::SetNoStopBefore)
    } else if same(name, "start") {
        Some(OperationKind::Start)
    } else if same(name, "stop") {
        Some(OperationKind::Stop)
    } else if same(name, "terminate") {
        Some(OperationKind::Terminate)
    } else {
        None
    }
}

/// The complaint about a word that names no operation.
pub fn unknown_operation(name: &str) -> (error: Error)
    ensures
        error matches Error::InvalidUsage(m) && m@ == "Unknown operation "@ + name@,
{
    Error::InvalidUsage(joined("Unknown operation ", name))
}

/// The first line of the usage text.
pub open spec fn usage_brief_text() -> Seq<char> {
    "Usage: ec2-by-name [options] <operation> <instance-name>..."@
}

/// The first line of the usage text.
pub fn usage_brief() -> (line: &'static str)
    ensures
        line@ == usage_brief_text(),
{
    "Usage: ec2-by-name [options] <operation> <instance-name>..."
}

/// The part of the usage text that lists the operations.
pub open spec fn operations_help_text() -> Seq<char> {
    "Operations:\n    print <name>...        Print instance ids\n    reboot <name>...       Reboot instances\n    set-no-stop-before --time <time> | --duration <duration>\n                           Set the NoStopBefore tag to the time or duration\n    start <name>...        Start instances\n    stop <name>...         Stop instances\n    terminate <name>...    Terminate instances\n"@
}

/// The part of the usage text that lists the operations.
pub fn operations_help() -> (text: &'static str)
    ensures
        text@ == operations_help_text(),
{
    "Operations:\n    print <name>...        Print instance ids\n    reboot <name>...       Reboot instances\n    set-no-stop-before --time <time> | --duration <duration>\n                           Set the NoStopBefore tag to the time or duration\n    start <name>...        Start instances\n    stop <name>...         Stop instances\n    terminate <name>...    Terminate instances\n"
}

impl InstanceState {
    /// The name of the state, or the empty text where it has none.
    pub open spec fn text(state: Option<InstanceState>) -> Seq<char> {
        match state {
            Some(InstanceState { name: Some(name) }) => name@,
            _ => Seq::empty(),
        }
    }
}

/// The name of a state; the empty text for a state without a name, and
/// where there is no state.
pub fn instance_state_to_string(state: &Option<InstanceState>) -> (name: String)
    ensures
        name@ == InstanceState::text(*state),
{
    match state {
        Some(InstanceState { name: Some(name) }) => name.clone(),
        _ => String::new(),
    }
}

impl StateChange {
    /// The identifier, or the empty text where there is none.
    pub open spec fn id_text(&self) -> Seq<char> {
        match self.instance_id {
            Some(id) => id@,
            None => Seq::empty(),
        }
    }

    /// The line that reports the change.
    pub open spec fn line(&self) -> Seq<char> {
        self.id_text() + ": "@ + InstanceState::text(self.previous_state) + " -> "@
            + InstanceState::text(self.current_state)
    }
}

/// The line that reports a change: the identifier, the state before and
/// the state after.
pub fn state_change_line(change: &StateChange) -> (line: String)
    ensures
        line@ == change.line(),
{
    let mut line = match &change.instance_id {
        Some(id) => id.clone(),
        None => String::new(),
    };
    let previous = instance_state_to_string(&change.previous_state);
    let current = instance_state_to_string(&change.current_state);
    line.append(": ");
    line.append(previous.as_str());
    line.append(" -> ");
    line.append(current.as_str());
    line
}

/// The lines that report a list of changes.
pub open spec fn change_lines(changes: Option<Vec<StateChange>>) -> Seq<Seq<char>> {
    match changes {
        Some(list) => Seq::new(list.len() as nat, |i: int| list[i].line()),
        None => Seq::empty(),
    }
}

/// The lines that report the changes of a lifecycle call: one for each
/// instance that the call reports, in its order, and none for any other.
pub fn state_change_lines(changes: &Option<Vec<StateChange>>) -> (lines: Vec<String>)
    ensures
        texts(lines@) == change_lines(*changes),
{
    let mut lines: Vec<String> = Vec::new();
    match changes {
        None => {},
        Some(list) => {
            let n = list.len();
            let mut i: usize = 0;
            while i < n
                invariant
                    i <= n,
                    n == list.len(),
                    lines.len() == i,
                    forall|k: int| 0 <= k < i ==> (#[trigger] lines[k])@ == list[k].line(),
                decreases n - i,
            {
                lines.push(state_change_line(&list[i]));
                i = i + 1;
            }
        },
    }
    lines
}

impl Operation {
    /// What an operation prints once its call has succeeded: the list of the
    /// instances for printing, which calls nothing; the confirmation for a
    /// reboot and for tagging; and for the others the changes of state that
    /// the call reported, and nothing else.
    pub open spec fn output(&self, ids: Seq<Seq<char>>, changes: Option<Vec<StateChange>>) -> Seq<
        Seq<char>,
    > {
        match self {
            Operation::Print => seq![spaced(ids)],
            Operation::Reboot => seq![
                "Rebooting instances: "@ + spaced(ids),
                "Rebooted instances: "@ + spaced(ids),
            ],
            Operation::SetNoStopBefore(tag) => seq![
                "Set NoStopBefore to "@ + tag.value@ + " for instances: "@ + spaced(ids),
            ],
            Operation::Start | Operation::Stop | Operation::Terminate => change_lines(changes),
        }
    }

    /// Tells whether the operation calls the service. Printing does not.
    pub fn makes_call(&self) -> (yes: bool)
        ensures
            yes == !(self is Print),
    {
        match self {
            Operation::Print => false,
            _ => true,
        }
    }

    /// All that the operation prints, given how its call ended (for
    /// printing, which makes no call, any answer without a failure). After
    /// a failed call nothing is printed, and the failure is handed on
    /// unchanged. After a call that succeeded the lines are those of
    /// `output`, in their order.
    pub fn output_lines(
        &self,
        ids: &Vec<String>,
        response: Result<Option<Vec<StateChange>>, Error>,
    ) -> (lines: Result<Vec<String>, Error>)
        ensures
            match response {
                Err(e) => lines == Err::<Vec<String>, Error>(e),
                Ok(changes) => lines matches Ok(list) && texts(list@) == self.output(
                    texts(ids@),
                    changes,
                ),
            },
    {
        let changes = match response {
            Err(e) => {
                return Err(e);
            },
            Ok(changes) => changes,
        };
        let mut lines: Vec<String> = Vec::new();
        match self {
            Operation::Print => {
                lines.push(join_ids(ids));
            },
            Operation::Reboot => {
                let list = join_ids(ids);
                lines.push(joined("Rebooting instances: ", list.as_str()));
                lines.push(joined("Rebooted instances: ", list.as_str()));
            },
            Operation::SetNoStopBefore(tag) => {
                let list = join_ids(ids);
                let mut line = joined("Set NoStopBefore to ", tag.value.as_str());
                line.append(" for instances: ");
                line.append(list.as_str());
                lines.push(line);
            },
            Operation::Start | Operation::Stop | Operation::Terminate => {
                lines = state_change_lines(&changes);
            },
        }
        Ok(lines)
    }
}

} // verus!
