//! What each command asks of its collaborators, and what a failed request means.

use vstd::prelude::*;
use vstd::string::*;
use crate::command::UiCommand;

verus! {

/// One request, ready to be sent: a call on the remote session, or a request to
/// the shell-integration collaborator.
#[derive(Debug)]
pub enum Request {
    /// Run an editor command line.
    Command(String),
    /// Ask the remote session to resize its surface.
    UiTryResize { width: i64, height: i64 },
    /// Forward input notation.
    Input(String),
    /// Forward a mouse event.
    InputMouse { button: String, action: String, modifier: String, grid: i64, row: i64, col: i64 },
    /// Add the shell's context-menu entries.
    RegisterShellEntries,
    /// Remove the shell's context-menu entries.
    UnregisterShellEntries,
}

/// A request as a mathematical value.
pub ghost enum RequestView {
    Command(Seq<char>),
    UiTryResize { width: int, height: int },
    Input(Seq<char>),
    InputMouse {
        button: Seq<char>,
        action: Seq<char>,
        modifier: Seq<char>,
        grid: int,
        row: int,
        col: int,
    },
    RegisterShellEntries,
    UnregisterShellEntries,
}

impl View for Request {
    type V = RequestView;

    open spec fn view(&self) -> RequestView {
        match *self {
            Request::Command(line) => RequestView::Command(line@),
            Request::UiTryResize { width, height } => RequestView::UiTryResize {
                width: width as int,
                height: height as int,
            },
            Request::Input(keys) => RequestView::Input(keys@),
            Request::InputMouse { button, action, modifier, grid, row, col } => RequestView::InputMouse {
                button: button@,
                action: action@,
                modifier: modifier@,
                grid: grid as int,
                row: row as int,
                col: col as int,
            },
            Request::RegisterShellEntries => RequestView::RegisterShellEntries,
            Request::UnregisterShellEntries => RequestView::UnregisterShellEntries,
        }
    }
}

/// What a failed request means for the execution that made it.
#[derive(Clone, Copy, Debug, PartialEq, Eq, Structural)]
pub enum FailurePolicy {
    /// The execution ends abnormally.
    Fatal,
    /// The failure is discarded.
    BestEffort,
    /// The failure is reported as a diagnostic, and the execution goes on.
    Logged,
}

/// How one execution ended.
#[derive(Clone, Copy, Debug, PartialEq, Eq, Structural)]
pub enum Outcome {
    Completed,
    /// The request failed and nobody is told.
    Ignored,
    /// The request failed and a diagnostic was written.
    Reported,
    /// The request failed and the execution ends abnormally, with its complaint.
    Aborted,
}

/// The execution of one command: its request, what a failure means, and the
/// text an abnormal end carries (empty unless the policy is `Fatal`).
#[derive(Debug)]
pub struct Execution {
    pub request: Request,
    pub policy: FailurePolicy,
    pub complaint: String,
}

/// An execution as a mathematical value.
pub ghost struct ExecutionView {
    pub request: RequestView,
    pub policy: FailurePolicy,
    pub complaint: Seq<char>,
}

impl View for Execution {
    type V = ExecutionView;

    open spec fn view(&self) -> ExecutionView {
        ExecutionView { request: self.request@, policy: self.policy, complaint: self.complaint@ }
    }
}

/// A dimension raised to its minimum.
pub open spec fn floored(value: u32, minimum: u32) -> int {
    if value < minimum {
        minimum as int
    } else {
        value as int
    }
}

/// A surface identifier as the signed 64-bit integer with the same bits.
pub open spec fn wire_id(grid_id: u64) -> int {
    if grid_id <= i64::MAX as u64 {
        grid_id as int
    } else {
        grid_id as int - 0x1_0000_0000_0000_0000
    }
}

/// The editor command line that runs the user's autocommand for `event`, if one
/// is registered.
pub open spec fn autocommand_line(event: Seq<char>) -> Seq<char> {
    "if exists('#"@ + event + "') | doautocmd <nomodeline> "@ + event + " | endif"@
}

/// The request that a command makes.
pub open spec fn request_of(command: UiCommand) -> RequestView {
    match command {
        UiCommand::Quit => RequestView::Command("qa!"@),
        UiCommand::Resize { width, height } => RequestView::UiTryResize {
            width: floored(width, 10),
            height: floored(height, 3),
        },
        UiCommand::Keyboard(keys) => RequestView::Input(keys@),
        UiCommand::MouseButton { action, grid_id, position } => RequestView::InputMouse {
            button: "left"@,
            action: action@,
            modifier: ""@,
            grid: wire_id(grid_id),
            row: position.1 as int,
            col: position.0 as int,
        },
        UiCommand::Scroll { direction, grid_id, position } => RequestView::InputMouse {
            button: "wheel"@,
            action: direction@,
            modifier: ""@,
            grid: wire_id(grid_id),
            row: position.1 as int,
            col: position.0 as int,
        },
        UiCommand::Drag { grid_id, position } => RequestView::InputMouse {
            button: "left"@,
            action: "drag"@,
            modifier: ""@,
            grid: wire_id(grid_id),
            row: position.1 as int,
            col: position.0 as int,
        },
        UiCommand::FileDrop(path) => RequestView::Command("e "@ + path@),
        UiCommand::FocusLost => RequestView::Command(autocommand_line("FocusLost"@)),
        UiCommand::FocusGained => RequestView::Command(autocommand_line("FocusGained"@)),
        UiCommand::RegisterRightClick => RequestView::RegisterShellEntries,
        UiCommand::UnregisterRightClick => RequestView::UnregisterShellEntries,
    }
}

/// What a failure of a command's request means.
pub open spec fn policy_of(command: UiCommand) -> FailurePolicy {
    match command {
        UiCommand::Quit | UiCommand::FileDrop(_) => FailurePolicy::BestEffort,
        UiCommand::RegisterRightClick | UiCommand::UnregisterRightClick => FailurePolicy::Logged,
        _ => FailurePolicy::Fatal,
    }
}

/// The text with which a command's execution ends abnormally.
pub open spec fn complaint_of(command: UiCommand) -> Seq<char> {
    match command {
        UiCommand::Resize { .. } => "Resize failed"@,
        UiCommand::Keyboard(_) => "Input failed"@,
        UiCommand::MouseButton { .. } => "Mouse Input Failed"@,
        UiCommand::Scroll { .. } => "Mouse Scroll Failed"@,
        UiCommand::Drag { .. } => "Mouse Drag Failed"@,
        UiCommand::FocusLost => "Focus Lost Failed"@,
        UiCommand::FocusGained => "Focus Gained Failed"@,
        _ => Seq::<char>::empty(),
    }
}

/// The execution of a command.
pub open spec fn execution_of(command: UiCommand) -> ExecutionView {
    ExecutionView {
        request: request_of(command),
        policy: policy_of(command),
        complaint: complaint_of(command),
    }
}

/// How an execution ends, given its policy and whether its request succeeded.
pub open spec fn outcome_of(policy: FailurePolicy, succeeded: bool) -> Outcome {
    if succeeded {
        Outcome::Completed
    } else {
        match policy {
            FailurePolicy::Fatal => Outcome::Aborted,
            FailurePolicy::BestEffort => Outcome::Ignored,
            FailurePolicy::Logged => Outcome::Reported,
        }
    }
}

fn raise_to(value: u32, minimum: u32) -> (raised: i64)
    ensures
        raised == floored(value, minimum),
{
    if value < minimum {
        minimum as i64
    } else {
        value as i64
    }
}

fn grid_on_wire(grid_id: u64) -> (id: i64)
    ensures
        id == wire_id(grid_id),
{
    if grid_id <= 0x7fff_ffff_ffff_ffff {
        grid_id as i64
    } else {
        let low: u64 = grid_id - 0x8000_0000_0000_0000;
        (low as i64) + i64::MIN
    }
}

fn autocommand(event: &str) -> (line: String)
    ensures
        line@ == autocommand_line(event@),
{
    let mut line = String::from_str("if exists('#");
    line.append(event);
    line.append("') | doautocmd <nomodeline> ");
    line.append(event);
    line.append(" | endif");
    line
}

fn mouse_request(button: &str, action: String, grid_id: u64, position: (u32, u32)) -> (request:
    Request)
    ensures
        request@ == (RequestView::InputMouse {
            button: button@,
            action: action@,
            modifier: ""@,
            grid: wire_id(grid_id),
            row: position.1 as int,
            col: position.0 as int,
        }),
{
    Request::InputMouse {
        button: String::from_str(button),
        action,
        modifier: String::from_str(""),
        grid: grid_on_wire(grid_id),
        row: position.1 as i64,
        col: position.0 as i64,
    }
}

fn fatal(request: Request, complaint: &str) -> (execution: Execution)
    ensures
        execution@ == (ExecutionView {
            request: request@,
            policy: FailurePolicy::Fatal,
            complaint: complaint@,
        }),
{
    Execution { request, policy: FailurePolicy::Fatal, complaint: String::from_str(complaint) }
}

fn lenient(request: Request, policy: FailurePolicy) -> (execution: Execution)
    ensures
        execution@ == (ExecutionView {
            request: request@,
            policy,
            complaint: Seq::<char>::empty(),
        }),
{
    Execution { request, policy, complaint: String::new() }
}

impl UiCommand {
    /// Turns the command into the one request it makes, with the policy for a
    /// failure of that request. Dimensions of a resize are raised to 10 columns
    /// and 3 rows; text payloads are passed on as they are.
    pub fn execute(self) -> (execution: Execution)
        ensures
            execution@ == execution_of(self),
    {
        match self {
            UiCommand::Quit => lenient(
                Request::Command(String::from_str("qa!")),
                FailurePolicy::BestEffort,
            ),
            UiCommand::Resize { width, height } => fatal(
                Request::UiTryResize { width: raise_to(width, 10), height: raise_to(height, 3) },
                "Resize failed",
            ),
            UiCommand::Keyboard(keys) => fatal(Request::Input(keys), "Input failed"),
            UiCommand::MouseButton { action, grid_id, position } => fatal(
                mouse_request("left", action, grid_id, position),
                "Mouse Input Failed",
            ),
            UiCommand::Scroll { direction, grid_id, position } => fatal(
                mouse_request("wheel", direction, grid_id, position),
                "Mouse Scroll Failed",
            ),
            UiCommand::Drag { grid_id, position } => fatal(
                mouse_request("left", String::from_str("drag"), grid_id, position),
                "Mouse Drag Failed",
            ),
            UiCommand::FileDrop(path) => lenient(
                Request::Command(String::from_str("e ").concat(path.as_str())),
                FailurePolicy::BestEffort,
            ),
            UiCommand::FocusLost => fatal(
                Request::Command(autocommand("FocusLost")),
                "Focus Lost Failed",
            ),
            UiCommand::FocusGained => fatal(
                Request::Command(autocommand("FocusGained")),
                "Focus Gained Failed",
            ),
            UiCommand::RegisterRightClick => lenient(
                Request::RegisterShellEntries,
                FailurePolicy::Logged,
            ),
            UiCommand::UnregisterRightClick => lenient(
                Request::UnregisterShellEntries,
                FailurePolicy::Logged,
            ),
        }
    }
}

impl Execution {
    /// How this execution ends once its request has succeeded or failed. A
    /// failure aborts only where the policy is `Fatal`.
    pub fn settle(&self, succeeded: bool) -> (outcome: Outcome)
        ensures
            outcome == outcome_of(self.policy, succeeded),
    {
        if succeeded {
            Outcome::Completed
        } else {
            match self.policy {
                FailurePolicy::Fatal => Outcome::Aborted,
                FailurePolicy::BestEffort => Outcome::Ignored,
                FailurePolicy::Logged => Outcome::Reported,
            }
        }
    }
}

/// A failed request ends its execution abnormally for exactly the commands
/// whose policy is `Fatal`: not for quit, a file drop, or a shell-integration
/// command. A request that succeeded always completes.
pub proof fn lemma_failure_policy(command: UiCommand)
    ensures
        outcome_of(policy_of(command), true) == Outcome::Completed,
        outcome_of(policy_of(command), false) == Outcome::Ignored <==> (command is Quit
            || command is FileDrop),
        outcome_of(policy_of(command), false) == Outcome::Reported <==> (command
            is RegisterRightClick || command is UnregisterRightClick),
        outcome_of(policy_of(command), false) == Outcome::Aborted <==> !(command is Quit
            || command is FileDrop || command is RegisterRightClick || command
            is UnregisterRightClick),
{
}

} // verus!
