use command_bridge::command::UiCommand;
use command_bridge::execution::{Execution, FailurePolicy, Outcome, Request};
use command_bridge::shell::{register_diagnostics, unregister_diagnostics};

fn command_line(execution: &Execution) -> &str {
    match &execution.request {
        Request::Command(line) => line.as_str(),
        other => panic!("not a command line: {:?}", other),
    }
}

fn resize_of(width: u32, height: u32) -> (i64, i64) {
    match (UiCommand::Resize { width, height }).execute().request {
        Request::UiTryResize { width, height } => (width, height),
        other => panic!("not a resize: {:?}", other),
    }
}

fn mouse_of(command: UiCommand) -> (String, String, String, i64, i64, i64) {
    match command.execute().request {
        Request::InputMouse { button, action, modifier, grid, row, col } => {
            (button, action, modifier, grid, row, col)
        }
        other => panic!("not a mouse event: {:?}", other),
    }
}

#[test]
fn small_resize_is_raised_to_the_minimum() {
    let execution = UiCommand::Resize { width: 5, height: 1 }.execute();
    assert!(matches!(execution.request, Request::UiTryResize { width: 10, height: 3 }));
    assert_eq!(execution.policy, FailurePolicy::Fatal);
    assert_eq!(execution.complaint, "Resize failed");
}

#[test]
fn resize_floor_boundaries() {
    assert_eq!(resize_of(0, 0), (10, 3));
    assert_eq!(resize_of(9, 2), (10, 3));
    assert_eq!(resize_of(10, 3), (10, 3));
    assert_eq!(resize_of(11, 4), (11, 4));
    assert_eq!(resize_of(100, 50), (100, 50));
    assert_eq!(resize_of(5, 50), (10, 50));
    assert_eq!(resize_of(100, 1), (100, 3));
    assert_eq!(resize_of(u32::MAX, u32::MAX), (4294967295, 4294967295));
}

#[test]
fn quit_asks_the_editor_to_leave_and_ignores_failure() {
    let execution = UiCommand::Quit.execute();
    assert_eq!(command_line(&execution), "qa!");
    assert_eq!(execution.policy, FailurePolicy::BestEffort);
    assert_eq!(execution.complaint, "");
    assert_eq!(execution.settle(false), Outcome::Ignored);
    assert_eq!(execution.settle(true), Outcome::Completed);
}

#[test]
fn keyboard_input_is_forwarded_verbatim() {
    let execution = UiCommand::Keyboard("<C-w>\"'\\ |".to_string()).execute();
    match &execution.request {
        Request::Input(keys) => assert_eq!(keys, "<C-w>\"'\\ |"),
        other => panic!("not an input: {:?}", other),
    }
    assert_eq!(execution.policy, FailurePolicy::Fatal);
    assert_eq!(execution.complaint, "Input failed");
    assert_eq!(execution.settle(false), Outcome::Aborted);
}

#[test]
fn mouse_button_sends_row_before_column() {
    let command =
        UiCommand::MouseButton { action: "press".to_string(), grid_id: 4, position: (7, 9) };
    assert_eq!(
        mouse_of(command),
        ("left".to_string(), "press".to_string(), String::new(), 4, 9, 7)
    );
    let execution =
        UiCommand::MouseButton { action: "release".to_string(), grid_id: 4, position: (7, 9) }
            .execute();
    assert_eq!(execution.policy, FailurePolicy::Fatal);
    assert_eq!(execution.complaint, "Mouse Input Failed");
}

#[test]
fn scroll_is_a_wheel_event() {
    let command =
        UiCommand::Scroll { direction: "down".to_string(), grid_id: 2, position: (30, 12) };
    assert_eq!(
        mouse_of(command),
        ("wheel".to_string(), "down".to_string(), String::new(), 2, 12, 30)
    );
    let execution =
        UiCommand::Scroll { direction: "up".to_string(), grid_id: 2, position: (0, 0) }.execute();
    assert_eq!(execution.policy, FailurePolicy::Fatal);
    assert_eq!(execution.complaint, "Mouse Scroll Failed");
}

#[test]
fn drag_is_a_left_button_drag() {
    let command = UiCommand::Drag { grid_id: 3, position: (1, 2) };
    assert_eq!(
        mouse_of(command),
        ("left".to_string(), "drag".to_string(), String::new(), 3, 2, 1)
    );
    let execution = UiCommand::Drag { grid_id: 3, position: (1, 2) }.execute();
    assert_eq!(execution.policy, FailurePolicy::Fatal);
    assert_eq!(execution.complaint, "Mouse Drag Failed");
}

#[test]
fn large_surface_ids_keep_their_bits() {
    let at = |grid_id: u64| mouse_of(UiCommand::Drag { grid_id, position: (0, 0) }).3;
    assert_eq!(at(0), 0);
    assert_eq!(at(i64::MAX as u64), i64::MAX);
    assert_eq!(at(i64::MAX as u64 + 1), i64::MIN);
    assert_eq!(at(u64::MAX), -1);
    assert_eq!(at(u64::MAX - 41), -42);
}

#[test]
fn largest_coordinates_fit() {
    let (_, _, _, _, row, col) =
        mouse_of(UiCommand::Drag { grid_id: 1, position: (u32::MAX, u32::MAX - 1) });
    assert_eq!(row, 4294967294);
    assert_eq!(col, 4294967295);
}

#[test]
fn focus_lost_runs_the_autocommand_if_there_is_one() {
    let execution = UiCommand::FocusLost.execute();
    assert_eq!(
        command_line(&execution),
        "if exists('#FocusLost') | doautocmd <nomodeline> FocusLost | endif"
    );
    assert_eq!(execution.policy, FailurePolicy::Fatal);
    assert_eq!(execution.complaint, "Focus Lost Failed");
    assert_eq!(execution.settle(false), Outcome::Aborted);
    assert_eq!(execution.settle(true), Outcome::Completed);
}

#[test]
fn focus_gained_runs_the_autocommand_if_there_is_one() {
    let execution = UiCommand::FocusGained.execute();
    assert_eq!(
        command_line(&execution),
        "if exists('#FocusGained') | doautocmd <nomodeline> FocusGained | endif"
    );
    assert_eq!(execution.policy, FailurePolicy::Fatal);
    assert_eq!(execution.complaint, "Focus Gained Failed");
}

#[test]
fn file_drop_opens_the_path_and_ignores_failure() {
    let execution = UiCommand::FileDrop("/tmp/x.txt".to_string()).execute();
    assert_eq!(command_line(&execution), "e /tmp/x.txt");
    assert_eq!(execution.policy, FailurePolicy::BestEffort);
    assert_eq!(execution.complaint, "");
    assert_eq!(execution.settle(false), Outcome::Ignored);
}

#[test]
fn file_drop_path_is_not_escaped() {
    let execution = UiCommand::FileDrop("my file | %.txt".to_string()).execute();
    assert_eq!(command_line(&execution), "e my file | %.txt");
    let execution = UiCommand::FileDrop(String::new()).execute();
    assert_eq!(command_line(&execution), "e ");
}

#[test]
fn shell_commands_are_requests_to_the_shell() {
    let execution = UiCommand::RegisterRightClick.execute();
    assert!(matches!(execution.request, Request::RegisterShellEntries));
    assert_eq!(execution.policy, FailurePolicy::Logged);
    assert_eq!(execution.settle(false), Outcome::Reported);
    assert_eq!(execution.settle(true), Outcome::Completed);
    let execution = UiCommand::UnregisterRightClick.execute();
    assert!(matches!(execution.request, Request::UnregisterShellEntries));
    assert_eq!(execution.policy, FailurePolicy::Logged);
    assert_eq!(execution.complaint, "");
}

#[test]
fn register_reports_each_failed_step_in_order() {
    let previous = "Could not unregister previous menu item. Possibly already registered or not running as Admin?";
    let directory = "Could not register directory context menu item. Possibly already registered or not running as Admin?";
    let file = "Could not register file context menu item. Possibly already registered or not running as Admin?";
    assert!(register_diagnostics(true, true, true).is_empty());
    assert_eq!(register_diagnostics(false, true, true), vec![previous.to_string()]);
    assert_eq!(register_diagnostics(true, false, true), vec![directory.to_string()]);
    assert_eq!(register_diagnostics(true, true, false), vec![file.to_string()]);
    assert_eq!(
        register_diagnostics(false, true, false),
        vec![previous.to_string(), file.to_string()]
    );
    assert_eq!(
        register_diagnostics(false, false, false),
        vec![previous.to_string(), directory.to_string(), file.to_string()]
    );
}

#[test]
fn unregister_reports_a_failure() {
    assert!(unregister_diagnostics(true).is_empty());
    assert_eq!(
        unregister_diagnostics(false),
        vec!["Could not remove context menu items. Possibly already removed or not running as Admin?"
            .to_string()]
    );
}
