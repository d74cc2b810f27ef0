use jobmenu::conf::{Job, OptionItem};
use jobmenu::error::Error;
use jobmenu::navigation::{Event, Mode, NavigationState, Outcome};
use jobmenu::shell::Shell;

fn direct(label: &str, cmd: &str) -> Job {
    Job { label: label.to_string(), cmd: Some(cmd.to_string()), default_option: None, options: None }
}

fn builtin(label: &str) -> Job {
    Job { label: label.to_string(), cmd: None, default_option: None, options: None }
}

fn item(label: &str, cmd: &str) -> OptionItem {
    OptionItem { label: label.to_string(), cmd: cmd.to_string() }
}

fn which(default_option: Option<usize>) -> Job {
    Job {
        label: "Which".to_string(),
        cmd: None,
        default_option,
        options: Some(vec![
            item("node", "which node"),
            item("python", "which python"),
            item("golang", "which golang"),
            item("rust", "which rust"),
        ]),
    }
}

fn menu() -> Vec<Job> {
    vec![direct("Who am I", "who am i"), which(Some(1)), builtin("Info"), builtin("Exit")]
}

fn shell() -> Shell {
    Shell::new(Some("/bin/zsh".to_string())).unwrap()
}

fn feed(state: &mut NavigationState, jobs: &Vec<Job>, events: &[Event]) {
    let sh = shell();
    for e in events {
        let _ = state.handle_event(jobs, &sh, *e);
    }
}

#[test]
fn starts_on_first_job_browsing_with_no_output() {
    let state = NavigationState::new();
    assert_eq!(state.active_job_index(), 0);
    assert_eq!(state.mode(), Mode::Browsing);
    assert_eq!(state.last_output(), "");
}

#[test]
fn job_cursor_stays_in_bounds_under_moves() {
    let jobs = menu();
    let mut state = NavigationState::new();
    let sh = shell();
    for step in 0..37 {
        let e = if step % 3 == 0 { Event::MoveUp } else { Event::MoveDown };
        let outcome = state.handle_event(&jobs, &sh, e);
        assert!(matches!(outcome, Outcome::Continue));
        assert!(state.active_job_index() < jobs.len());
        assert_eq!(state.mode(), Mode::Browsing);
    }
}

#[test]
fn option_cursor_stays_in_bounds_under_moves() {
    let jobs = menu();
    let mut state = NavigationState::new();
    feed(&mut state, &jobs, &[Event::MoveDown, Event::Expand]);
    let sh = shell();
    for step in 0..23 {
        let e = if step % 4 == 0 { Event::MoveDown } else { Event::MoveUp };
        let _ = state.handle_event(&jobs, &sh, e);
        assert_eq!(state.active_job_index(), 1);
        assert!(state.option_cursor(&jobs).unwrap() < 4);
    }
}

#[test]
fn move_down_steps_and_wraps_to_first_job() {
    let jobs = menu();
    let mut state = NavigationState::new();
    feed(&mut state, &jobs, &[Event::MoveDown]);
    assert_eq!(state.active_job_index(), 1);
    feed(&mut state, &jobs, &[Event::MoveDown, Event::MoveDown]);
    assert_eq!(state.active_job_index(), 3);
    feed(&mut state, &jobs, &[Event::MoveDown]);
    assert_eq!(state.active_job_index(), 0);
}

#[test]
fn move_up_wraps_to_last_job_and_steps_back() {
    let jobs = menu();
    let mut state = NavigationState::new();
    feed(&mut state, &jobs, &[Event::MoveUp]);
    assert_eq!(state.active_job_index(), 3);
    feed(&mut state, &jobs, &[Event::MoveUp]);
    assert_eq!(state.active_job_index(), 2);
}

#[test]
fn single_job_list_wraps_onto_itself() {
    let jobs = vec![builtin("Info")];
    let mut state = NavigationState::new();
    feed(&mut state, &jobs, &[Event::MoveDown]);
    assert_eq!(state.active_job_index(), 0);
    feed(&mut state, &jobs, &[Event::MoveUp]);
    assert_eq!(state.active_job_index(), 0);
}

#[test]
fn option_cursor_wraps_both_ways() {
    let jobs = menu();
    let mut state = NavigationState::new();
    feed(&mut state, &jobs, &[Event::MoveDown, Event::Expand]);
    assert_eq!(state.option_cursor(&jobs), Some(1));
    feed(&mut state, &jobs, &[Event::MoveUp]);
    assert_eq!(state.option_cursor(&jobs), Some(0));
    feed(&mut state, &jobs, &[Event::MoveUp]);
    assert_eq!(state.option_cursor(&jobs), Some(3));
    feed(&mut state, &jobs, &[Event::MoveDown]);
    assert_eq!(state.option_cursor(&jobs), Some(0));
    feed(&mut state, &jobs, &[Event::MoveDown]);
    assert_eq!(state.option_cursor(&jobs), Some(1));
    assert_eq!(state.active_job_index(), 1);
    assert_eq!(state.mode(), Mode::SelectingOption);
}

#[test]
fn option_choice_is_remembered_across_jobs() {
    let mut second = which(None);
    second.label = "Where".to_string();
    let jobs = vec![which(Some(1)), second, builtin("Exit")];
    let mut state = NavigationState::new();
    feed(&mut state, &jobs, &[Event::Expand, Event::MoveDown]);
    assert_eq!(state.option_cursor(&jobs), Some(2));
    feed(&mut state, &jobs, &[Event::Collapse, Event::MoveDown]);
    assert_eq!(state.active_job_index(), 1);
    assert_eq!(state.option_cursor(&jobs), Some(0));
    feed(&mut state, &jobs, &[Event::Expand, Event::MoveUp, Event::Collapse, Event::MoveUp]);
    assert_eq!(state.active_job_index(), 0);
    assert_eq!(state.mode(), Mode::Browsing);
    assert_eq!(state.option_cursor(&jobs), Some(2));
    feed(&mut state, &jobs, &[Event::Expand]);
    assert_eq!(state.mode(), Mode::SelectingOption);
    assert_eq!(state.option_cursor(&jobs), Some(2));
    feed(&mut state, &jobs, &[Event::Collapse, Event::MoveDown]);
    assert_eq!(state.option_cursor(&jobs), Some(3));
}

#[test]
fn first_visit_starts_on_default_option() {
    let jobs = menu();
    let mut state = NavigationState::new();
    feed(&mut state, &jobs, &[Event::MoveDown]);
    assert_eq!(state.option_cursor(&jobs), Some(1));
    feed(&mut state, &jobs, &[Event::Expand]);
    assert_eq!(state.mode(), Mode::SelectingOption);
    assert_eq!(state.option_cursor(&jobs), Some(1));
}

#[test]
fn missing_default_starts_on_first_option() {
    let jobs = vec![which(None)];
    let mut state = NavigationState::new();
    feed(&mut state, &jobs, &[Event::Enter]);
    assert_eq!(state.mode(), Mode::SelectingOption);
    assert_eq!(state.option_cursor(&jobs), Some(0));
}

#[test]
fn default_outside_the_options_starts_on_first_option() {
    let jobs = vec![which(Some(4))];
    let mut state = NavigationState::new();
    feed(&mut state, &jobs, &[Event::Expand]);
    assert_eq!(state.option_cursor(&jobs), Some(0));
    let jobs = vec![which(Some(3))];
    let mut state = NavigationState::new();
    feed(&mut state, &jobs, &[Event::Expand]);
    assert_eq!(state.option_cursor(&jobs), Some(3));
}

#[test]
fn direct_job_never_enters_option_mode() {
    let jobs = vec![direct("Who am I", "who am i")];
    let sh = shell();
    let all = [
        Event::MoveDown,
        Event::MoveUp,
        Event::Enter,
        Event::Confirm,
        Event::Collapse,
        Event::Expand,
        Event::Quit,
    ];
    for e in all {
        let mut state = NavigationState::new();
        let _ = state.handle_event(&jobs, &sh, e);
        assert_eq!(state.mode(), Mode::Browsing);
        assert_eq!(state.option_cursor(&jobs), None);
    }
}

#[test]
fn expand_opens_menu_without_dispatch() {
    let jobs = menu();
    let sh = shell();
    let mut state = NavigationState::new();
    feed(&mut state, &jobs, &[Event::MoveDown]);
    let outcome = state.handle_event(&jobs, &sh, Event::Expand);
    assert!(matches!(outcome, Outcome::Continue));
    assert_eq!(state.mode(), Mode::SelectingOption);
    assert_eq!(state.last_output(), "");
    let outcome = state.handle_event(&jobs, &sh, Event::Expand);
    assert!(matches!(outcome, Outcome::Continue));
    assert_eq!(state.mode(), Mode::SelectingOption);
    assert_eq!(state.last_output(), "");
}

#[test]
fn first_activation_of_option_job_only_opens_menu() {
    let jobs = menu();
    let sh = shell();
    let mut state = NavigationState::new();
    feed(&mut state, &jobs, &[Event::MoveDown]);
    let outcome = state.handle_event(&jobs, &sh, Event::Enter);
    assert!(matches!(outcome, Outcome::Continue));
    assert_eq!(state.mode(), Mode::SelectingOption);
    assert_eq!(state.last_output(), "");
}

#[test]
fn collapse_returns_to_browsing_and_is_noop_there() {
    let jobs = menu();
    let mut state = NavigationState::new();
    feed(&mut state, &jobs, &[Event::Collapse]);
    assert_eq!(state.mode(), Mode::Browsing);
    assert_eq!(state.active_job_index(), 0);
    feed(&mut state, &jobs, &[Event::MoveDown, Event::Expand, Event::MoveDown, Event::Collapse]);
    assert_eq!(state.mode(), Mode::Browsing);
    assert_eq!(state.active_job_index(), 1);
    assert_eq!(state.option_cursor(&jobs), Some(2));
}

#[test]
fn direct_dispatch_is_formatted() {
    let jobs = vec![direct("Who am I", "who am i")];
    let sh = shell();
    let mut state = NavigationState::new();
    let outcome = state.handle_event(&jobs, &sh, Event::Enter);
    match outcome {
        Outcome::Run(request) => {
            assert_eq!(request.heading, "Who am I");
            assert_eq!(request.command, "who am i");
            assert_eq!(state.last_output(), "");
            state.complete(&request, Ok("alice\n".to_string()));
        }
        other => panic!("expected a command, got {:?}", other),
    }
    assert_eq!(state.last_output(), "Who am I:\nalice\n");
    assert_eq!(state.mode(), Mode::Browsing);
    assert_eq!(state.active_job_index(), 0);
}

#[test]
fn option_dispatch_is_formatted() {
    let jobs = vec![Job {
        label: "Which".to_string(),
        cmd: None,
        default_option: Some(0),
        options: Some(vec![item("node", "which node")]),
    }];
    let sh = shell();
    let mut state = NavigationState::new();
    let outcome = state.handle_event(&jobs, &sh, Event::Enter);
    assert!(matches!(outcome, Outcome::Continue));
    let outcome = state.handle_event(&jobs, &sh, Event::Enter);
    match outcome {
        Outcome::Run(request) => {
            assert_eq!(request.heading, "Which node");
            assert_eq!(request.command, "which node");
            state.complete(&request, Ok("/usr/bin/node\n".to_string()));
        }
        other => panic!("expected a command, got {:?}", other),
    }
    assert_eq!(state.last_output(), "Which node:\n/usr/bin/node\n");
    assert_eq!(state.mode(), Mode::SelectingOption);
}

#[test]
fn confirm_activates_like_enter() {
    let jobs = menu();
    let sh = shell();
    let mut state = NavigationState::new();
    let outcome = state.handle_event(&jobs, &sh, Event::Confirm);
    match outcome {
        Outcome::Run(request) => assert_eq!(request.command, "who am i"),
        other => panic!("expected a command, got {:?}", other),
    }
}

#[test]
fn several_options_run_without_leaving_menu() {
    let jobs = menu();
    let sh = shell();
    let mut state = NavigationState::new();
    feed(&mut state, &jobs, &[Event::MoveDown, Event::Enter]);
    let mut seen = Vec::new();
    for _ in 0..2 {
        match state.handle_event(&jobs, &sh, Event::Enter) {
            Outcome::Run(request) => {
                seen.push(request.command.clone());
                state.complete(&request, Ok(String::new()));
            }
            other => panic!("expected a command, got {:?}", other),
        }
        assert_eq!(state.mode(), Mode::SelectingOption);
        feed(&mut state, &jobs, &[Event::MoveDown]);
    }
    assert_eq!(seen, vec!["which python".to_string(), "which golang".to_string()]);
    assert_eq!(state.last_output(), "Which golang:\n");
}

#[test]
fn runner_failure_leaves_output_empty() {
    let jobs = menu();
    let sh = shell();
    let mut state = NavigationState::new();
    match state.handle_event(&jobs, &sh, Event::Enter) {
        Outcome::Run(request) => {
            state.complete(&request, Ok("alice\n".to_string()));
            assert_eq!(state.last_output(), "Who am I:\nalice\n");
            state.complete(&request, Err(Error::ExecutionError));
        }
        other => panic!("expected a command, got {:?}", other),
    }
    assert_eq!(state.last_output(), "");
    assert_eq!(state.mode(), Mode::Browsing);
    feed(&mut state, &jobs, &[Event::MoveDown, Event::Enter]);
    match state.handle_event(&jobs, &sh, Event::Enter) {
        Outcome::Run(request) => state.complete(&request, Err(Error::ExecutionError)),
        other => panic!("expected a command, got {:?}", other),
    }
    assert_eq!(state.last_output(), "");
    assert_eq!(state.mode(), Mode::SelectingOption);
}

#[test]
fn exit_terminates_whatever_cursors_are_remembered() {
    let jobs = menu();
    let sh = shell();
    let mut state = NavigationState::new();
    feed(&mut state, &jobs, &[Event::MoveUp]);
    assert!(matches!(state.handle_event(&jobs, &sh, Event::Enter), Outcome::Terminate));
    let mut state = NavigationState::new();
    feed(
        &mut state,
        &jobs,
        &[Event::MoveDown, Event::Expand, Event::MoveDown, Event::Collapse, Event::MoveDown, Event::MoveDown],
    );
    assert_eq!(state.active_job_index(), 3);
    assert!(matches!(state.handle_event(&jobs, &sh, Event::Confirm), Outcome::Terminate));
    assert_eq!(state.last_output(), "");
    assert_eq!(state.mode(), Mode::Browsing);
}

#[test]
fn info_shows_the_shell_at_once() {
    let jobs = menu();
    let sh = shell();
    let mut state = NavigationState::new();
    feed(&mut state, &jobs, &[Event::MoveDown, Event::MoveDown]);
    let outcome = state.handle_event(&jobs, &sh, Event::Enter);
    assert!(matches!(outcome, Outcome::Continue));
    assert_eq!(state.last_output(), "Which Shell:\n/bin/zsh");
}

#[test]
fn unknown_builtin_clears_the_output() {
    let jobs = vec![builtin("Info"), builtin("Nothing")];
    let sh = shell();
    let mut state = NavigationState::new();
    feed(&mut state, &jobs, &[Event::Enter, Event::MoveDown]);
    assert_eq!(state.last_output(), "Which Shell:\n/bin/zsh");
    let outcome = state.handle_event(&jobs, &sh, Event::Enter);
    assert!(matches!(outcome, Outcome::Continue));
    assert_eq!(state.last_output(), "");
}

#[test]
fn quit_ends_the_session_in_both_modes() {
    let jobs = menu();
    let sh = shell();
    let mut state = NavigationState::new();
    assert!(matches!(state.handle_event(&jobs, &sh, Event::Quit), Outcome::Quit));
    feed(&mut state, &jobs, &[Event::MoveDown, Event::Expand]);
    assert!(matches!(state.handle_event(&jobs, &sh, Event::Quit), Outcome::Quit));
    assert_eq!(state.mode(), Mode::SelectingOption);
    assert_eq!(state.active_job_index(), 1);
}

#[test]
fn empty_option_list_activates_to_empty_text() {
    let jobs = vec![
        builtin("Info"),
        Job { label: "Bare".to_string(), cmd: None, default_option: Some(2), options: Some(vec![]) },
    ];
    let sh = shell();
    let mut state = NavigationState::new();
    feed(&mut state, &jobs, &[Event::Enter, Event::MoveDown, Event::Expand]);
    assert_eq!(state.mode(), Mode::SelectingOption);
    assert_eq!(state.option_cursor(&jobs), Some(0));
    feed(&mut state, &jobs, &[Event::MoveDown, Event::MoveUp, Event::MoveUp]);
    assert_eq!(state.option_cursor(&jobs), Some(0));
    let outcome = state.handle_event(&jobs, &sh, Event::Enter);
    assert!(matches!(outcome, Outcome::Continue));
    assert_eq!(state.last_output(), "");
}

#[test]
fn options_take_precedence_over_a_command() {
    let mut job = which(None);
    job.cmd = Some("echo both".to_string());
    let jobs = vec![job];
    let sh = shell();
    let mut state = NavigationState::new();
    let outcome = state.handle_event(&jobs, &sh, Event::Enter);
    assert!(matches!(outcome, Outcome::Continue));
    assert_eq!(state.mode(), Mode::SelectingOption);
    match state.handle_event(&jobs, &sh, Event::Enter) {
        Outcome::Run(request) => {
            assert_eq!(request.heading, "Which node");
            assert_eq!(request.command, "which node");
        }
        other => panic!("expected a command, got {:?}", other),
    }
}

#[test]
fn empty_job_list_makes_events_noops() {
    let jobs: Vec<Job> = Vec::new();
    let sh = shell();
    let mut state = NavigationState::new();
    for e in [Event::MoveDown, Event::MoveUp, Event::Enter, Event::Expand, Event::Collapse] {
        assert!(matches!(state.handle_event(&jobs, &sh, e), Outcome::Continue));
        assert_eq!(state.active_job_index(), 0);
        assert_eq!(state.mode(), Mode::Browsing);
    }
    assert_eq!(state.option_cursor(&jobs), None);
    assert!(matches!(state.handle_event(&jobs, &sh, Event::Quit), Outcome::Quit));
}
