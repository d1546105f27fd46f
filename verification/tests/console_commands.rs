use rustarok_client::autocompletion::AutocompletionType;
use rustarok_client::console_commands::{
    input_outcome, submit_after_completion, CommandElement, CommandParam, CommandParamType, InputOutcome,
};
use rustarok_client::console_step::ConsoleState;

fn strings(v: &[&str]) -> Vec<String> {
    v.iter().map(|s| s.to_string()).collect()
}

fn params() -> Vec<CommandParam> {
    vec![
        CommandParam { name: "x".to_string(), typ: CommandParamType::Int, mandatory: true },
        CommandParam { name: "y".to_string(), typ: CommandParamType::Float, mandatory: false },
    ]
}

#[test]
fn entered_line_goes_to_history_and_rows() {
    let mut s = ConsoleState::new();
    s.input = "  set_pos 10  ".to_string();
    s.cursor_x = 14;
    let ps = params();
    let r = s.input_added(&strings(&["set_pos", "10"]), Some(&ps), &vec![false], false);
    assert_eq!(r, InputOutcome::Execute);
    assert_eq!(s.history.command_history, vec!["set_pos 10".to_string()]);
    assert_eq!(s.history.history_pos, 0);
    assert_eq!(s.rows.len(), 1);
    assert_eq!(s.input, "");
    assert_eq!(s.cursor_x, 0);
}

#[test]
fn kept_prompt_and_unknown_command() {
    let mut s = ConsoleState::new();
    s.input = "nope".to_string();
    s.cursor_x = 4;
    let r = s.input_added(&strings(&["nope"]), None, &vec![], true);
    assert_eq!(r, InputOutcome::UnknownCommand);
    assert_eq!(s.input, "nope");
    assert_eq!(s.cursor_x, 4);
}

#[test]
fn parameter_checks() {
    let ps = params();
    assert_eq!(
        input_outcome(&strings(&["c"]), &ps, &vec![]),
        InputOutcome::IllegalParamCount { mandatory: 1, max: 2, provided: 0 }
    );
    assert_eq!(
        input_outcome(&strings(&["c", "1", "2", "3"]), &ps, &vec![true, true, true]),
        InputOutcome::IllegalParamCount { mandatory: 1, max: 2, provided: 3 }
    );
    assert_eq!(input_outcome(&strings(&["c", "a"]), &ps, &vec![true]), InputOutcome::IllegalParam { index: 0 });
    assert_eq!(input_outcome(&strings(&["c", "1", "z"]), &ps, &vec![true, false]), InputOutcome::IllegalParam { index: 1 });
    assert_eq!(input_outcome(&strings(&["c", "-5", "2.5"]), &ps, &vec![true, true]), InputOutcome::Execute);
}

#[test]
fn history_search_offers_entered_commands() {
    let mut s = ConsoleState::new();
    s.history.add_command("heal");
    s.history.add_command("goto 1 2");
    s.open_autocompletion(AutocompletionType::CommandHistory, None, "");
    assert_eq!(s.completion.open, Some(AutocompletionType::CommandHistory));
    assert_eq!(s.completion.filtered_list, strings(&["heal", "goto 1 2"]));
    let mut t = ConsoleState::new();
    t.open_autocompletion(AutocompletionType::CommandName, Some(vec![]), "");
    assert_eq!(t.completion.open, None);
}

#[test]
fn choosing_a_command_name_completes_the_line() {
    let mut s = ConsoleState::new();
    s.input = "he".to_string();
    s.cursor_x = 2;
    s.open_autocompletion(AutocompletionType::CommandName, Some(strings(&["heal"])), "");
    let args = vec![CommandElement { text: "he".to_string(), end_pos: 2 }];
    s.choose_completion(&args, 0, true);
    assert_eq!(s.input, "heal ");
    assert_eq!(s.cursor_x, 5);
    assert_eq!(s.completion.open, None);
}

#[test]
fn a_parameter_with_a_blank_is_quoted() {
    let mut s = ConsoleState::new();
    s.input = "set_job a".to_string();
    s.cursor_x = 9;
    s.open_autocompletion(AutocompletionType::Param, Some(strings(&["Arch Bishop"])), "");
    let args = vec![
        CommandElement { text: "set_job".to_string(), end_pos: 7 },
        CommandElement { text: "a".to_string(), end_pos: 9 },
    ];
    s.choose_completion(&args, 1, false);
    assert_eq!(s.input, "set_job \"Arch Bishop\" ");
    assert_eq!(s.cursor_x, 9);
    assert_eq!(s.completion.open, Some(AutocompletionType::Param));
}

#[test]
fn enter_runs_a_completed_command() {
    assert!(submit_after_completion(Some(0), 0, true, true));
    assert!(submit_after_completion(Some(1), 1, true, true));
    assert!(!submit_after_completion(Some(2), 1, true, true));
    assert!(!submit_after_completion(Some(0), 0, false, true));
    assert!(!submit_after_completion(None, 0, true, true));
}
