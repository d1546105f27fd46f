use rustarok_client::console_entry::{
    arg_count_ok, create_console_entry, mandatory_arg_count, ConsoleEntry, ConsoleWordType,
};

fn words(e: &ConsoleEntry) -> Vec<(String, ConsoleWordType)> {
    e.words.iter().map(|w| (w.text.clone(), w.typ)).collect()
}

fn args(list: &[&str]) -> Vec<String> {
    list.iter().map(|s| s.to_string()).collect()
}

#[test]
fn echo_of_known_command_with_params() {
    let e = create_console_entry(&args(&["spawn_area", "heal", "30"]), true);
    assert_eq!(
        words(&e),
        vec![
            ("> ".to_string(), ConsoleWordType::Normal),
            ("spawn_area".to_string(), ConsoleWordType::CommandName),
            (" ".to_string(), ConsoleWordType::Normal),
            ("heal 30".to_string(), ConsoleWordType::Param),
        ]
    );
}

#[test]
fn echo_of_unknown_command_without_params() {
    let e = create_console_entry(&args(&["nope"]), false);
    assert_eq!(
        words(&e),
        vec![("> ".to_string(), ConsoleWordType::Normal), ("nope".to_string(), ConsoleWordType::Error)]
    );
    let empty = create_console_entry(&vec![], false);
    assert_eq!(words(&empty), vec![("> ".to_string(), ConsoleWordType::Normal)]);
}

#[test]
fn entry_add_appends_words() {
    let e = ConsoleEntry::new().add("a", ConsoleWordType::Error).add("b", ConsoleWordType::Param);
    assert_eq!(words(&e), vec![("a".to_string(), ConsoleWordType::Error), ("b".to_string(), ConsoleWordType::Param)]);
}

#[test]
fn argument_counts() {
    let m = vec![true, true, false, true];
    assert_eq!(mandatory_arg_count(&m), 2);
    assert!(!arg_count_ok(&m, 1));
    assert!(arg_count_ok(&m, 2));
    assert!(arg_count_ok(&m, 4));
    assert!(!arg_count_ok(&m, 5));
    assert_eq!(mandatory_arg_count(&vec![false, true]), 0);
    assert!(arg_count_ok(&vec![], 0));
}
