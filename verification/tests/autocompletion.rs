use rustarok_client::autocompletion::{
    filtered_list, rank_matches, word_before_cursor, Autocompletion, AutocompletionType,
};

fn names(list: &[&str]) -> Vec<String> {
    list.iter().map(|s| s.to_string()).collect()
}

#[test]
fn empty_word_keeps_every_candidate() {
    let full = names(&["spawn", "kill", "goto"]);
    assert_eq!(filtered_list(&full, ""), full);
}

#[test]
fn only_matching_candidates_stay() {
    let full = names(&["abc", "xyz", "SoccerCartoonController"]);
    assert_eq!(filtered_list(&full, "scc"), names(&["SoccerCartoonController"]));
    assert_eq!(filtered_list(&full, "xy"), names(&["xyz"]));
    assert!(filtered_list(&full, "qqq").is_empty());
}

#[test]
fn best_match_comes_first() {
    // word starts weigh most: "ab" starts with the match, "xaxb" has none
    let full = names(&["xaxb", "ab"]);
    assert_eq!(filtered_list(&full, "ab"), names(&["ab", "xaxb"]));
}

#[test]
fn ranking_is_by_score_and_stable() {
    let full = names(&["a", "b", "c", "d"]);
    let scores = vec![Some(1), None, Some(5), Some(1)];
    assert_eq!(rank_matches(&full, &scores), names(&["c", "a", "d"]));
    let tie = vec![Some(3), Some(3), Some(3), Some(3)];
    assert_eq!(rank_matches(&full, &tie), full);
}

#[test]
fn word_before_cursor_takes_characters_up_to_cursor() {
    assert_eq!(word_before_cursor(2, "hello", 5), "hel");
    assert_eq!(word_before_cursor(10, "hello", 2), "he");
    assert_eq!(word_before_cursor(0, "hi", 9), "hi");
}

#[test]
fn popup_opens_filters_and_closes() {
    let mut ac = Autocompletion::new();
    ac.open_autocompletion(AutocompletionType::CommandName, names(&["kill", "kick", "spawn"]), "");
    assert_eq!(ac.open, Some(AutocompletionType::CommandName));
    assert_eq!(ac.filtered_list.len(), 3);
    ac.select_prev();
    assert_eq!(ac.index, 2);
    ac.select_next();
    assert_eq!(ac.index, 0);
    ac.index = 2;
    ac.filter_autocompletion_list("ki");
    assert_eq!(ac.filtered_list.len(), 2);
    assert_eq!(ac.index, 1);
    ac.filter_autocompletion_list("zzz");
    assert_eq!(ac.open, None);
    assert!(ac.full_list.is_empty());
    assert!(ac.filtered_list.is_empty());
}

#[test]
fn popup_stays_closed_without_candidates() {
    let mut ac = Autocompletion::new();
    ac.open_autocompletion(AutocompletionType::CommandHistory, vec![], "");
    assert_eq!(ac.open, None);
}
