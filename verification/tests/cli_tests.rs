use at::cli::Command;

fn words(list: &[&str]) -> Vec<String> {
    list.iter().map(|w| (*w).to_owned()).collect()
}

#[test]
fn search_query_joins_words_with_spaces() {
    assert_eq!(
        Command::search_query(&words(&["nightlight", "loader"])),
        Some("nightlight loader".to_owned())
    );
}

#[test]
fn search_query_trims_and_drops_blank_queries() {
    assert_eq!(Command::search_query(&[]), None);
    assert_eq!(Command::search_query(&words(&["  ", ""])), None);
    assert_eq!(
        Command::search_query(&words(&[" a", "b\t"])),
        Some("a b".to_owned())
    );
}
