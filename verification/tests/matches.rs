use rojo_cli::matches::Matches;

#[test]
fn nothing_is_given_at_first() {
    let matches = Matches::new();
    assert_eq!(matches.value_of("PROJECT"), None);
    assert_eq!(matches.value_of(""), None);
    assert!(!matches.is_present("port"));
}

#[test]
fn a_value_is_found_under_its_name() {
    let mut matches = Matches::new();
    matches.insert("PROJECT", "game");
    matches.insert("port", "8000");
    assert_eq!(matches.value_of("PROJECT"), Some("game"));
    assert_eq!(matches.value_of("port"), Some("8000"));
    assert!(matches.is_present("port"));
    assert_eq!(matches.value_of("kind"), None);
    assert!(!matches.is_present("kind"));
}

#[test]
fn names_are_compared_exactly() {
    let mut matches = Matches::new();
    matches.insert("PROJECT", "game");
    assert_eq!(matches.value_of("project"), None);
    assert_eq!(matches.value_of("PROJECT "), None);
    assert_eq!(matches.value_of("PROJEC"), None);
    assert_eq!(matches.value_of("PROJECTS"), None);
}

#[test]
fn a_later_value_replaces_an_earlier_one() {
    let mut matches = Matches::new();
    matches.insert("port", "8000");
    matches.insert("kind", "place");
    matches.insert("port", "9000");
    assert_eq!(matches.value_of("port"), Some("9000"));
    assert_eq!(matches.value_of("kind"), Some("place"));
}

#[test]
fn an_empty_value_is_still_a_value() {
    let mut matches = Matches::new();
    matches.insert("PATH", "");
    assert_eq!(matches.value_of("PATH"), Some(""));
    assert!(matches.is_present("PATH"));
}

#[test]
fn names_and_values_outside_ascii_are_kept() {
    let mut matches = Matches::new();
    matches.insert("cl\u{e9}", "valeur \u{1f600}");
    assert_eq!(matches.value_of("cl\u{e9}"), Some("valeur \u{1f600}"));
    assert_eq!(matches.value_of("cle"), None);
}
