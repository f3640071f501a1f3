use passgen::choice::{AcceptedTokens, BinaryChoicePrompt};
use passgen::component::PasswordComponent;
use passgen::error::InputError;

fn strings(words: &[&str]) -> Vec<String> {
    words.iter().map(|w| w.to_string()).collect()
}

fn question(tokens: AcceptedTokens, default: Option<bool>) -> BinaryChoicePrompt {
    BinaryChoicePrompt::new("Include numbers (0-9)?".to_string(), tokens, default)
}

#[test]
fn yes_in_any_case_is_a_yes() {
    let q = question(AcceptedTokens::standard(), None);
    for line in ["YES", "Yes", "yes", "yEs", "Y", "y"] {
        assert_eq!(q.respond(line), Ok(true), "{:?}", line);
    }
}

#[test]
fn no_in_any_case_is_a_no() {
    let q = question(AcceptedTokens::standard(), None);
    for line in ["NO", "No", "no", "nO", "N", "n"] {
        assert_eq!(q.respond(line), Ok(false), "{:?}", line);
    }
}

#[test]
fn other_answers_are_turned_down() {
    let q = question(AcceptedTokens::standard(), Some(true));
    for line in ["maybe", "ye", "yess", " yes", "yes ", "1", "si", "nope", " "] {
        assert_eq!(q.respond(line), Err(InputError::InvalidFormat), "{:?}", line);
        assert_eq!(q.validate(line), Err(InputError::InvalidFormat), "{:?}", line);
    }
}

#[test]
fn custom_tokens() {
    let tokens = AcceptedTokens::new(strings(&["si"]), strings(&["no"])).unwrap();
    let q = question(tokens, None);
    assert_eq!(q.respond("SI"), Ok(true));
    assert_eq!(q.respond("si"), Ok(true));
    assert_eq!(q.respond("no"), Ok(false));
    assert_eq!(q.respond("maybe"), Err(InputError::InvalidFormat));
    assert_eq!(q.respond("yes"), Err(InputError::InvalidFormat));
}

#[test]
fn custom_tokens_are_compared_in_lowercase() {
    let tokens = AcceptedTokens::new(strings(&["JA", "Oui"]), strings(&["NEIN", "Non"])).unwrap();
    assert_eq!(tokens.resolve("ja"), Some(true));
    assert_eq!(tokens.resolve("Ja"), Some(true));
    assert_eq!(tokens.resolve("OUI"), Some(true));
    assert_eq!(tokens.resolve("nein"), Some(false));
    assert_eq!(tokens.resolve("nON"), Some(false));
    assert_eq!(tokens.resolve("yes"), None);
}

#[test]
fn tokens_of_other_scripts() {
    let tokens =
        AcceptedTokens::new(strings(&["\u{434}\u{430}"]), strings(&["\u{43d}\u{435}\u{442}"]))
            .unwrap();
    assert_eq!(tokens.resolve("\u{414}\u{410}"), Some(true));
    assert_eq!(tokens.resolve("\u{41d}\u{435}\u{422}"), Some(false));
    assert_eq!(tokens.resolve("da"), None);
}

#[test]
fn tokens_on_both_sides_are_refused() {
    assert!(AcceptedTokens::new(strings(&["ok"]), strings(&["ok"])).is_none());
    assert!(AcceptedTokens::new(strings(&["yes", "OK"]), strings(&["no", "ok"])).is_none());
    assert!(AcceptedTokens::new(strings(&["a", "b"]), strings(&["c", "B"])).is_none());
}

#[test]
fn tokens_apart_are_accepted() {
    assert!(AcceptedTokens::new(strings(&["a", "b"]), strings(&["c", "d"])).is_some());
    assert!(AcceptedTokens::new(strings(&["a", "a"]), strings(&["c"])).is_some());
    assert!(AcceptedTokens::new(Vec::new(), Vec::new()).is_some());
    assert!(AcceptedTokens::new(strings(&["yes"]), Vec::new()).is_some());
}

#[test]
fn no_tokens_accept_nothing() {
    let tokens = AcceptedTokens::new(Vec::new(), Vec::new()).unwrap();
    assert_eq!(tokens.resolve("yes"), None);
    assert_eq!(tokens.resolve(""), None);
}

#[test]
fn classify_compares_as_given() {
    let tokens = AcceptedTokens::standard();
    assert_eq!(tokens.classify("yes"), Some(true));
    assert_eq!(tokens.classify("y"), Some(true));
    assert_eq!(tokens.classify("no"), Some(false));
    assert_eq!(tokens.classify("n"), Some(false));
    assert_eq!(tokens.classify("YES"), None);
    assert_eq!(tokens.classify("No"), None);
    assert_eq!(tokens.classify(""), None);
}

#[test]
fn resolve_is_classify_of_the_lowercase_form() {
    let tokens = AcceptedTokens::standard();
    for line in ["YES", "Yes", "yes", "N", "No", "maybe", "", "\u{130}"] {
        assert_eq!(tokens.resolve(line), tokens.classify(&line.to_lowercase()), "{:?}", line);
    }
}

#[test]
fn lowering_twice_changes_nothing() {
    let tokens = AcceptedTokens::standard();
    for line in ["YES", "Yes", "yes", "N", "No", "Maybe", "\u{130}", "\u{3a3}\u{391}\u{3a3}"] {
        let once = line.to_lowercase();
        let twice = once.to_lowercase();
        assert_eq!(once, twice, "{:?}", line);
        assert_eq!(tokens.resolve(line), tokens.resolve(&once), "{:?}", line);
    }
}

#[test]
fn empty_answer_takes_the_default() {
    assert_eq!(question(AcceptedTokens::standard(), Some(true)).respond(""), Ok(true));
    assert_eq!(question(AcceptedTokens::standard(), Some(false)).respond(""), Ok(false));
    assert_eq!(question(AcceptedTokens::standard(), Some(true)).validate(""), Ok(()));
    assert_eq!(question(AcceptedTokens::standard(), Some(false)).validate(""), Ok(()));
}

#[test]
fn empty_answer_without_default_is_turned_down() {
    let q = question(AcceptedTokens::standard(), None);
    assert_eq!(q.respond(""), Err(InputError::InvalidFormat));
    assert_eq!(q.validate(""), Err(InputError::InvalidFormat));
}

#[test]
fn default_word_is_judged_by_the_tokens() {
    let tokens = AcceptedTokens::new(strings(&["si"]), strings(&["no"])).unwrap();
    assert_eq!(question(tokens, Some(true)).respond(""), Err(InputError::InvalidFormat));
    let tokens = AcceptedTokens::new(strings(&["si"]), strings(&["no"])).unwrap();
    assert_eq!(question(tokens, Some(false)).respond(""), Ok(false));
    let tokens = AcceptedTokens::new(strings(&["no"]), strings(&["yes"])).unwrap();
    assert_eq!(question(tokens, Some(true)).respond(""), Ok(false));
}

#[test]
fn a_typed_answer_does_not_take_the_default() {
    let q = question(AcceptedTokens::standard(), Some(true));
    assert_eq!(q.respond("n"), Ok(false));
    let q = question(AcceptedTokens::standard(), Some(false));
    assert_eq!(q.respond("y"), Ok(true));
}

#[test]
fn validation_passes_exactly_the_lines_that_get_a_choice() {
    let q = question(AcceptedTokens::standard(), Some(false));
    for line in ["", "y", "N", "yes", "nO", "maybe", "0", " y"] {
        assert_eq!(q.validate(line).is_ok(), q.respond(line).is_ok(), "{:?}", line);
    }
}

#[test]
fn label_ends_in_the_hint() {
    let q = question(AcceptedTokens::standard(), None);
    assert_eq!(q.label(), "Include numbers (0-9)? [y/n]");
    let q = BinaryChoicePrompt::new(String::new(), AcceptedTokens::standard(), None);
    assert_eq!(q.label(), " [y/n]");
}

#[test]
fn default_text_is_yes_or_no() {
    assert_eq!(question(AcceptedTokens::standard(), Some(true)).default_text(), Some("Yes"));
    assert_eq!(question(AcceptedTokens::standard(), Some(false)).default_text(), Some("No"));
    assert_eq!(question(AcceptedTokens::standard(), None).default_text(), None);
    let tokens = AcceptedTokens::new(strings(&["si"]), strings(&["no"])).unwrap();
    assert_eq!(question(tokens, Some(true)).default_text(), Some("Yes"));
}

#[test]
fn choice_rejection_message() {
    assert_eq!(BinaryChoicePrompt::rejection(), "Please enter \"y\" or \"n\"!");
}

#[test]
fn question_of_a_component() {
    let component = PasswordComponent::new("Include symbols?".to_string(), vec!['#'], Some(false));
    let q = BinaryChoicePrompt::for_component(&component);
    assert_eq!(q.prompt, "Include symbols?");
    assert_eq!(q.default, Some(false));
    assert_eq!(q.respond(""), Ok(false));
    assert_eq!(q.respond("Y"), Ok(true));
    assert_eq!(q.respond("si"), Err(InputError::InvalidFormat));
}

#[test]
fn verbatim_tokens_are_compared_as_written() {
    let tokens = AcceptedTokens::verbatim(strings(&["si", "OK"]), strings(&["no"])).unwrap();
    assert_eq!(tokens.resolve("SI"), Some(true));
    assert_eq!(tokens.resolve("si"), Some(true));
    assert_eq!(tokens.resolve("No"), Some(false));
    assert_eq!(tokens.resolve("OK"), None);
    assert_eq!(tokens.resolve("ok"), None);
    assert_eq!(tokens.classify("OK"), Some(true));
}

#[test]
fn verbatim_tokens_on_both_sides_are_refused() {
    assert!(AcceptedTokens::verbatim(strings(&["a", "b"]), strings(&["b"])).is_none());
    assert!(AcceptedTokens::verbatim(strings(&["a", "B"]), strings(&["b"])).is_some());
    assert!(AcceptedTokens::new(strings(&["a", "B"]), strings(&["b"])).is_none());
}

#[test]
fn standard_tokens_are_the_four_words_as_written() {
    let standard = AcceptedTokens::standard();
    let written = AcceptedTokens::verbatim(strings(&["yes", "y"]), strings(&["no", "n"])).unwrap();
    let lowered = AcceptedTokens::new(strings(&["YES", "Y"]), strings(&["No", "N"])).unwrap();
    for line in ["yes", "y", "no", "n", "YES", "nO", "", "maybe", "yes ", "ye", "o"] {
        assert_eq!(standard.resolve(line), written.resolve(line), "{:?}", line);
        assert_eq!(standard.resolve(line), lowered.resolve(line), "{:?}", line);
        assert_eq!(standard.classify(line), written.classify(line), "{:?}", line);
    }
}
