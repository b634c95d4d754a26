use shadowbox::language::Language;
use shadowbox::translation_key::TranslationKey;
use shadowbox::translations::LocalizationError;
use shadowbox::translations::TranslationNode;
use shadowbox::translations::TranslationStore;
use shadowbox::translations::localize_message;

fn leaf(s: &str) -> TranslationNode {
    TranslationNode::Leaf(s.to_string())
}

fn english_store() -> TranslationStore {
    let hello = TranslationNode::Branch(vec![("response".to_string(), leaf("Hello Nater"))]);
    let greet = TranslationNode::Branch(vec![("response".to_string(), leaf("Hello {}"))]);
    let command = TranslationNode::Branch(vec![
        ("hello".to_string(), hello),
        ("greet".to_string(), greet),
    ]);
    let root = TranslationNode::Branch(vec![("command".to_string(), command)]);
    let mut store = TranslationStore::new();
    store.insert(Language::English, root);
    store
}

#[test]
fn test_localize_message() {
    let store = english_store();
    let args: Vec<String> = vec![];
    assert_eq!(
        localize_message(&store, "command.hello.response", Language::English, &args).unwrap(),
        "Hello Nater"
    );
}

#[test]
fn renders_template_with_positional_argument() {
    let store = english_store();
    let args: Vec<String> = vec!["Nater".to_string()];
    assert_eq!(
        localize_message(&store, "command.greet.response", Language::English, &args).unwrap(),
        "Hello Nater"
    );
}

#[test]
fn extra_arguments_are_ignored() {
    let store = english_store();
    let args: Vec<String> = vec!["Nater".to_string(), "extra".to_string()];
    assert_eq!(
        localize_message(&store, "command.greet.response", Language::English, &args).unwrap(),
        "Hello Nater"
    );
}

#[test]
fn missing_arguments_leave_markers_literal() {
    let mut store = TranslationStore::new();
    let root = TranslationNode::Branch(vec![("both".to_string(), leaf("{} and {}"))]);
    store.insert(Language::English, root);
    let args: Vec<String> = vec!["x".to_string()];
    assert_eq!(
        localize_message(&store, "both", Language::English, &args).unwrap(),
        "x and {}"
    );
}

#[test]
fn argument_escapes_become_control_characters() {
    let mut store = TranslationStore::new();
    let root = TranslationNode::Branch(vec![("echo".to_string(), leaf("{}"))]);
    store.insert(Language::English, root);
    let args: Vec<String> = vec!["a\\nb\\tc".to_string()];
    assert_eq!(
        localize_message(&store, "echo", Language::English, &args).unwrap(),
        "a\nb\tc"
    );
}

#[test]
fn empty_components_fail_with_bad_key() {
    let store = english_store();
    let args: Vec<String> = vec![];
    for bad in ["", "a..b", ".a", "a."] {
        let r = localize_message(&store, bad, Language::English, &args);
        assert!(matches!(r, Err(LocalizationError::BadKey(_))), "key {:?}", bad);
    }
    for bad in ["", "a..b", ".a", "a."] {
        assert!(TranslationKey::from_str(bad).is_err(), "key {:?}", bad);
    }
}

#[test]
fn absent_language_fails_with_unsupported_language() {
    let store = english_store();
    let args: Vec<String> = vec![];
    let r = localize_message(&store, "command.hello.response", Language::Spanish, &args);
    assert!(matches!(
        r,
        Err(LocalizationError::UnsupportedLanguage(Language::Spanish))
    ));
}

#[test]
fn subtree_key_fails_with_unknown_key() {
    let store = english_store();
    let args: Vec<String> = vec![];
    let r = localize_message(&store, "command.hello", Language::English, &args);
    match r {
        Err(LocalizationError::UnknownKey(k)) => assert_eq!(k.as_string(), "command.hello"),
        other => panic!("expected UnknownKey, got {:?}", other.is_ok()),
    }
}

#[test]
fn missing_key_fails_with_unknown_key() {
    let store = english_store();
    let args: Vec<String> = vec![];
    let r = localize_message(&store, "command.missing.response", Language::English, &args);
    assert!(matches!(r, Err(LocalizationError::UnknownKey(_))));
}

#[test]
fn translation_key_round_trips_through_written_form() {
    let key = TranslationKey::from_str("command.hello.response").unwrap();
    assert_eq!(key.as_string(), "command.hello.response");
    let parts = key.as_slice();
    assert_eq!(parts.len(), 3);
    assert_eq!(parts[0], "command");
    assert_eq!(parts[1], "hello");
    assert_eq!(parts[2], "response");
}

#[test]
fn translation_key_builds_component_by_component() {
    let mut key = TranslationKey::new();
    key.add_component("settings");
    key.add_component("language");
    key.add_component("label");
    assert_eq!(key.as_string(), "settings.language.label");
    assert_eq!(key.len(), 3);
}

#[test]
fn language_parses_locale_tags() {
    assert_eq!(Language::from_str("en-US").unwrap(), Language::English);
    assert_eq!(Language::from_str("es-419").unwrap(), Language::Spanish);
    let err = Language::from_str("fr-FR").unwrap_err();
    assert_eq!(err.input(), "fr-FR");
}

#[test]
fn language_file_tags_and_names() {
    assert_eq!(Language::English.as_str(), "en_US");
    assert_eq!(Language::Spanish.as_str(), "es_419");
    assert_eq!(Language::English.display_name(), "English");
    assert_eq!(Language::Spanish.display_name(), "Spanish");
    assert_eq!(Language::default_language(), Language::English);
    assert_eq!(Language::all(), vec![Language::English, Language::Spanish]);
}

#[test]
fn language_storage_codes_round_trip() {
    for lang in [Language::English, Language::Spanish] {
        let code = lang.storage_code();
        assert_eq!(Language::from_storage_code(code), Some(lang));
    }
    assert_eq!(Language::from_storage_code("fr"), None);
}

#[test]
fn localization_error_messages_name_the_failure() {
    let store = english_store();
    let args: Vec<String> = vec![];
    let bad = localize_message(&store, "a..b", Language::English, &args).unwrap_err();
    assert_eq!(bad.message(), "Bad key: a..b");
    let unknown = localize_message(&store, "command.hello", Language::English, &args).unwrap_err();
    assert_eq!(unknown.message(), "Unknown key: command.hello");
    let unsupported =
        localize_message(&store, "command.hello.response", Language::Spanish, &args).unwrap_err();
    assert_eq!(unsupported.message(), "Unsupported language: es_419");
}

#[test]
fn other_languages_stay_usable_when_one_is_absent() {
    let mut store = TranslationStore::new();
    let root = TranslationNode::Branch(vec![("hola".to_string(), leaf("Hola {}"))]);
    store.insert(Language::Spanish, root);
    let args: Vec<String> = vec!["Nater".to_string()];
    assert_eq!(
        localize_message(&store, "hola", Language::Spanish, &args).unwrap(),
        "Hola Nater"
    );
    assert!(matches!(
        localize_message(&store, "hola", Language::English, &args),
        Err(LocalizationError::UnsupportedLanguage(Language::English))
    ));
}
