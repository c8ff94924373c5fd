use akkurate::presets::{PresetManager, StylePreset};

fn custom(name: &str) -> StylePreset {
    StylePreset {
        name: String::from(name),
        tone: String::from("tone"),
        formality: String::from("formality"),
        instructions: String::from("custom instructions"),
    }
}

#[test]
fn builtin_casual_is_present_before_any_load() {
    let m = PresetManager::new();
    let p = m.get("casual").expect("the built-in casual preset");
    assert_eq!(p.name, "Casual");
    assert!(!p.instructions.is_empty());
    assert_eq!(p.formality, "informal");
}

#[test]
fn all_four_builtins_are_present() {
    let m = PresetManager::new();
    for key in ["casual", "business", "academic", "creative"] {
        assert!(m.get(key).is_some(), "missing {key}");
    }
    assert!(m.get("nonexistent").is_none());
    assert_eq!(m.keys().len(), 4);
    assert_eq!(m.all().len(), 4);
}

#[test]
fn an_external_entry_overrides_the_builtin_by_key() {
    let mut m = PresetManager::new();
    m.merge(vec![(String::from("casual"), custom("Override"))]);
    let p = m.get("casual").expect("still present");
    assert_eq!(p.name, "Override");
    assert_eq!(p.instructions, "custom instructions");
    // the override replaces, it does not add
    assert_eq!(m.keys().len(), 4);
}

#[test]
fn an_external_entry_with_a_new_key_is_added() {
    let mut m = PresetManager::new();
    m.merge(vec![(String::from("pirate"), custom("Pirate"))]);
    assert_eq!(m.get("pirate").expect("added").name, "Pirate");
    assert_eq!(m.keys().len(), 5);
    // the built-ins are untouched
    assert_eq!(m.get("casual").expect("builtin").name, "Casual");
}

#[test]
fn a_later_entry_wins_over_an_earlier_one() {
    let mut m = PresetManager::new();
    m.merge(vec![
        (String::from("casual"), custom("First")),
        (String::from("casual"), custom("Second")),
    ]);
    assert_eq!(m.get("casual").expect("present").name, "Second");
}

#[test]
fn keys_and_all_agree() {
    let mut m = PresetManager::new();
    m.merge(vec![(String::from("extra"), custom("Extra"))]);
    let keys = m.keys();
    let all = m.all();
    assert_eq!(keys.len(), all.len());
    for (i, key) in keys.iter().enumerate() {
        assert_eq!(&all[i].0, key);
    }
}
