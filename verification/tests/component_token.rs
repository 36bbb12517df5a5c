use ant_leptos::component_token::{ComponentToken, ComponentTokenMap};

#[test]
fn insert_appends_and_replaces() {
    let mut token = ComponentToken::new();
    assert_eq!(token.len(), 0);
    token.insert("height".to_string(), "32px".to_string());
    token.insert("padding".to_string(), "4px".to_string());
    assert_eq!(token.len(), 2);
    assert_eq!(token.get(&"height".to_string()), Some(&"32px".to_string()));
    token.insert("height".to_string(), "40px".to_string());
    assert_eq!(token.len(), 2);
    assert_eq!(token.get(&"height".to_string()), Some(&"40px".to_string()));
    assert_eq!(token.get(&"missing".to_string()), None);
}

#[test]
fn merged_prefers_local_and_keeps_the_rest() {
    let mut parent = ComponentToken::new();
    parent.insert("height".to_string(), "32px".to_string());
    parent.insert("padding".to_string(), "4px".to_string());
    let mut local = ComponentToken::new();
    local.insert("padding".to_string(), "8px".to_string());
    local.insert("margin".to_string(), "2px".to_string());
    let merged = ComponentToken::merged(&parent, &local);
    assert_eq!(merged.len(), 3);
    assert_eq!(merged.get(&"height".to_string()), Some(&"32px".to_string()));
    assert_eq!(merged.get(&"padding".to_string()), Some(&"8px".to_string()));
    assert_eq!(merged.get(&"margin".to_string()), Some(&"2px".to_string()));
    // parent entries keep their places, fresh local entries follow
    assert_eq!(merged.token[0].0, "height");
    assert_eq!(merged.token[1].0, "padding");
    assert_eq!(merged.token[2].0, "margin");
}

#[test]
fn merged_with_empty_local_keeps_parent() {
    let mut parent = ComponentToken::new();
    parent.insert("height".to_string(), "32px".to_string());
    let merged = ComponentToken::merged(&parent, &ComponentToken::new());
    assert_eq!(merged, parent);
}

#[test]
fn merged_with_empty_parent_takes_local() {
    let mut local = ComponentToken::new();
    local.insert("height".to_string(), "32px".to_string());
    let merged = ComponentToken::merged(&ComponentToken::new(), &local);
    assert_eq!(merged, local);
}

#[test]
fn map_insert_and_get() {
    let mut map = ComponentTokenMap::new();
    let mut button = ComponentToken::new();
    button.insert("height".to_string(), "32px".to_string());
    map.insert("button".to_string(), button.clone());
    assert_eq!(map.len(), 1);
    assert_eq!(map.get(&"button".to_string()), Some(&button));
    assert_eq!(map.get(&"input".to_string()), None);
}

#[test]
fn map_merged_replaces_same_named_entries_wholesale() {
    let mut parent_button = ComponentToken::new();
    parent_button.insert("height".to_string(), "32px".to_string());
    parent_button.insert("padding".to_string(), "4px".to_string());
    let mut parent = ComponentTokenMap::new();
    parent.insert("button".to_string(), parent_button);

    let mut local_button = ComponentToken::new();
    local_button.insert("height".to_string(), "40px".to_string());
    let mut local_input = ComponentToken::new();
    local_input.insert("margin".to_string(), "2px".to_string());
    let mut local = ComponentTokenMap::new();
    local.insert("button".to_string(), local_button.clone());
    local.insert("input".to_string(), local_input.clone());

    let merged = ComponentTokenMap::merged(&parent, &local);
    assert_eq!(merged.len(), 2);
    assert_eq!(merged.get(&"button".to_string()), Some(&local_button));
    assert_eq!(merged.get(&"input".to_string()), Some(&local_input));
}
