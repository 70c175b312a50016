use mac_platform::menu::{
    Keystroke, Menu, MenuItem, NativeMenuItem, ALTERNATE_KEY_MASK, COMMAND_KEY_MASK,
    CONTROL_KEY_MASK,
};
use mac_platform::platform::MacForegroundPlatform;

type Platform = MacForegroundPlatform<u8, u8, u8, u8, u8, u32>;

fn action(name: &str, key: Option<Keystroke>, command: &str, arg: Option<u32>) -> MenuItem<u32> {
    MenuItem::Action {
        name: name.to_string(),
        keystroke: key,
        action: command.to_string(),
        arg,
    }
}

fn key(cmd: bool, ctrl: bool, alt: bool, k: &str) -> Keystroke {
    Keystroke { ctrl, alt, shift: false, cmd, key: k.to_string() }
}

fn sample_menus() -> Vec<Menu<u32>> {
    vec![
        Menu {
            name: "File".to_string(),
            items: vec![
                action("Open", Some(key(true, false, false, "o")), "open", None),
                MenuItem::Separator,
                action("Quit", Some(key(true, true, true, "q")), "quit", Some(7)),
            ],
        },
        Menu {
            name: "Edit".to_string(),
            items: vec![MenuItem::Separator, action("Copy", None, "copy", Some(9))],
        },
    ]
}

fn tag_of(item: &NativeMenuItem) -> Option<usize> {
    match item {
        NativeMenuItem::Action { tag, .. } => Some(*tag),
        NativeMenuItem::Separator => None,
    }
}

#[test]
fn tags_are_dense_and_skip_separators() {
    let mut p: Platform = MacForegroundPlatform::new();
    let bar = p.set_menus(sample_menus());
    assert_eq!(bar.len(), 2);
    assert_eq!(bar[0].title, "File");
    assert_eq!(bar[1].title, "Edit");
    let tags: Vec<Option<usize>> = bar.iter().flat_map(|m| m.items.iter().map(tag_of)).collect();
    assert_eq!(tags, vec![Some(0), None, Some(1), None, Some(2)]);
    let table: Vec<(String, Option<u32>)> = p.state.menu_actions.clone();
    assert_eq!(
        table,
        vec![("open".to_string(), None), ("quit".to_string(), Some(7)), ("copy".to_string(), Some(9))]
    );
}

#[test]
fn key_equivalents_and_modifier_masks() {
    let mut p: Platform = MacForegroundPlatform::new();
    let bar = p.set_menus(sample_menus());
    match &bar[0].items[0] {
        NativeMenuItem::Action { title, key_equivalent, modifier_mask, .. } => {
            assert_eq!(title, "Open");
            assert_eq!(key_equivalent, "o");
            assert_eq!(*modifier_mask, 0x100000);
        }
        NativeMenuItem::Separator => panic!("expected an action"),
    }
    match &bar[0].items[2] {
        NativeMenuItem::Action { key_equivalent, modifier_mask, .. } => {
            assert_eq!(key_equivalent, "q");
            assert_eq!(*modifier_mask, COMMAND_KEY_MASK | CONTROL_KEY_MASK | ALTERNATE_KEY_MASK);
            assert_eq!(*modifier_mask, 0x1c0000);
        }
        NativeMenuItem::Separator => panic!("expected an action"),
    }
    match &bar[1].items[1] {
        NativeMenuItem::Action { key_equivalent, modifier_mask, .. } => {
            assert_eq!(key_equivalent, "");
            assert_eq!(*modifier_mask, 0);
        }
        NativeMenuItem::Separator => panic!("expected an action"),
    }
}

#[test]
fn rebuild_replaces_table_and_stale_tags_find_nothing() {
    let mut p: Platform = MacForegroundPlatform::new();
    p.set_menus(sample_menus());
    assert_eq!(p.menu_action(2).map(|e| e.0.clone()), Some("copy".to_string()));
    p.set_menus(vec![Menu { name: "Only".to_string(), items: vec![action("A", None, "a", None)] }]);
    assert_eq!(p.menu_action(0).map(|e| e.0.clone()), Some("a".to_string()));
    assert!(p.menu_action(1).is_none());
    assert!(p.menu_action(2).is_none());
    assert!(p.menu_action(usize::MAX).is_none());
}

#[test]
fn empty_menu_tree_gives_empty_table() {
    let mut p: Platform = MacForegroundPlatform::new();
    p.set_menus(sample_menus());
    let bar = p.set_menus(Vec::new());
    assert!(bar.is_empty());
    assert!(p.state.menu_actions.is_empty());
    assert!(p.menu_action(0).is_none());
}
