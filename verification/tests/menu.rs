use rsnake::menu::{ConfigurationError, EndBehavior, Menu, MenuItem, Rgba, DEFAULT_FONT_SIZE};

fn three() -> Menu<'static, u8> {
    Menu::from(vec![("one", 1u8), ("two", 2u8), ("three", 3u8)]).unwrap()
}

#[test]
fn menu_without_items_is_rejected() {
    let empty: Vec<(&str, u8)> = Vec::new();
    assert!(matches!(Menu::from(empty), Err(ConfigurationError::NoItems)));
    assert!(matches!(Menu::<u8>::new(), Err(ConfigurationError::NoItems)));
}

#[test]
fn menu_from_keeps_the_entries_in_order() {
    let menu = three();
    assert_eq!(menu.len(), 3);
    assert_eq!(menu.index, 0);
    assert_eq!(menu.end_behavior, EndBehavior::Wrap);
    assert_eq!(menu.items[0].display, "one");
    assert_eq!(menu.items[1].display, "two");
    assert_eq!(menu.items[2].display, "three");
    assert_eq!(menu.items[0].out_val, 1);
    assert_eq!(menu.items[1].out_val, 2);
    assert_eq!(menu.items[2].out_val, 3);
}

#[test]
fn menu_starts_in_the_default_look() {
    let menu = three();
    assert_eq!(menu.left_sel, "> ");
    assert_eq!(menu.right_sel, " <");
    assert_eq!(menu.font_size, 40);
    assert_eq!(DEFAULT_FONT_SIZE, 40);
    assert_eq!(menu.color, Rgba { r: 245, g: 245, b: 245, a: 255 });
}

#[test]
fn menu_item_from_label_and_value() {
    let item = MenuItem::from("label", 7u8);
    assert_eq!(item.display, "label");
    assert_eq!(item.out_val, 7);
}

#[test]
fn wrap_next_from_last_yields_first() {
    let mut menu = three();
    menu.next();
    menu.next();
    assert_eq!(menu.index, 2);
    menu.next();
    assert_eq!(menu.index, 0);
}

#[test]
fn wrap_prev_from_first_yields_last() {
    let mut menu = three();
    menu.prev();
    assert_eq!(menu.index, 2);
    menu.prev();
    assert_eq!(menu.index, 1);
}

#[test]
fn clamp_prev_from_first_stays() {
    let mut menu = three().change_end_behavior();
    assert_eq!(menu.end_behavior, EndBehavior::Clamp);
    assert_eq!(menu.index, 0);
    menu.prev();
    assert_eq!(menu.index, 0);
}

#[test]
fn clamp_next_from_last_stays() {
    let mut menu = three().change_end_behavior();
    menu.next();
    assert_eq!(menu.index, 1);
    menu.next();
    assert_eq!(menu.index, 2);
    menu.next();
    assert_eq!(menu.index, 2);
    menu.prev();
    assert_eq!(menu.index, 1);
}

#[test]
fn wrap_full_circle_returns_to_the_start() {
    for len in 1..6usize {
        let labels: Vec<(&str, usize)> = (0..len).map(|v| ("entry", v)).collect();
        for start in 0..len {
            let mut menu = Menu::from(labels.clone()).unwrap();
            for _ in 0..start {
                menu.next();
            }
            assert_eq!(menu.index, start);
            for _ in 0..len {
                menu.next();
            }
            assert_eq!(menu.index, start);
            for _ in 0..len {
                menu.prev();
            }
            assert_eq!(menu.index, start);
        }
    }
}

#[test]
fn menu_of_one_entry_stays_on_it() {
    let mut wrap = Menu::from(vec![("only", 9u8)]).unwrap();
    wrap.next();
    assert_eq!(wrap.index, 0);
    wrap.prev();
    assert_eq!(wrap.index, 0);
    let mut clamp = wrap.change_end_behavior();
    clamp.next();
    assert_eq!(clamp.index, 0);
    clamp.prev();
    assert_eq!(clamp.index, 0);
}

#[test]
fn select_reads_the_current_value_and_keeps_the_index() {
    let mut menu = three();
    assert_eq!(*menu.select(), 1);
    menu.next();
    assert_eq!(*menu.select(), 2);
    assert_eq!(*menu.select(), 2);
    assert_eq!(menu.index, 1);
    menu.prev();
    menu.prev();
    assert_eq!(*menu.select(), 3);
}

#[test]
fn change_end_behavior_toggles() {
    let menu = three();
    let clamp = menu.change_end_behavior();
    assert_eq!(clamp.end_behavior, EndBehavior::Clamp);
    let wrap = clamp.change_end_behavior();
    assert_eq!(wrap.end_behavior, EndBehavior::Wrap);
    assert_eq!(wrap.len(), 3);
    assert_eq!(wrap.left_sel, "> ");
}

#[test]
fn setters_change_one_thing_each() {
    let mut menu = three();
    menu.next();
    let menu = menu
        .set_font_size(24)
        .set_color(Rgba { r: 1, g: 2, b: 3, a: 4 })
        .set_selection_indicators("[", "]");
    assert_eq!(menu.font_size, 24);
    assert_eq!(menu.color, Rgba { r: 1, g: 2, b: 3, a: 4 });
    assert_eq!(menu.left_sel, "[");
    assert_eq!(menu.right_sel, "]");
    assert_eq!(menu.index, 1);
    assert_eq!(menu.end_behavior, EndBehavior::Wrap);
    assert_eq!(menu.len(), 3);
    assert_eq!(*menu.select(), 2);
}

#[test]
fn row_text_decorates_the_selected_row_only() {
    let mut menu = three();
    assert_eq!(menu.row_text(0), "> one <");
    assert_eq!(menu.row_text(1), "two");
    assert_eq!(menu.row_text(2), "three");
    menu.prev();
    assert_eq!(menu.row_text(0), "one");
    assert_eq!(menu.row_text(2), "> three <");
    let menu = menu.set_selection_indicators("* ", "");
    assert_eq!(menu.row_text(2), "* three");
}

#[test]
fn menu_validity_follows_the_index() {
    let mut menu = three();
    assert!(menu.is_valid());
    menu.index = 2;
    assert!(menu.is_valid());
    menu.index = 3;
    assert!(!menu.is_valid());
}

#[test]
fn draw_lists_the_rows_from_the_top() {
    let mut menu = three();
    menu.next();
    assert_eq!(menu.draw(), vec!["one".to_string(), "> two <".to_string(), "three".to_string()]);
    let menu = menu.set_selection_indicators("-> ", " <-");
    assert_eq!(menu.draw(), vec!["one".to_string(), "-> two <-".to_string(), "three".to_string()]);
}
