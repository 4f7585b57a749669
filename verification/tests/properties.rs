use rebind::ActionId;
use rebind::Builder;
use rebind::Button;
use rebind::ButtonTuple;
use rebind::Input;
use rebind::InputRebind;
use rebind::InputTranslator;
use rebind::Motion;
use rebind::Size;
use rebind::Translated;
use rebind::Viewport;

fn kb(code: u32) -> Button {
    Button::Keyboard(code)
}

fn test_size() -> Size {
    Size { width: 800, height: 600 }
}

#[test]
fn end_to_end_two_actions() {
    let translator = Builder::new(test_size())
        .with_mapping(ActionId(1), kb(101))
        .with_mapping(ActionId(1), kb(102))
        .with_mapping(ActionId(2), kb(103))
        .with_mapping(ActionId(2), kb(104))
        .build_translator();

    assert_eq!(
        translator.translate(&Input::Press(kb(103))),
        Some(Translated::Press(ActionId(2)))
    );
    assert_eq!(
        translator.translate(&Input::Press(kb(102))),
        Some(Translated::Press(ActionId(1)))
    );
    assert_eq!(translator.translate(&Input::Press(kb(999))), None);
}

#[test]
fn unbound_button_translates_to_none() {
    let translator = InputTranslator::new(test_size());
    assert_eq!(translator.translate(&Input::Press(kb(7))), None);
    assert_eq!(translator.translate(&Input::Release(kb(7))), None);
}

#[test]
fn release_translates_to_release() {
    let translator = Builder::new(test_size())
        .with_mapping(ActionId(4), kb(42))
        .build_translator();
    assert_eq!(
        translator.translate(&Input::Release(kb(42))),
        Some(Translated::Release(ActionId(4)))
    );
}

#[test]
fn ignored_events_translate_to_none() {
    let translator = Builder::new(test_size())
        .with_mapping(ActionId(4), kb(42))
        .build_translator();
    assert_eq!(translator.translate(&Input::Resize(100, 100)), None);
    assert_eq!(translator.translate(&Input::Focus(true)), None);
}

#[test]
fn scroll_inversion_along_x_axis() {
    let translator = Builder::new(test_size())
        .x_scroll_inverted(true)
        .build_translator();
    assert_eq!(
        translator.translate(&Input::Move(Motion::Scroll(2, 3))),
        Some(Translated::Move(Motion::Scroll(-2, 3)))
    );
}

#[test]
fn scroll_inversion_along_y_axis() {
    let translator = Builder::new(test_size())
        .y_scroll_inverted(true)
        .build_translator();
    assert_eq!(
        translator.translate(&Input::Move(Motion::Scroll(2, 3))),
        Some(Translated::Move(Motion::Scroll(2, -3)))
    );
}

#[test]
fn scroll_inversion_saturates_at_the_representation_edge() {
    let translator = Builder::new(test_size())
        .x_scroll_inverted(true)
        .build_translator();
    assert_eq!(
        translator.translate(&Input::Move(Motion::Scroll(i64::MIN, 0))),
        Some(Translated::Move(Motion::Scroll(i64::MAX, 0)))
    );
}

#[test]
fn cursor_mirror_saturates_at_the_representation_edge() {
    let translator = Builder::new(test_size())
        .x_motion_inverted(true)
        .build_translator();
    assert_eq!(
        translator.translate(&Input::Move(Motion::Cursor(i64::MIN, 0))),
        Some(Translated::Move(Motion::Cursor(i64::MAX, 0)))
    );
}

#[test]
fn relative_motion_passes_through_unchanged() {
    let translator = Builder::new(test_size())
        .x_motion_inverted(true)
        .y_motion_inverted(true)
        .x_scroll_inverted(true)
        .y_scroll_inverted(true)
        .build_translator();
    assert_eq!(
        translator.translate(&Input::Move(Motion::Relative(-5, 9))),
        Some(Translated::Move(Motion::Relative(-5, 9)))
    );
}

#[test]
fn sensitivity_does_not_affect_translation() {
    let low = Builder::new(test_size())
        .x_motion_inverted(true)
        .mouse_sensitivity(0)
        .build_translator();
    let high = Builder::new(test_size())
        .x_motion_inverted(true)
        .mouse_sensitivity(123456789)
        .build_translator();
    let motion = Input::Move(Motion::Cursor(45, 11));
    assert_eq!(low.translate(&motion), high.translate(&motion));
}

#[test]
fn sensitivity_is_preserved_across_conversions() {
    let rebind = Builder::new(test_size())
        .mouse_sensitivity(77)
        .build_rebind();
    let translator = rebind.into_translator();
    let rebind_again = translator.into_rebind();
    let translator_again = rebind_again.into_translator();
    let expected = Builder::new(test_size())
        .mouse_sensitivity(77)
        .build_translator();
    assert_eq!(translator_again, expected);
}

#[test]
fn builder_getters_report_configuration() {
    let builder = Builder::new(Size { width: 640, height: 480 })
        .x_scroll_inverted(true)
        .y_motion_inverted(true)
        .mouse_sensitivity(9);
    assert!(builder.get_x_scroll_inverted());
    assert!(!builder.get_y_scroll_inverted());
    assert!(!builder.get_x_motion_inverted());
    assert!(builder.get_y_motion_inverted());
    assert_eq!(builder.get_mouse_sensitivity(), 9);
    assert_eq!(builder.get_viewport_size(), Size { width: 640, height: 480 });
    let builder = builder.viewport_size(Size { width: 320, height: 200 });
    assert_eq!(builder.get_viewport_size(), Size { width: 320, height: 200 });
}

#[test]
fn insert_on_full_tuple_fails_and_leaves_slots_unchanged() {
    let mut bt = ButtonTuple(Some(kb(1)), Some(kb(2)), Some(kb(3)));
    assert!(!bt.insert_inplace(kb(4)));
    assert_eq!(bt, ButtonTuple(Some(kb(1)), Some(kb(2)), Some(kb(3))));
}

#[test]
fn successive_inserts_raise_the_count() {
    let mut bt = ButtonTuple::new();
    assert_eq!(bt.num_buttons_set(), 0);
    assert!(bt.insert_inplace(kb(1)));
    assert_eq!(bt.num_buttons_set(), 1);
    assert!(bt.insert_inplace(kb(2)));
    assert_eq!(bt.num_buttons_set(), 2);
    assert!(bt.insert_inplace(kb(3)));
    assert_eq!(bt.num_buttons_set(), 3);
    assert!(!bt.insert_inplace(kb(4)));
    assert_eq!(bt.num_buttons_set(), 3);
}

#[test]
fn sparse_tuple_operations_work() {
    let mut bt = ButtonTuple(None, Some(kb(2)), None);
    assert_eq!(bt.num_buttons_set(), 1);
    assert!(bt.contains(kb(2)));
    assert!(!bt.contains(kb(1)));
    assert!(bt.insert_inplace(kb(1)));
    assert_eq!(bt, ButtonTuple(Some(kb(1)), Some(kb(2)), None));
    assert_eq!(bt.max_buttons(), 3);
}

#[test]
fn iter_yields_the_slots_in_index_order() {
    let bt = ButtonTuple(Some(kb(1)), None, Some(kb(3)));
    let mut it = bt.iter();
    assert_eq!(it.next(), Some(Some(kb(1))));
    assert_eq!(it.next(), Some(None));
    assert_eq!(it.next(), Some(Some(kb(3))));
    assert_eq!(it.next(), None);
    assert_eq!(it.next(), None);
}

#[test]
fn build_rebind_groups_buttons_by_action() {
    let rebind = Builder::new(test_size())
        .with_mapping(ActionId(1), kb(1))
        .with_mapping(ActionId(2), kb(3))
        .with_mapping(ActionId(1), kb(2))
        .build_rebind();
    assert_eq!(
        rebind.get_bindings(ActionId(1)),
        Some(ButtonTuple(Some(kb(1)), Some(kb(2)), None))
    );
    assert_eq!(
        rebind.get_bindings(ActionId(2)),
        Some(ButtonTuple(Some(kb(3)), None, None))
    );
    assert_eq!(rebind.get_bindings(ActionId(3)), None);
}

#[test]
fn compression_drops_buttons_beyond_the_third() {
    let rebind = Builder::new(test_size())
        .with_mapping(ActionId(1), kb(1))
        .with_mapping(ActionId(1), kb(2))
        .with_mapping(ActionId(1), kb(3))
        .with_mapping(ActionId(1), kb(4))
        .build_rebind();
    assert_eq!(
        rebind.get_bindings(ActionId(1)),
        Some(ButtonTuple(Some(kb(1)), Some(kb(2)), Some(kb(3))))
    );
}

#[test]
fn round_trip_preserves_bindings_and_mouse_config() {
    let translator = Builder::new(Size { width: 1024, height: 768 })
        .x_motion_inverted(true)
        .y_scroll_inverted(true)
        .mouse_sensitivity(5)
        .with_mapping(ActionId(1), kb(1))
        .with_mapping(ActionId(1), kb(2))
        .with_mapping(ActionId(2), kb(3))
        .build_translator();
    let round_tripped = translator.clone().into_rebind().into_translator();
    assert_eq!(translator, round_tripped);
}

#[test]
fn expansion_resolves_button_conflicts_by_the_later_entry() {
    let shared = kb(50);
    let mut rebind = InputRebind::new(test_size());
    rebind.insert_action_with_buttons(ActionId(1), ButtonTuple(Some(shared), None, None));
    rebind.insert_action_with_buttons(ActionId(2), ButtonTuple(Some(shared), None, None));
    let translator = rebind.into_translator();
    assert_eq!(
        translator.translate(&Input::Press(shared)),
        Some(Translated::Press(ActionId(2)))
    );
}

#[test]
fn insert_action_resets_and_returns_the_old_tuple() {
    let mut rebind = InputRebind::new(test_size());
    assert_eq!(rebind.insert_action(ActionId(1)), None);
    let filled = ButtonTuple(Some(kb(1)), Some(kb(2)), None);
    assert_eq!(rebind.insert_action_with_buttons(ActionId(1), filled), Some(ButtonTuple::new()));
    assert_eq!(rebind.insert_action(ActionId(1)), Some(filled));
    assert_eq!(rebind.get_bindings(ActionId(1)), Some(ButtonTuple::new()));
}

#[test]
fn rebind_mouse_accessors_read_and_write_the_configuration() {
    let mut rebind = InputRebind::default();
    assert_eq!(rebind.get_viewport_size(), Size { width: 800, height: 600 });
    assert!(!rebind.get_x_scroll_inverted());
    rebind.set_x_scroll_inverted(true);
    rebind.set_y_scroll_inverted(true);
    rebind.set_x_motion_inverted(true);
    rebind.set_y_motion_inverted(true);
    rebind.set_viewport_size(Size { width: 400, height: 300 });
    assert!(rebind.get_x_scroll_inverted());
    assert!(rebind.get_y_scroll_inverted());
    assert!(rebind.get_x_motion_inverted());
    assert!(rebind.get_y_motion_inverted());
    assert_eq!(rebind.get_viewport_size(), Size { width: 400, height: 300 });

    let translator = rebind.into_translator();
    assert_eq!(
        translator.translate(&Input::Move(Motion::Cursor(45, 11))),
        Some(Translated::Move(Motion::Cursor(355, 289)))
    );
}

#[test]
fn set_size_changes_only_the_viewport() {
    let mut translator = Builder::new(test_size())
        .x_motion_inverted(true)
        .with_mapping(ActionId(1), kb(1))
        .build_translator();
    translator.set_size(Size { width: 100, height: 100 });
    assert_eq!(
        translator.translate(&Input::Move(Motion::Cursor(45, 11))),
        Some(Translated::Move(Motion::Cursor(55, 11)))
    );
    assert_eq!(
        translator.translate(&Input::Press(kb(1))),
        Some(Translated::Press(ActionId(1)))
    );
}

#[test]
fn set_size_from_viewport_uses_the_drawing_area() {
    let mut translator = Builder::new(test_size())
        .x_motion_inverted(true)
        .build_translator();
    let vp = Viewport {
        rect: [0, 0, 400, 300],
        draw_size: [400, 300],
        window_size: [400, 300],
    };
    translator.set_size_from_viewport(vp);
    assert_eq!(
        translator.translate(&Input::Move(Motion::Cursor(45, 11))),
        Some(Translated::Move(Motion::Cursor(355, 11)))
    );
}

#[test]
fn translators_with_different_bindings_are_not_equal() {
    let a = Builder::new(test_size())
        .with_mapping(ActionId(1), kb(1))
        .build_translator();
    let b = Builder::new(test_size())
        .with_mapping(ActionId(2), kb(1))
        .build_translator();
    let c = Builder::new(test_size())
        .with_mapping(ActionId(1), kb(1))
        .x_scroll_inverted(true)
        .build_translator();
    assert_ne!(a, b);
    assert_ne!(a, c);
    assert_eq!(a, a.clone());
}

#[test]
fn seeding_the_same_button_twice_keeps_the_later_action() {
    let translator = Builder::new(test_size())
        .with_mapping(ActionId(1), kb(1))
        .with_mapping(ActionId(2), kb(1))
        .build_translator();
    assert_eq!(
        translator.translate(&Input::Press(kb(1))),
        Some(Translated::Press(ActionId(2)))
    );
}
