use rebind::ActionId;
use rebind::Builder;
use rebind::ButtonTuple;
use rebind::Input;
use rebind::InputRebind;
use rebind::InputTranslator;
use rebind::Motion;
use rebind::Size;
use rebind::Translated;

fn kb(code: u32) -> rebind::Button {
    rebind::Button::Keyboard(code)
}

fn key_up() -> rebind::Button {
    kb(1)
}

fn key_w() -> rebind::Button {
    kb(2)
}

fn key_down() -> rebind::Button {
    kb(3)
}

fn key_s() -> rebind::Button {
    kb(4)
}

fn key_left() -> rebind::Button {
    kb(5)
}

fn key_a() -> rebind::Button {
    kb(6)
}

fn key_right() -> rebind::Button {
    kb(7)
}

fn key_d() -> rebind::Button {
    kb(8)
}

fn key_q() -> rebind::Button {
    kb(9)
}

fn key_e() -> rebind::Button {
    kb(10)
}

fn key_z() -> rebind::Button {
    kb(11)
}

fn key_d0() -> rebind::Button {
    kb(12)
}

fn key_b() -> rebind::Button {
    kb(13)
}

fn test_size() -> Size {
    Size { width: 800, height: 600 }
}

fn populate_builder(builder: Builder) -> Builder {
    builder
        .with_mapping(ActionId(1), key_up())
        .with_mapping(ActionId(1), key_w())
        .with_mapping(ActionId(2), key_down())
        .with_mapping(ActionId(2), key_s())
        .with_mapping(ActionId(3), key_left())
        .with_mapping(ActionId(3), key_a())
        .with_mapping(ActionId(4), key_right())
        .with_mapping(ActionId(4), key_d())
}

fn create_prepopulated_builder_with_size(s: Size) -> Builder {
    populate_builder(Builder::new(s))
}

fn create_prepopulated_builder() -> Builder {
    populate_builder(Builder::default())
}

#[test]
fn test_test_translator_get_action_from_buttonpress() {
    let translator = create_prepopulated_builder().build_translator();

    assert_eq!(
        translator.translate(&Input::Press(key_down())).unwrap(),
        Translated::Press(ActionId(2))
    );

    assert_eq!(
        translator.translate(&Input::Press(key_d())).unwrap(),
        Translated::Press(ActionId(4))
    );

    assert_eq!(
        translator.translate(&Input::Press(key_left())).unwrap(),
        Translated::Press(ActionId(3))
    );

    assert_eq!(
        translator.translate(&Input::Press(key_w())).unwrap(),
        Translated::Press(ActionId(1))
    );
}

#[test]
fn lib_test_translator_get_action_from_buttonpress() {
    let translator = create_prepopulated_builder().build_translator();

    assert_eq!(
        translator.translate(&Input::Press(key_down())).unwrap(),
        Translated::Press(ActionId(2))
    );

    assert_eq!(
        translator.translate(&Input::Press(key_d())).unwrap(),
        Translated::Press(ActionId(4))
    );

    assert_eq!(
        translator.translate(&Input::Press(key_left())).unwrap(),
        Translated::Press(ActionId(3))
    );

    assert_eq!(
        translator.translate(&Input::Press(key_w())).unwrap(),
        Translated::Press(ActionId(1))
    );
}

#[test]
fn test_test_conversion_from_rebind_to_translator() {
    let translator = create_prepopulated_builder().build_translator();

    let translator_clone = translator.clone();
    let converted_translator: InputTranslator = translator.into_rebind().into_translator();

    assert_eq!(translator_clone, converted_translator);
}

#[test]
fn lib_test_conversion_from_rebind_to_translator() {
    let translator = create_prepopulated_builder().build_translator();

    let translator_clone = translator.clone();
    let rebind: InputRebind = translator.into_rebind();
    let converted_translator: InputTranslator = rebind.into_translator();

    drop(translator_clone);
    drop(converted_translator);
}

#[test]
fn test_add_button_to_translator_using_rebind() {
    let q_key = key_q();
    let e_key = key_e();

    let translator = create_prepopulated_builder().build_translator();
    let mut rebind = translator.into_rebind();
    rebind.insert_action_with_buttons(ActionId(5), ButtonTuple(Some(q_key), Some(e_key), None));

    let translator = rebind.into_translator();

    assert_eq!(
        translator.translate(&Input::Press(q_key)),
        Some(Translated::Press(ActionId(5)))
    );
    assert_eq!(
        translator.translate(&Input::Press(e_key)),
        Some(Translated::Press(ActionId(5)))
    );
}

#[test]
fn test_unmodified_mouse_input_works() {
    let translator = create_prepopulated_builder_with_size(test_size()).build_translator();
    let mouse_motion = Input::Move(Motion::Cursor(45, 11));
    assert_eq!(
        translator.translate(&mouse_motion),
        Some(Translated::Move(Motion::Cursor(45, 11)))
    );
}

#[test]
fn test_mirror_mouse_input_along_x_axis() {
    let translator = create_prepopulated_builder_with_size(test_size())
        .x_motion_inverted(true)
        .build_translator();
    let mouse_motion = Input::Move(Motion::Cursor(45, 11));
    assert_eq!(
        translator.translate(&mouse_motion),
        Some(Translated::Move(Motion::Cursor(755, 11))) // 800 - 45 = 755
    );
}

#[test]
fn test_mirror_mouse_input_along_y_axis() {
    let translator = create_prepopulated_builder_with_size(test_size())
        .y_motion_inverted(true)
        .build_translator();
    let mouse_motion = Input::Move(Motion::Cursor(45, 11));
    assert_eq!(
        translator.translate(&mouse_motion),
        Some(Translated::Move(Motion::Cursor(45, 589))) // 600 - 11 = 589
    );
}

#[test]
fn test_get_num_buttons_set() {
    let mut bt = ButtonTuple::new();
    assert_eq!(bt.num_buttons_set(), 0);

    bt.0 = Some(key_z());
    assert_eq!(bt.num_buttons_set(), 1);

    bt.1 = Some(key_q());
    assert_eq!(bt.num_buttons_set(), 2);

    bt.2 = Some(key_d0());
    assert_eq!(bt.num_buttons_set(), 3);
}

#[test]
fn test_get_button_iter_len() {
    let bt = ButtonTuple(Some(key_b()), None, None);
    let mut bti = bt.iter();
    assert_eq!(bti.len(), 3);
    let _ = bti.next();
    assert_eq!(bti.len(), 2);
    let _ = bti.next();
    assert_eq!(bti.len(), 1);
    let _ = bti.next();
    assert_eq!(bti.len(), 0);
    let _ = bti.next();
    assert_eq!(bti.len(), 0);
}
