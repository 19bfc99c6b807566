use hotkeyz::mouse::{
    button_press, hwheel, input_mouses, left_click, left_down, left_up, middle_click, mouse_record,
    move_delta, move_to, right_click, wheel, MouseButton, MouseInput, MouseRecord, PressType,
};
use hotkeyz::window::Rect;

const SCREEN: (i32, i32) = (1920, 1080);

#[test]
fn test_move_to() {
    let inputs = move_to(0, 0);
    assert_eq!(inputs, vec![MouseInput::MoveTo(0, 0)]);
    assert_eq!(
        input_mouses(&inputs, SCREEN),
        vec![MouseRecord { dx: 0, dy: 0, mouse_data: 0, flags: 0x8001 }]
    );
}

#[test]
fn test_move_delta() {
    let inputs = move_delta(100, 100);
    assert_eq!(inputs, vec![MouseInput::MoveDelta(100, 100)]);
    assert_eq!(
        input_mouses(&inputs, SCREEN),
        vec![MouseRecord { dx: 100, dy: 100, mouse_data: 0, flags: 0x0001 }]
    );
}

#[test]
fn test_left_click() {
    let inputs = left_click();
    assert_eq!(inputs, vec![MouseInput::Press(MouseButton::ButtonLeft, PressType::Click)]);
    assert_eq!(
        input_mouses(&inputs, SCREEN),
        vec![MouseRecord { dx: 0, dy: 0, mouse_data: 0, flags: 0x0006 }]
    );
}

#[test]
fn test_select_square() {
    let records = input_mouses(
        &vec![
            MouseInput::Press(MouseButton::ButtonLeft, PressType::PressDown),
            MouseInput::MoveDelta(100, 100),
            MouseInput::Press(MouseButton::ButtonLeft, PressType::PressUp),
        ],
        SCREEN,
    );
    assert_eq!(
        records,
        vec![
            MouseRecord { dx: 0, dy: 0, mouse_data: 0, flags: 0x0002 },
            MouseRecord { dx: 100, dy: 100, mouse_data: 0, flags: 0x0001 },
            MouseRecord { dx: 0, dy: 0, mouse_data: 0, flags: 0x0004 },
        ]
    );
}

#[test]
fn single_events() {
    assert_eq!(left_down(), vec![MouseInput::Press(MouseButton::ButtonLeft, PressType::PressDown)]);
    assert_eq!(left_up(), vec![MouseInput::Press(MouseButton::ButtonLeft, PressType::PressUp)]);
    assert_eq!(right_click(), vec![MouseInput::Press(MouseButton::ButtonRight, PressType::Click)]);
    assert_eq!(middle_click(), vec![MouseInput::Press(MouseButton::ButtonMiddle, PressType::Click)]);
    assert_eq!(wheel(-120), vec![MouseInput::Wheel(-120)]);
    assert_eq!(hwheel(240), vec![MouseInput::HWheel(240)]);
    assert_eq!(
        button_press(MouseButton::ButtonX2, PressType::PressUp),
        vec![MouseInput::Press(MouseButton::ButtonX2, PressType::PressUp)]
    );
}

#[test]
fn numbers_stand_for_buttons_and_presses() {
    assert_eq!(MouseButton::from_i32(0), Some(MouseButton::ButtonLeft));
    assert_eq!(MouseButton::from_i32(1), Some(MouseButton::ButtonRight));
    assert_eq!(MouseButton::from_i32(2), Some(MouseButton::ButtonMiddle));
    assert_eq!(MouseButton::from_i32(3), Some(MouseButton::ButtonX1));
    assert_eq!(MouseButton::from_i32(4), Some(MouseButton::ButtonX2));
    assert_eq!(MouseButton::from_i32(5), None);
    assert_eq!(MouseButton::from_i32(-1), None);
    assert_eq!(PressType::from_i32(0), None);
    assert_eq!(PressType::from_i32(1), Some(PressType::PressDown));
    assert_eq!(PressType::from_i32(2), Some(PressType::PressUp));
    assert_eq!(PressType::from_i32(3), Some(PressType::Click));
    assert_eq!(PressType::from_i32(4), None);
    for i in -3..8 {
        if let Some(button) = MouseButton::from_i32(i) {
            assert_eq!(button.to_i32(), i);
        }
        if let Some(press) = PressType::from_i32(i) {
            assert_eq!(press.to_i32(), i);
        }
    }
}

#[test]
fn absolute_moves_are_scaled_to_the_screen() {
    let record = |x, y, screen| mouse_record(&MouseInput::MoveTo(x, y), screen);
    assert_eq!(
        record(960, 540, SCREEN),
        MouseRecord { dx: 32767, dy: 32767, mouse_data: 0, flags: 0x8001 }
    );
    assert_eq!(record(1919, 1080, SCREEN).dx, 65500);
    assert_eq!(record(1919, 1080, SCREEN).dy, 65535);
    // The quotient is rounded towards zero, whatever the signs.
    assert_eq!(record(-1, 1, SCREEN).dx, -34);
    assert_eq!(record(-1, 1, SCREEN).dy, 60);
    assert_eq!(record(1, -1, (-1920, -1080)).dx, -34);
    assert_eq!(record(1, -1, (-1920, -1080)).dy, 60);
    // What does not fit in 32 bits is cut to them.
    assert_eq!(record(i32::MAX, i32::MIN, (1, 1)).dx, 2147418113);
    assert_eq!(record(i32::MAX, i32::MIN, (1, 1)).dy, i32::MIN);
    assert_eq!(record(i32::MIN, 7, (i32::MIN, -1)).dx, 65535);
    assert_eq!(record(i32::MIN, 7, (i32::MIN, -1)).dy, -458745);
}

#[test]
fn presses_carry_the_flags_of_their_button() {
    let flags = |button, press| {
        let record = mouse_record(&MouseInput::Press(button, press), (0, 0));
        assert_eq!((record.dx, record.dy), (0, 0));
        (record.flags, record.mouse_data)
    };
    assert_eq!(flags(MouseButton::ButtonLeft, PressType::PressDown), (0x0002, 0));
    assert_eq!(flags(MouseButton::ButtonLeft, PressType::PressUp), (0x0004, 0));
    assert_eq!(flags(MouseButton::ButtonLeft, PressType::Click), (0x0006, 0));
    assert_eq!(flags(MouseButton::ButtonRight, PressType::PressDown), (0x0008, 0));
    assert_eq!(flags(MouseButton::ButtonRight, PressType::PressUp), (0x0010, 0));
    assert_eq!(flags(MouseButton::ButtonRight, PressType::Click), (0x0018, 0));
    assert_eq!(flags(MouseButton::ButtonMiddle, PressType::PressDown), (0x0020, 0));
    assert_eq!(flags(MouseButton::ButtonMiddle, PressType::PressUp), (0x0040, 0));
    assert_eq!(flags(MouseButton::ButtonMiddle, PressType::Click), (0x0060, 0));
    assert_eq!(flags(MouseButton::ButtonX1, PressType::PressDown), (0x0080, 1));
    assert_eq!(flags(MouseButton::ButtonX1, PressType::PressUp), (0x0100, 1));
    assert_eq!(flags(MouseButton::ButtonX1, PressType::Click), (0x0180, 1));
    assert_eq!(flags(MouseButton::ButtonX2, PressType::PressDown), (0x0080, 2));
    assert_eq!(flags(MouseButton::ButtonX2, PressType::PressUp), (0x0100, 2));
    assert_eq!(flags(MouseButton::ButtonX2, PressType::Click), (0x0180, 2));
}

#[test]
fn wheels_carry_the_amount() {
    assert_eq!(
        mouse_record(&MouseInput::Wheel(-120), (0, 0)),
        MouseRecord { dx: 0, dy: 0, mouse_data: -120, flags: 0x0800 }
    );
    assert_eq!(
        mouse_record(&MouseInput::HWheel(240), SCREEN),
        MouseRecord { dx: 0, dy: 0, mouse_data: 240, flags: 0x1000 }
    );
}

#[test]
fn records_keep_the_order_of_the_events() {
    assert_eq!(input_mouses(&[], (0, 0)), vec![]);
    assert_eq!(
        input_mouses(
            &[MouseInput::Wheel(1), MouseInput::MoveTo(1920, 0), MouseInput::MoveDelta(-5, 6)],
            SCREEN
        ),
        vec![
            MouseRecord { dx: 0, dy: 0, mouse_data: 1, flags: 0x0800 },
            MouseRecord { dx: 65535, dy: 0, mouse_data: 0, flags: 0x8001 },
            MouseRecord { dx: -5, dy: 6, mouse_data: 0, flags: 0x0001 },
        ]
    );
}

#[test]
fn rect_holds_its_edges() {
    let rect = Rect { left: -8, top: 0, right: 1928, bottom: 1040 };
    assert_eq!((rect.left, rect.top, rect.right, rect.bottom), (-8, 0, 1928, 1040));
    assert_eq!(rect, rect.clone());
}
