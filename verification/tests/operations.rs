use color_operators::error::ColorError;
use color_operators::rgb::Component;
use color_operators::rgb::RGB;

#[test]
fn add_in_range() {
    let left = RGB::new(100, 20, 3);
    let right = RGB::new(55, 22, 90);
    assert_eq!(left.add(right), Ok(RGB::new(155, 42, 93)));
}

#[test]
fn add_overflow_fails() {
    let left = RGB::new(250, 0, 0);
    let right = RGB::new(50, 0, 0);
    assert_eq!(left.add(right), Err(ColorError::ArithmeticOverflow));
}

#[test]
fn sub_underflow_fails() {
    let left = RGB::new(0, 25, 0);
    let right = RGB::new(0, 26, 0);
    assert_eq!(left.sub(right), Err(ColorError::ArithmeticOverflow));
}

#[test]
fn rotate_rgb_keeps_exact_sums() {
    let left = RGB::new(200, 100, 0);
    let right = RGB::new(100, 100, 255);
    assert_eq!(left.rotate_rgb(right), RGB::new(45, 200, 255));
}

#[test]
fn get_known_components() {
    let color = RGB::new(255, 42, 90);
    assert_eq!(color.get("red"), Ok(255));
    assert_eq!(color.get("green"), Ok(42));
    assert_eq!(color.get("blue"), Ok(90));
}

#[test]
fn get_unknown_component_fails() {
    let color = RGB::new(255, 42, 90);
    let expected = ColorError::NoSuchComponent("nothing".to_string());
    assert_eq!(color.get("nothing"), Err(expected));
}

#[test]
fn unknown_component_message() {
    let color = RGB::new(0, 0, 0);
    let error = color.get("nothing").unwrap_err();
    assert_eq!(error.message(), "No color component named -> nothing".to_string());
}

#[test]
fn component_selector() {
    let color = RGB::new(1, 2, 3);
    assert_eq!(color.component(Component::Red), 1);
    assert_eq!(color.component(Component::Green), 2);
    assert_eq!(color.component(Component::Blue), 3);
}

#[test]
fn default_is_black() {
    assert_eq!(RGB::default(), RGB::new(0, 0, 0));
}

#[test]
fn tuple_and_array_round_trip() {
    let color = RGB::from_tuple((9, 8, 7));
    assert_eq!(color.to_array(), [9, 8, 7]);
    assert_eq!(RGB::from_array(color.to_array()), color);
    assert_eq!(color.to_vector(), vec![9, 8, 7]);
}
