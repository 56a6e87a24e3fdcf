use color_operators::rgb::RGB;

#[test]
fn array_to_tuple() {
    let array = [255, 0, 42];
    let rgb = RGB::from_array(array.clone());
    let (red, green, blue) = rgb.to_tuple();
    assert_eq!(red, array[0]);
    assert_eq!(green, array[1]);
    assert_eq!(blue, array[2]);
}

#[test]
fn vector_to_tuple() {
    let vector = vec![255, 0, 42];
    let rgb = RGB::from_vector(vector.clone());
    let (red, green, blue) = rgb.to_tuple();
    assert_eq!(red, vector[0]);
    assert_eq!(green, vector[1]);
    assert_eq!(blue, vector[2]);
}

#[test]
fn from_hex() {
    let hex = "ABCDEF";
    let rgb = RGB::from_hex_string(hex);
    let expected = RGB::new(171, 205, 239);
    assert_eq!(rgb, Ok(expected));
}

#[test]
fn red_with_blue() {
    let left = RGB::new(25, 0, 0);
    let right = RGB::new(0, 0, 25);
    let result = left.rotate_rgb(right);
    let expected = RGB::new(25, 0, 25);
    assert_eq!(result, expected);
}

#[test]
fn overflow() {
    let left = RGB::new(250, 0, 0);
    let right = RGB::new(50, 0, 0);
    let result = left.rotate_rgb(right);
    let expected = RGB::new(45, 0, 0);
    assert_eq!(result, expected);
}

#[test]
fn red() {
    let left = RGB::new(25, 0, 0);
    let right = RGB::new(25, 0, 0);
    let result = left.sub(right);
    let expected = RGB::new(0, 0, 0);
    assert_eq!(result, Ok(expected));
}

#[test]
fn green() {
    let left = RGB::new(0, 25, 0);
    let right = RGB::new(0, 25, 0);
    let result = left.sub(right);
    let expected = RGB::new(0, 0, 0);
    assert_eq!(result, Ok(expected));
}

#[test]
fn blue() {
    let left = RGB::new(0, 0, 25);
    let right = RGB::new(0, 0, 25);
    let result = left.sub(right);
    let expected = RGB::new(0, 0, 0);
    assert_eq!(result, Ok(expected));
}

#[test]
fn all() {
    let left = RGB::new(25, 25, 25);
    let right = RGB::new(25, 25, 25);
    let result = left.sub(right);
    let expected = RGB::new(0, 0, 0);
    assert_eq!(result, Ok(expected));
}
