use grease::error::GreaseError;
use grease::uniform::Uniform;

fn color_error(color: &str) -> bool {
    matches!(Uniform::validate_color(&Some(color.to_owned())), Err(GreaseError::BadRequest(_)))
}

#[test]
fn uniform_colors_are_three_or_six_hex_digits() {
    assert!(Uniform::validate_color(&None).is_ok());
    assert!(Uniform::validate_color(&Some("#fff".to_owned())).is_ok());
    assert!(Uniform::validate_color(&Some("#00FF7a".to_owned())).is_ok());
    assert!(color_error("fff"));
    assert!(color_error("#ffff"));
    assert!(color_error("#fffffff"));
    assert!(color_error("#ff f"));
    assert!(color_error("#ggg"));
    assert!(color_error("#12345_"));
    assert!(color_error("#fff\n"));
    match Uniform::validate_color(&Some("red".to_owned())) {
        Err(GreaseError::BadRequest(message)) => assert_eq!(
            message,
            "uniform colors must be in the format '#XXX' or '#XXXXXX', where X is a hexadecimal number"
        ),
        _ => panic!("expected an error"),
    }
}

#[test]
fn uniform_lookups() {
    match Uniform::load(3, None) {
        Err(GreaseError::BadRequest(message)) => assert_eq!(message, "No uniform with id 3."),
        _ => panic!("expected an error"),
    }
    match Uniform::load_default(None) {
        Err(GreaseError::ServerError(message)) => assert_eq!(message, "There are currently no uniforms."),
        _ => panic!("expected an error"),
    }
    let found = Uniform { id: 1, name: "Jackets".to_owned(), color: None, description: None };
    assert_eq!(Uniform::load_default(Some(found)).unwrap().name, "Jackets");
}
