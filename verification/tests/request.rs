use airsense::request::humidity_input;

fn text(value: &str) -> Option<String> {
    Some(String::from(value))
}

#[test]
fn both_parameters_make_an_input() {
    assert_eq!(
        humidity_input(text("25.0"), text("50.0")),
        Some((String::from("25.0"), String::from("50.0")))
    );
}

#[test]
fn no_parameter_makes_no_input() {
    assert_eq!(humidity_input(None, None), None);
}

#[test]
fn a_temperature_alone_is_treated_as_nothing() {
    assert_eq!(humidity_input(text("25.0"), None), humidity_input(None, None));
    assert_eq!(humidity_input(text("25.0"), None), None);
}

#[test]
fn a_humidity_alone_is_treated_as_nothing() {
    assert_eq!(humidity_input(None, text("50.0")), humidity_input(None, None));
    assert_eq!(humidity_input(None, text("50.0")), None);
}

#[test]
fn the_texts_are_passed_on_unread() {
    assert_eq!(
        humidity_input(text(""), text("not a number")),
        Some((String::new(), String::from("not a number")))
    );
}
