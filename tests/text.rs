use pokedex::{
    append_padding, get_styled_pokemon_type, get_type_color, int_text, join_texts,
    split_capitalize, uppercase_first_letter, PrepareForDisplay,
};

#[test]
fn uppercase_first_letter_cases() {
    assert_eq!(uppercase_first_letter("pound"), String::from("Pound"));
    assert_eq!(uppercase_first_letter(""), String::new());
    assert_eq!(uppercase_first_letter("ß"), String::from("SS"));
    assert_eq!(uppercase_first_letter("éclair"), String::from("Éclair"));
}

#[test]
fn split_capitalize_cases() {
    assert_eq!(split_capitalize("x-y"), String::from("X Y"));
    assert_eq!(split_capitalize("kanto-route-3"), String::from("Kanto Route 3"));
    assert_eq!(split_capitalize("level up"), String::from("Level up"));
    assert_eq!(split_capitalize(""), String::new());
    assert_eq!(split_capitalize("a--b-"), String::from("A  B "));
}

#[test]
fn append_padding_puts_no_break_space_first() {
    assert_eq!(append_padding("ID"), String::from("\u{A0}ID"));
    assert_eq!(append_padding(""), String::from("\u{A0}"));
}

#[test]
fn prepare_for_display_on_strings() {
    assert_eq!(String::from("sharp-fang").split_capitalize(), String::from("Sharp Fang"));
    assert_eq!(String::from("Guts").append_padding(), String::from("\u{A0}Guts"));
}

#[test]
fn int_text_cases() {
    assert_eq!(int_text(0), String::from("0"));
    assert_eq!(int_text(7), String::from("7"));
    assert_eq!(int_text(120), String::from("120"));
    assert_eq!(int_text(-45), String::from("-45"));
    assert_eq!(int_text(i32::MAX), String::from("2147483647"));
    assert_eq!(int_text(i32::MIN), String::from("-2147483648"));
}

#[test]
fn join_texts_cases() {
    let parts = vec![String::from("Walk"), String::from("Surf"), String::from("Headbutt")];
    assert_eq!(join_texts(&parts, ", "), String::from("Walk, Surf, Headbutt"));
    assert_eq!(join_texts(&Vec::new(), ", "), String::new());
    assert_eq!(join_texts(&vec![String::from("One")], ", "), String::from("One"));
}

#[test]
fn type_colors() {
    assert_eq!(get_type_color("normal"), Some((170, 170, 153)));
    assert_eq!(get_type_color("dragon"), Some((119, 102, 238)));
    assert_eq!(get_type_color("shadow"), None);
    assert_eq!(get_styled_pokemon_type("fire"), Some((String::from("Fire "), (255, 68, 34))));
    assert_eq!(get_styled_pokemon_type(""), None);
}
