use jpass::password_gen::{generate_password, PasswordOptions};

const SYMBOLS: &str = "!@#$%^&*()-_=+[]{}<>?";

#[test]
fn default_options_give_twenty_characters_of_every_class() {
    let opts = PasswordOptions::default();
    assert_eq!(opts.length, 20);
    assert!(opts.lowercase && opts.uppercase && opts.digits && opts.symbols);
    for _ in 0..20 {
        let p = generate_password(opts);
        assert_eq!(p.len(), 20);
        assert!(p.chars().any(|c| c.is_ascii_lowercase()));
        assert!(p.chars().any(|c| c.is_ascii_uppercase()));
        assert!(p.chars().any(|c| c.is_ascii_digit()));
        assert!(p.chars().any(|c| SYMBOLS.contains(c)));
        assert!(p.chars().all(|c| c.is_ascii_alphanumeric() || SYMBOLS.contains(c)));
    }
}

#[test]
fn only_enabled_classes_are_used() {
    let opts = PasswordOptions { length: 32, lowercase: false, uppercase: false, digits: true, symbols: false };
    let p = generate_password(opts);
    assert_eq!(p.len(), 32);
    assert!(p.chars().all(|c| c.is_ascii_digit()));
}

#[test]
fn no_class_falls_back_to_lowercase() {
    let opts = PasswordOptions { length: 12, lowercase: false, uppercase: false, digits: false, symbols: false };
    let p = generate_password(opts);
    assert_eq!(p.len(), 12);
    assert!(p.chars().all(|c| c.is_ascii_lowercase()));
}

#[test]
fn length_is_raised_to_one_per_class() {
    let opts = PasswordOptions { length: 0, lowercase: true, uppercase: true, digits: true, symbols: true };
    let p = generate_password(opts);
    assert_eq!(p.len(), 4);
    assert!(p.chars().any(|c| c.is_ascii_lowercase()));
    assert!(p.chars().any(|c| c.is_ascii_uppercase()));
    assert!(p.chars().any(|c| c.is_ascii_digit()));
    assert!(p.chars().any(|c| SYMBOLS.contains(c)));
    let none = PasswordOptions { length: 0, lowercase: false, uppercase: false, digits: false, symbols: false };
    assert_eq!(generate_password(none).len(), 1);
}
