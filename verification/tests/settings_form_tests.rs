use jpass::password_gen::generate_password;
use jpass::settings::{
    AppSettings, AppTheme, EditPasswordGenerationMode, EntryActionDisplay, PrimaryActionDisplay,
    ToastPosition,
};
use jpass::settings_form::{
    clipboard_timeout_from_value, dialog_length_from_value, generator_length_from_value,
    clamp_generator_length, clipboard_timeout_for, dialog_length, entry_display_from_value,
    entry_display_value, generation_mode_from_value, generation_mode_value, generator_options,
    position_from_value, position_value, primary_display_from_value, primary_display_value,
    theme_from_value, theme_value,
};

#[test]
fn form_values_read_back() {
    for t in [AppTheme::Dark, AppTheme::Light, AppTheme::System] {
        assert_eq!(theme_from_value(theme_value(t)), t);
    }
    let positions = [
        ToastPosition::TopLeft,
        ToastPosition::TopCenter,
        ToastPosition::TopRight,
        ToastPosition::CenterLeft,
        ToastPosition::Center,
        ToastPosition::CenterRight,
        ToastPosition::BottomLeft,
        ToastPosition::BottomCenter,
        ToastPosition::BottomRight,
    ];
    for p in positions {
        assert_eq!(position_from_value(position_value(p)), p);
    }
    assert_eq!(position_value(ToastPosition::CenterRight), "center-right");
    assert_eq!(theme_value(AppTheme::System), "system");
}

#[test]
fn unknown_values_fall_back() {
    assert_eq!(theme_from_value("neon"), AppTheme::Dark);
    assert_eq!(position_from_value(""), ToastPosition::BottomRight);
    assert_eq!(entry_display_from_value("Icons"), EntryActionDisplay::Text);
    assert_eq!(entry_display_from_value("icons"), EntryActionDisplay::Icons);
    assert_eq!(entry_display_value(EntryActionDisplay::Icons), "icons");
    assert_eq!(primary_display_from_value("icons"), PrimaryActionDisplay::Icons);
    assert_eq!(primary_display_value(PrimaryActionDisplay::Text), "text");
    assert_eq!(generation_mode_from_value("full"), EditPasswordGenerationMode::FullGenerator);
    assert_eq!(generation_mode_from_value("x"), EditPasswordGenerationMode::AutoGenerate);
    assert_eq!(generation_mode_value(EditPasswordGenerationMode::AutoGenerate), "auto");
}

#[test]
fn number_bounds() {
    assert_eq!(clamp_generator_length(2), 4);
    assert_eq!(clamp_generator_length(64), 64);
    assert_eq!(clamp_generator_length(500), 128);
    assert_eq!(dialog_length(None), 20);
    assert_eq!(dialog_length(Some(1000)), 128);
    assert_eq!(clipboard_timeout_for(0), 1);
    assert_eq!(clipboard_timeout_for(30), 30);
}

#[test]
fn generator_options_follow_settings() {
    let mut s = AppSettings::default();
    s.generator_length = 200;
    s.generator_symbols = false;
    let o = generator_options(&s);
    assert_eq!(o.length, 128);
    assert!(!o.symbols && o.lowercase && o.uppercase && o.digits);
    let p = generate_password(o);
    assert_eq!(p.len(), 128);
    assert!(p.chars().all(|c| c.is_ascii_alphanumeric()));
}

#[test]
fn typed_numbers() {
    assert_eq!(clipboard_timeout_from_value("30"), Some(30));
    assert_eq!(clipboard_timeout_from_value("+0"), Some(1));
    assert_eq!(clipboard_timeout_from_value(" 30"), None);
    assert_eq!(clipboard_timeout_from_value("-3"), None);
    assert_eq!(clipboard_timeout_from_value("18446744073709551616"), None);
    assert_eq!(generator_length_from_value("2"), Some(4));
    assert_eq!(generator_length_from_value("64"), Some(64));
    assert_eq!(generator_length_from_value(""), None);
    assert_eq!(dialog_length_from_value("abc"), 20);
    assert_eq!(dialog_length_from_value("1000"), 128);
}
