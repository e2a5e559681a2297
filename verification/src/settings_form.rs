//! The settings form: the value each choice is shown with, how a submitted
//! value is read back, and the bounds on the numbers the user enters.
use vstd::prelude::*;
use crate::settings::{
    AppSettings, AppTheme, EditPasswordGenerationMode, EntryActionDisplay, PrimaryActionDisplay,
    ToastPosition,
};
use crate::password_gen::PasswordOptions;

verus! {

fn text_is(a: &str, b: &str) -> (r: bool)
    ensures
        r == (a@ == b@),
{
    let x = a.to_owned();
    let y = b.to_owned();
    x.eq(&y)
}

/// The form value of a theme.
pub open spec fn theme_text(t: AppTheme) -> Seq<char> {
    match t {
        AppTheme::Dark => "dark"@,
        AppTheme::Light => "light"@,
        AppTheme::System => "system"@,
    }
}

/// The theme a submitted value selects: dark for anything unknown.
pub open spec fn theme_of(v: Seq<char>) -> AppTheme {
    if v == "light"@ {
        AppTheme::Light
    } else if v == "system"@ {
        AppTheme::System
    } else {
        AppTheme::Dark
    }
}

/// The form value of a theme.
pub fn theme_value(t: AppTheme) -> (s: &'static str)
    ensures
        s@ == theme_text(t),
{
    match t {
        AppTheme::Dark => "dark",
        AppTheme::Light => "light",
        AppTheme::System => "system",
    }
}

/// The theme a submitted value selects.
pub fn theme_from_value(v: &str) -> (t: AppTheme)
    ensures
        t == theme_of(v@),
{
    if text_is(v, "light") {
        AppTheme::Light
    } else if text_is(v, "system") {
        AppTheme::System
    } else {
        AppTheme::Dark
    }
}

/// `true` for the icon form of an action display, whose value is "icons";
/// the text form's value is "text".
pub open spec fn display_text(icons: bool) -> Seq<char> {
    if icons {
        "icons"@
    } else {
        "text"@
    }
}

/// The form value of the entry action display.
pub fn entry_display_value(d: EntryActionDisplay) -> (s: &'static str)
    ensures
        s@ == display_text(d == EntryActionDisplay::Icons),
{
    match d {
        EntryActionDisplay::Text => "text",
        EntryActionDisplay::Icons => "icons",
    }
}

/// The entry action display a submitted value selects: text unless "icons".
pub fn entry_display_from_value(v: &str) -> (d: EntryActionDisplay)
    ensures
        d == (if v@ == "icons"@ {
            EntryActionDisplay::Icons
        } else {
            EntryActionDisplay::Text
        }),
{
    if text_is(v, "icons") {
        EntryActionDisplay::Icons
    } else {
        EntryActionDisplay::Text
    }
}

/// The form value of the primary action display.
pub fn primary_display_value(d: PrimaryActionDisplay) -> (s: &'static str)
    ensures
        s@ == display_text(d == PrimaryActionDisplay::Icons),
{
    match d {
        PrimaryActionDisplay::Text => "text",
        PrimaryActionDisplay::Icons => "icons",
    }
}

/// The primary action display a submitted value selects: text unless "icons".
pub fn primary_display_from_value(v: &str) -> (d: PrimaryActionDisplay)
    ensures
        d == (if v@ == "icons"@ {
            PrimaryActionDisplay::Icons
        } else {
            PrimaryActionDisplay::Text
        }),
{
    if text_is(v, "icons") {
        PrimaryActionDisplay::Icons
    } else {
        PrimaryActionDisplay::Text
    }
}

/// The form value of a toast position.
pub open spec fn position_text(p: ToastPosition) -> Seq<char> {
    match p {
        ToastPosition::TopLeft => "top-left"@,
        ToastPosition::TopCenter => "top-center"@,
        ToastPosition::TopRight => "top-right"@,
        ToastPosition::CenterLeft => "center-left"@,
        ToastPosition::Center => "center"@,
        ToastPosition::CenterRight => "center-right"@,
        ToastPosition::BottomLeft => "bottom-left"@,
        ToastPosition::BottomCenter => "bottom-center"@,
        ToastPosition::BottomRight => "bottom-right"@,
    }
}

/// The toast position a submitted value selects: bottom right for anything
/// unknown.
pub open spec fn position_of(v: Seq<char>) -> ToastPosition {
    if v == "top-left"@ {
        ToastPosition::TopLeft
    } else if v == "top-center"@ {
        ToastPosition::TopCenter
    } else if v == "top-right"@ {
        ToastPosition::TopRight
    } else if v == "center-left"@ {
        ToastPosition::CenterLeft
    } else if v == "center"@ {
        ToastPosition::Center
    } else if v == "center-right"@ {
        ToastPosition::CenterRight
    } else if v == "bottom-left"@ {
        ToastPosition::BottomLeft
    } else if v == "bottom-center"@ {
        ToastPosition::BottomCenter
    } else {
        ToastPosition::BottomRight
    }
}

/// The form value of a toast position.
pub fn position_value(p: ToastPosition) -> (s: &'static str)
    ensures
        s@ == position_text(p),
{
    match p {
        ToastPosition::TopLeft => "top-left",
        ToastPosition::TopCenter => "top-center",
        ToastPosition::TopRight => "top-right",
        ToastPosition::CenterLeft => "center-left",
        ToastPosition::Center => "center",
        ToastPosition::CenterRight => "center-right",
        ToastPosition::BottomLeft => "bottom-left",
        ToastPosition::BottomCenter => "bottom-center",
        ToastPosition::BottomRight => "bottom-right",
    }
}

/// The toast position a submitted value selects.
pub fn position_from_value(v: &str) -> (p: ToastPosition)
    ensures
        p == position_of(v@),
{
    if text_is(v, "top-left") {
        ToastPosition::TopLeft
    } else if text_is(v, "top-center") {
        ToastPosition::TopCenter
    } else if text_is(v, "top-right") {
        ToastPosition::TopRight
    } else if text_is(v, "center-left") {
        ToastPosition::CenterLeft
    } else if text_is(v, "center") {
        ToastPosition::Center
    } else if text_is(v, "center-right") {
        ToastPosition::CenterRight
    } else if text_is(v, "bottom-left") {
        ToastPosition::BottomLeft
    } else if text_is(v, "bottom-center") {
        ToastPosition::BottomCenter
    } else {
        ToastPosition::BottomRight
    }
}

/// The form value of the password generation mode of the entry editor.
pub fn generation_mode_value(m: EditPasswordGenerationMode) -> (s: &'static str)
    ensures
        s@ == (if m == EditPasswordGenerationMode::FullGenerator {
            "full"@
        } else {
            "auto"@
        }),
{
    match m {
        EditPasswordGenerationMode::AutoGenerate => "auto",
        EditPasswordGenerationMode::FullGenerator => "full",
    }
}

/// The generation mode a submitted value selects: automatic unless "full".
pub fn generation_mode_from_value(v: &str) -> (m: EditPasswordGenerationMode)
    ensures
        m == (if v@ == "full"@ {
            EditPasswordGenerationMode::FullGenerator
        } else {
            EditPasswordGenerationMode::AutoGenerate
        }),
{
    if text_is(v, "full") {
        EditPasswordGenerationMode::FullGenerator
    } else {
        EditPasswordGenerationMode::AutoGenerate
    }
}

/// Every character is an ASCII decimal digit.
pub open spec fn all_digits(s: Seq<char>) -> bool {
    forall|i: int| 0 <= i < s.len() ==> '0' <= #[trigger] s[i] && s[i] <= '9'
}

/// The value of a text of decimal digits.
pub open spec fn digits_value(s: Seq<char>) -> nat
    decreases s.len(),
{
    if s.len() == 0 {
        0
    } else {
        digits_value(s.drop_last()) * 10 + ((s.last() as u32) - 48) as nat
    }
}

/// What `str::parse` gives for an unsigned integer type whose largest value
/// is `max`: the text must be an optional `+` followed by one or more decimal
/// digits, with a value that fits.
pub open spec fn parsed_unsigned(s: Seq<char>, max: nat) -> Option<nat> {
    let d = if s.len() > 0 && s[0] == '+' {
        s.drop_first()
    } else {
        s
    };
    if d.len() > 0 && all_digits(d) && digits_value(d) <= max {
        Some(digits_value(d))
    } else {
        None
    }
}

/// `str::parse::<u64>`, which the documentation of `u64`'s `FromStr` describes
/// as above; a failure is kept as `None`.
#[verifier::external_body]
fn parse_u64(s: &str) -> (r: Option<u64>)
    ensures
        match parsed_unsigned(s@, u64::MAX as nat) {
            Some(n) => r == Some(n as u64),
            None => r is None,
        },
{
    s.parse::<u64>().ok()
}

/// `str::parse::<usize>`, as `parse_u64` for `usize`.
#[verifier::external_body]
fn parse_usize(s: &str) -> (r: Option<usize>)
    ensures
        match parsed_unsigned(s@, usize::MAX as nat) {
            Some(n) => r == Some(n as usize),
            None => r is None,
        },
{
    s.parse::<usize>().ok()
}

/// Generated passwords are 4 to 128 characters long.
pub open spec fn clamped_length(n: usize) -> usize {
    if n < 4 {
        4
    } else if n > 128 {
        128
    } else {
        n
    }
}

/// A requested password length brought into 4 to 128.
pub fn clamp_generator_length(n: usize) -> (r: usize)
    ensures
        r == clamped_length(n),
{
    if n < 4 {
        4
    } else if n > 128 {
        128
    } else {
        n
    }
}

/// The length the generator dialog uses: the number entered (20 when it is
/// not a number), brought into 4 to 128.
pub fn dialog_length(entered: Option<usize>) -> (r: usize)
    ensures
        r == clamped_length(
            match entered {
                Some(n) => n,
                None => 20,
            },
        ),
{
    match entered {
        Some(n) => clamp_generator_length(n),
        None => clamp_generator_length(20),
    }
}

/// The clipboard timeout kept for an entered number of seconds: at least one.
pub fn clipboard_timeout_for(secs: u64) -> (r: u64)
    ensures
        r == (if secs < 1 {
            1
        } else {
            secs
        }),
{
    if secs < 1 {
        1
    } else {
        secs
    }
}

/// The generator options the settings ask for, with the length clamped.
pub fn generator_options(settings: &AppSettings) -> (o: PasswordOptions)
    ensures
        o.length == clamped_length(settings.generator_length),
        o.lowercase == settings.generator_lowercase,
        o.uppercase == settings.generator_uppercase,
        o.digits == settings.generator_digits,
        o.symbols == settings.generator_symbols,
{
    PasswordOptions {
        length: clamp_generator_length(settings.generator_length),
        lowercase: settings.generator_lowercase,
        uppercase: settings.generator_uppercase,
        digits: settings.generator_digits,
        symbols: settings.generator_symbols,
    }
}

/// The clipboard timeout a typed value sets: the number, at least one; none
/// when the text is not a number (the setting then stays as it was).
pub fn clipboard_timeout_from_value(v: &str) -> (r: Option<u64>)
    ensures
        match parsed_unsigned(v@, u64::MAX as nat) {
            Some(n) => r == Some(if n < 1 {
                1u64
            } else {
                n as u64
            }),
            None => r is None,
        },
{
    match parse_u64(v) {
        Some(n) => Some(clipboard_timeout_for(n)),
        None => None,
    }
}

/// The default password length a typed value sets: the number brought into
/// 4 to 128; none when the text is not a number.
pub fn generator_length_from_value(v: &str) -> (r: Option<usize>)
    ensures
        match parsed_unsigned(v@, usize::MAX as nat) {
            Some(n) => r == Some(clamped_length(n as usize)),
            None => r is None,
        },
{
    match parse_usize(v) {
        Some(n) => Some(clamp_generator_length(n)),
        None => None,
    }
}

/// The length the generator dialog uses for its typed length: the number
/// (20 when the text is not a number) brought into 4 to 128.
pub fn dialog_length_from_value(v: &str) -> (r: usize)
    ensures
        r == clamped_length(
            match parsed_unsigned(v@, usize::MAX as nat) {
                Some(n) => n as usize,
                None => 20,
            },
        ),
{
    dialog_length(parse_usize(v))
}

} // verus!
