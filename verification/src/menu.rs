//! What the main menu decides: which secret a choice stands for, and what a
//! key press asks for.

use crate::key_material::is_key_token;
use crate::secrets::{
    generate_api_key, generate_openssl_key, generate_password, generate_ring_key,
    generate_username, generate_uuid, is_password, is_username, is_uuid_text,
};
use vstd::prelude::*;

verus! {

/// What a key press on the main menu asks for.
#[derive(Debug, Clone, Copy, PartialEq, Eq, Structural)]
pub enum MainChoice {
    /// Generate the secret of this kind, 1 to 7.
    Generate(u32),
    /// Enter the pack menu.
    Pack,
    /// Enter the unpack menu.
    Unpack,
    /// Leave the program.
    Quit,
    /// A digit that numbers no entry.
    InvalidChoice,
    /// No digit and not `q`.
    InvalidInput,
}

/// What a key press below a generated secret asks for.
#[derive(Debug, Clone, Copy, PartialEq, Eq, Structural)]
pub enum KeyOption {
    Copy,
    Regenerate,
    MainMenu,
    Quit,
    Invalid,
}

/// The reading of a key press on the main menu; `None` is a key that types
/// no character.
pub open spec fn main_choice(key: Option<char>) -> MainChoice {
    match key {
        Some(c) => if c == 'q' {
            MainChoice::Quit
        } else if '1' <= c <= '7' {
            MainChoice::Generate((c as u32 - '0' as u32) as u32)
        } else if c == '8' {
            MainChoice::Pack
        } else if c == '9' {
            MainChoice::Unpack
        } else if c == '0' {
            MainChoice::InvalidChoice
        } else {
            MainChoice::InvalidInput
        },
        None => MainChoice::InvalidInput,
    }
}

/// The reading of a key press below a generated secret.
pub open spec fn key_option(key: Option<char>) -> KeyOption {
    match key {
        Some(c) => if c == 'c' {
            KeyOption::Copy
        } else if c == 'r' {
            KeyOption::Regenerate
        } else if c == 'm' {
            KeyOption::MainMenu
        } else if c == 'q' {
            KeyOption::Quit
        } else {
            KeyOption::Invalid
        },
        None => KeyOption::Invalid,
    }
}

/// The description that is shown with a secret of the kind `choice`.
pub open spec fn key_label(choice: u32) -> Seq<char> {
    if choice == 1 {
        "Base64 encoded, 256-bit (OpenSSL)"@
    } else if choice == 2 {
        "Base64 encoded, 256-bit (Ring)"@
    } else if choice == 3 {
        "UUID (v4)"@
    } else if choice == 4 {
        "Base64 encoded, 256-bit (API Key)"@
    } else if choice == 5 {
        "16-character password"@
    } else if choice == 6 {
        "32-character password"@
    } else {
        "Username (Word list generated)"@
    }
}

/// Whether `secret` is a secret of the kind `choice`.
pub open spec fn is_secret_of(
    choice: u32,
    secret: Seq<char>,
    descriptors: Seq<String>,
    names: Seq<String>,
) -> bool {
    if choice == 1 || choice == 2 || choice == 4 {
        is_key_token(secret)
    } else if choice == 3 {
        is_uuid_text(secret)
    } else if choice == 5 {
        is_password(secret, 16)
    } else if choice == 6 {
        is_password(secret, 32)
    } else {
        is_username(secret, descriptors, names)
    }
}

/// Reads a key press on the main menu.
pub fn read_main_choice(key: Option<char>) -> (r: MainChoice)
    ensures
        r == main_choice(key),
{
    match key {
        Some(c) => {
            if c == 'q' {
                MainChoice::Quit
            } else if '1' <= c && c <= '7' {
                MainChoice::Generate(c as u32 - '0' as u32)
            } else if c == '8' {
                MainChoice::Pack
            } else if c == '9' {
                MainChoice::Unpack
            } else if c == '0' {
                MainChoice::InvalidChoice
            } else {
                MainChoice::InvalidInput
            }
        },
        None => MainChoice::InvalidInput,
    }
}

/// Reads a key press below a generated secret.
pub fn read_key_option(key: Option<char>) -> (r: KeyOption)
    ensures
        r == key_option(key),
{
    match key {
        Some(c) => {
            if c == 'c' {
                KeyOption::Copy
            } else if c == 'r' {
                KeyOption::Regenerate
            } else if c == 'm' {
                KeyOption::MainMenu
            } else if c == 'q' {
                KeyOption::Quit
            } else {
                KeyOption::Invalid
            }
        },
        None => KeyOption::Invalid,
    }
}

/// The description of the kind `choice`; `None` where it numbers no kind.
pub fn label_of(choice: u32) -> (r: Option<&'static str>)
    ensures
        match r {
            Some(label) => 1 <= choice <= 7 && label@ == key_label(choice),
            None => !(1 <= choice <= 7),
        },
{
    if choice == 1 {
        Some("Base64 encoded, 256-bit (OpenSSL)")
    } else if choice == 2 {
        Some("Base64 encoded, 256-bit (Ring)")
    } else if choice == 3 {
        Some("UUID (v4)")
    } else if choice == 4 {
        Some("Base64 encoded, 256-bit (API Key)")
    } else if choice == 5 {
        Some("16-character password")
    } else if choice == 6 {
        Some("32-character password")
    } else if choice == 7 {
        Some("Username (Word list generated)")
    } else {
        None
    }
}

/// The menu entry for a secret that was generated for the kind `choice`: the
/// secret, the description of the kind, and the kind. There is none where
/// nothing was generated or `choice` numbers no kind.
pub fn labelled(choice: u32, secret: Option<String>) -> (r: Option<(String, &'static str, u32)>)
    ensures
        match r {
            Some((text, label, kind)) => {
                &&& 1 <= choice <= 7
                &&& secret == Some(text)
                &&& label@ == key_label(choice)
                &&& kind == choice
            },
            None => secret is None || !(1 <= choice <= 7),
        },
{
    match (label_of(choice), secret) {
        (Some(label), Some(text)) => Some((text, label, choice)),
        _ => None,
    }
}

/// Generates the secret of the kind `choice`, 1 to 7, from fresh randomness.
///
/// A choice that numbers no kind gives `None`. The kinds 3 to 7 always give
/// a secret; the kinds 1 and 2 give `None` where their generator failed.
pub fn generate_key(choice: u32, descriptors: &Vec<String>, names: &Vec<String>) -> (r: Option<
    (String, &'static str, u32),
>)
    requires
        choice == 7 ==> descriptors@.len() > 0 && names@.len() > 0,
    ensures
        !(1 <= choice <= 7) ==> r is None,
        3 <= choice <= 7 ==> r is Some,
        r matches Some((text, label, kind)) ==> {
            &&& kind == choice
            &&& label@ == key_label(choice)
            &&& is_secret_of(choice, text@, descriptors@, names@)
        },
{
    let secret: Option<String> = if choice == 1 {
        generate_openssl_key()
    } else if choice == 2 {
        generate_ring_key()
    } else if choice == 3 {
        Some(generate_uuid())
    } else if choice == 4 {
        Some(generate_api_key())
    } else if choice == 5 {
        Some(generate_password(16))
    } else if choice == 6 {
        Some(generate_password(32))
    } else if choice == 7 {
        Some(generate_username(descriptors, names))
    } else {
        None
    };
    labelled(choice, secret)
}

} // verus!
