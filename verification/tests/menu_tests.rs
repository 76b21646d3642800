use crypto_bro::key_material::decode_key;
use crypto_bro::menu::{
    generate_key, label_of, labelled, read_key_option, read_main_choice, KeyOption, MainChoice,
};

fn words(list: &[&str]) -> Vec<String> {
    list.iter().map(|w| w.to_string()).collect()
}

#[test]
fn main_menu_reads_digits_and_q() {
    for (key, kind) in [('1', 1u32), ('2', 2), ('3', 3), ('4', 4), ('5', 5), ('6', 6), ('7', 7)] {
        assert_eq!(read_main_choice(Some(key)), MainChoice::Generate(kind));
    }
    assert_eq!(read_main_choice(Some('8')), MainChoice::Pack);
    assert_eq!(read_main_choice(Some('9')), MainChoice::Unpack);
    assert_eq!(read_main_choice(Some('q')), MainChoice::Quit);
    assert_eq!(read_main_choice(Some('0')), MainChoice::InvalidChoice);
    for key in ['Q', 'a', ' ', '/', ':', '\u{661}', '\n'] {
        assert_eq!(read_main_choice(Some(key)), MainChoice::InvalidInput, "key {:?}", key);
    }
    assert_eq!(read_main_choice(None), MainChoice::InvalidInput);
}

#[test]
fn key_options_are_single_letters() {
    assert_eq!(read_key_option(Some('c')), KeyOption::Copy);
    assert_eq!(read_key_option(Some('r')), KeyOption::Regenerate);
    assert_eq!(read_key_option(Some('m')), KeyOption::MainMenu);
    assert_eq!(read_key_option(Some('q')), KeyOption::Quit);
    for key in ['C', 'x', '1', ' '] {
        assert_eq!(read_key_option(Some(key)), KeyOption::Invalid);
    }
    assert_eq!(read_key_option(None), KeyOption::Invalid);
}

#[test]
fn labels_name_the_seven_kinds() {
    assert_eq!(label_of(1), Some("Base64 encoded, 256-bit (OpenSSL)"));
    assert_eq!(label_of(2), Some("Base64 encoded, 256-bit (Ring)"));
    assert_eq!(label_of(3), Some("UUID (v4)"));
    assert_eq!(label_of(4), Some("Base64 encoded, 256-bit (API Key)"));
    assert_eq!(label_of(5), Some("16-character password"));
    assert_eq!(label_of(6), Some("32-character password"));
    assert_eq!(label_of(7), Some("Username (Word list generated)"));
    for choice in [0u32, 8, 9, 100, u32::MAX] {
        assert_eq!(label_of(choice), None);
    }
}

#[test]
fn labelled_keeps_secret_label_and_kind() {
    assert_eq!(labelled(3, Some("abc".to_string())), Some(("abc".to_string(), "UUID (v4)", 3)));
    assert_eq!(labelled(3, None), None);
    assert_eq!(labelled(0, Some("abc".to_string())), None);
    assert_eq!(labelled(8, Some("abc".to_string())), None);
}

#[test]
fn generate_key_serves_every_kind() {
    let descriptors = words(&["brave"]);
    let names = words(&["otter"]);
    for choice in 1u32..=7 {
        let (secret, label, kind) = generate_key(choice, &descriptors, &names).expect("a secret");
        assert_eq!(kind, choice);
        assert_eq!(Some(label), label_of(choice));
        match choice {
            1 | 2 | 4 => assert_eq!(decode_key(&secret).map(|k| k.len()), Ok(32)),
            3 => assert_eq!(secret.len(), 36),
            5 => assert_eq!(secret.len(), 16),
            6 => assert_eq!(secret.len(), 32),
            _ => assert!(secret == "brave_otter" || secret == "braveotter"),
        }
    }
}

#[test]
fn generate_key_knows_no_other_kind() {
    let none: Vec<String> = Vec::new();
    for choice in [0u32, 8, 9, 42, u32::MAX] {
        assert_eq!(generate_key(choice, &none, &none), None);
    }
}
