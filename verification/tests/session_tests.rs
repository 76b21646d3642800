use crypto_bro::checksum::sha256_checksum;
use crypto_bro::cipher::decrypt_aes256_cbc;
use crypto_bro::key_material::{decode_key, encode_key, KeyError};
use crypto_bro::session::{
    advance, destination_namespace, notice_for, read_final_choice, read_key_decision,
    read_menu_choice, source_namespace, Action, Event, FinalChoice, KeyDecision, MenuChoice, Mode,
    Notice, Stage, Step,
};
use crypto_bro::vault::FileVaultError;

const REPORT: &str = "MemTotal: 100 kB\nMemAvailable: 4 kB\n";

fn line(text: &str) -> Event {
    Event::Line(text.to_string())
}

fn back_to_menu(notice: Notice) -> Step {
    Step { stage: Stage::Menu, notice: Some(notice), action: Action::ShowMenu }
}

fn closed(action: Action) -> Step {
    Step { stage: Stage::Closed, notice: None, action }
}

fn listing() -> Vec<String> {
    vec!["data/a.env".to_string(), "data/b.txt".to_string()]
}

fn inspected(size: u64) -> Event {
    Event::Inspected { name: "b.txt".to_string(), size, meminfo: Some(REPORT.to_string()) }
}

#[test]
fn menu_lines_are_read_without_the_white_space_around() {
    assert_eq!(read_menu_choice(Mode::Pack, "e"), MenuChoice::Begin);
    assert_eq!(read_menu_choice(Mode::Pack, " e\n"), MenuChoice::Begin);
    assert_eq!(read_menu_choice(Mode::Pack, "d"), MenuChoice::Invalid);
    assert_eq!(read_menu_choice(Mode::Unpack, "d\r\n"), MenuChoice::Begin);
    assert_eq!(read_menu_choice(Mode::Unpack, "e"), MenuChoice::Invalid);
    for mode in [Mode::Pack, Mode::Unpack] {
        assert_eq!(read_menu_choice(mode, "m\n"), MenuChoice::MainMenu);
        assert_eq!(read_menu_choice(mode, "\tq "), MenuChoice::Quit);
        for text in ["", "\n", "E", "ee", "e m", "x", "quit"] {
            assert_eq!(read_menu_choice(mode, text), MenuChoice::Invalid, "line {:?}", text);
        }
    }
}

#[test]
fn key_and_final_lines_are_read() {
    assert_eq!(read_key_decision("a\n"), KeyDecision::Accept);
    assert_eq!(read_key_decision(" r"), KeyDecision::Regenerate);
    assert_eq!(read_key_decision("q"), KeyDecision::Cancel);
    assert_eq!(read_key_decision("m"), KeyDecision::Invalid);
    assert_eq!(read_key_decision(""), KeyDecision::Invalid);
    assert_eq!(read_final_choice("m\n"), FinalChoice::MainMenu);
    assert_eq!(read_final_choice("q\n"), FinalChoice::Quit);
    assert_eq!(read_final_choice("a"), FinalChoice::Invalid);
    assert_eq!(read_final_choice("mq"), FinalChoice::Invalid);
}

#[test]
fn namespaces_follow_the_mode() {
    assert_eq!(source_namespace(Mode::Pack), "data");
    assert_eq!(destination_namespace(Mode::Pack), "data/encrypted");
    assert_eq!(source_namespace(Mode::Unpack), "data/encrypted");
    assert_eq!(destination_namespace(Mode::Unpack), "data/decrypted");
}

#[test]
fn notices_follow_the_vault() {
    assert_eq!(
        notice_for(FileVaultError::InvalidKey(KeyError::WrongLength)),
        Notice::InvalidKey(KeyError::WrongLength)
    );
    assert_eq!(
        notice_for(FileVaultError::CipherFailure("why".to_string())),
        Notice::CipherFailure("why".to_string())
    );
    assert_eq!(notice_for(FileVaultError::DecryptionFailed), Notice::DecryptionFailed);
}

#[test]
fn menu_stage_answers() {
    assert_eq!(
        advance(Mode::Pack, Stage::Menu, line("e\n")),
        Step { stage: Stage::Listing, notice: None, action: Action::ListCandidates }
    );
    assert_eq!(advance(Mode::Pack, Stage::Menu, line("m\n")), closed(Action::Leave));
    assert_eq!(advance(Mode::Unpack, Stage::Menu, line("q\n")), closed(Action::Quit));
    assert_eq!(advance(Mode::Unpack, Stage::Menu, line("e\n")), back_to_menu(Notice::InvalidChoice));
    assert_eq!(advance(Mode::Pack, Stage::Menu, line("\n")), back_to_menu(Notice::InvalidChoice));
}

#[test]
fn listing_stage_answers() {
    assert_eq!(
        advance(Mode::Pack, Stage::Listing, Event::Candidates(None)),
        back_to_menu(Notice::NoFileSelected)
    );
    assert_eq!(
        advance(Mode::Pack, Stage::Listing, Event::Candidates(Some(Vec::new()))),
        back_to_menu(Notice::NoFilesFound)
    );
    assert_eq!(
        advance(Mode::Pack, Stage::Listing, Event::Candidates(Some(listing()))),
        Step {
            stage: Stage::Choosing { candidates: listing() },
            notice: None,
            action: Action::ShowCandidates
        }
    );
}

#[test]
fn choosing_stage_answers() {
    let stage = Stage::Choosing { candidates: listing() };
    assert_eq!(
        advance(Mode::Pack, stage.clone(), line("2\n")),
        Step {
            stage: Stage::Inspecting { path: "data/b.txt".to_string() },
            notice: None,
            action: Action::Inspect
        }
    );
    for answer in ["0\n", "3\n", "b\n", "\n"] {
        assert_eq!(
            advance(Mode::Pack, stage.clone(), line(answer)),
            back_to_menu(Notice::NoFileSelected),
            "answer {:?}",
            answer
        );
    }
}

#[test]
fn inspection_admits_up_to_the_limit() {
    let stage = Stage::Inspecting { path: "data/b.txt".to_string() };
    assert_eq!(
        advance(Mode::Unpack, stage.clone(), inspected(1024)),
        Step {
            stage: Stage::AwaitingKey { path: "data/b.txt".to_string(), name: "b.txt".to_string() },
            notice: None,
            action: Action::AskKey
        }
    );
    for mode in [Mode::Pack, Mode::Unpack] {
        assert_eq!(
            advance(mode, stage.clone(), inspected(1025)),
            back_to_menu(Notice::FileTooLarge { limit: 1024, actual: 1025 })
        );
    }
    let without_report = Event::Inspected { name: "b.txt".to_string(), size: 5_242_881, meminfo: None };
    assert_eq!(
        advance(Mode::Pack, stage.clone(), without_report),
        back_to_menu(Notice::FileTooLarge { limit: 5_242_880, actual: 5_242_881 })
    );
}

#[test]
fn inspection_shows_a_fresh_key_for_a_pack() {
    let stage = Stage::Inspecting { path: "data/b.txt".to_string() };
    let step = advance(Mode::Pack, stage, inspected(1024));
    assert_eq!(step.notice, None);
    assert_eq!(step.action, Action::ShowKey);
    match step.stage {
        Stage::Confirming { path, name, token } => {
            assert_eq!(path, "data/b.txt");
            assert_eq!(name, "b.txt");
            assert_eq!(decode_key(&token).map(|k| k.len()), Ok(32));
        }
        other => panic!("unexpected stage {:?}", other),
    }
}

#[test]
fn confirming_stage_answers() {
    let token = encode_key(&[3u8; 32]);
    let stage = Stage::Confirming {
        path: "data/b.txt".to_string(),
        name: "b.txt".to_string(),
        token: token.clone(),
    };
    assert_eq!(
        advance(Mode::Pack, stage.clone(), line("a\n")),
        Step {
            stage: Stage::Loading {
                path: "data/b.txt".to_string(),
                name: "b.txt".to_string(),
                token: token.clone()
            },
            notice: None,
            action: Action::Load
        }
    );
    assert_eq!(advance(Mode::Pack, stage.clone(), line("q\n")), closed(Action::Leave));
    assert_eq!(
        advance(Mode::Pack, stage.clone(), line("x\n")),
        Step { stage: stage.clone(), notice: Some(Notice::InvalidInput), action: Action::ShowKey }
    );
    let step = advance(Mode::Pack, stage.clone(), line("r\n"));
    assert_eq!(step.notice, None);
    assert_eq!(step.action, Action::ShowKey);
    match step.stage {
        Stage::Confirming { path, name, token: fresh } => {
            assert_eq!(path, "data/b.txt");
            assert_eq!(name, "b.txt");
            assert_ne!(fresh, token);
            assert_eq!(decode_key(&fresh).map(|k| k.len()), Ok(32));
        }
        other => panic!("unexpected stage {:?}", other),
    }
}

#[test]
fn awaiting_key_stage_answers() {
    let token = encode_key(&[3u8; 32]);
    let stage = Stage::AwaitingKey { path: "p/b.locked".to_string(), name: "b.locked".to_string() };
    assert_eq!(
        advance(Mode::Unpack, stage.clone(), line(&format!("  {}\r\n", token))),
        Step {
            stage: Stage::Loading {
                path: "p/b.locked".to_string(),
                name: "b.locked".to_string(),
                token: token.clone()
            },
            notice: None,
            action: Action::Load
        }
    );
    assert_eq!(
        advance(Mode::Unpack, stage.clone(), line("not a token\n")),
        back_to_menu(Notice::InvalidKey(KeyError::MalformedToken))
    );
    assert_eq!(
        advance(Mode::Unpack, stage.clone(), line("AAAA\n")),
        back_to_menu(Notice::InvalidKey(KeyError::WrongLength))
    );
    assert_eq!(
        advance(Mode::Unpack, stage.clone(), line("\n")),
        back_to_menu(Notice::InvalidKey(KeyError::WrongLength))
    );
}

#[test]
fn loading_stage_packs() {
    let token = encode_key(&[3u8; 32]);
    let stage = Stage::Loading {
        path: "data/b.txt".to_string(),
        name: "b.txt".to_string(),
        token: token.clone(),
    };
    assert_eq!(
        advance(Mode::Pack, stage.clone(), Event::Contents(None)),
        back_to_menu(Notice::ReadFailed)
    );
    let step = advance(Mode::Pack, stage, Event::Contents(Some(b"hello-secrets".to_vec())));
    assert_eq!(step.notice, None);
    let envelope = match step.action {
        Action::Save { bytes } => bytes,
        other => panic!("unexpected action {:?}", other),
    };
    assert_eq!(
        step.stage,
        Stage::Saving {
            path: "data/encrypted/b.txt.locked".to_string(),
            checksum: sha256_checksum(&envelope)
        }
    );
    assert_eq!(decrypt_aes256_cbc(&envelope, &[3u8; 32]), Ok(b"hello-secrets".to_vec()));
}

#[test]
fn loading_stage_unpacks() {
    let token = encode_key(&[3u8; 32]);
    let packing = Stage::Loading {
        path: "data/b.txt".to_string(),
        name: "b.txt".to_string(),
        token: token.clone(),
    };
    let envelope = match advance(Mode::Pack, packing, Event::Contents(Some(b"hello-secrets".to_vec()))).action {
        Action::Save { bytes } => bytes,
        other => panic!("unexpected action {:?}", other),
    };
    let stage = Stage::Loading {
        path: "data/encrypted/b.txt.locked".to_string(),
        name: "b.txt.locked".to_string(),
        token,
    };
    assert_eq!(
        advance(Mode::Unpack, stage.clone(), Event::Contents(Some(envelope))),
        Step {
            stage: Stage::Saving {
                path: "data/decrypted/b.txt".to_string(),
                checksum: sha256_checksum(b"hello-secrets")
            },
            notice: None,
            action: Action::Save { bytes: b"hello-secrets".to_vec() }
        }
    );
    assert_eq!(
        advance(Mode::Unpack, stage.clone(), Event::Contents(Some(vec![1u8; 10]))),
        back_to_menu(Notice::DecryptionFailed)
    );
    assert_eq!(
        advance(Mode::Unpack, stage, Event::Contents(None)),
        back_to_menu(Notice::ReadFailed)
    );
}

#[test]
fn loading_stage_refuses_a_bad_token() {
    let stage = Stage::Loading { path: "p".to_string(), name: "n".to_string(), token: "bad".to_string() };
    for mode in [Mode::Pack, Mode::Unpack] {
        assert_eq!(
            advance(mode, stage.clone(), Event::Contents(Some(vec![0u8; 32]))),
            back_to_menu(Notice::InvalidKey(KeyError::MalformedToken))
        );
    }
}

#[test]
fn saving_and_reported_stages_answer() {
    let saving = Stage::Saving { path: "out/x".to_string(), checksum: "abcd".to_string() };
    let reported = Stage::Reported { path: "out/x".to_string(), checksum: "abcd".to_string() };
    assert_eq!(
        advance(Mode::Pack, saving.clone(), Event::Saved(true)),
        Step { stage: reported.clone(), notice: None, action: Action::Report }
    );
    assert_eq!(
        advance(Mode::Pack, saving, Event::Saved(false)),
        back_to_menu(Notice::WriteFailed)
    );
    assert_eq!(advance(Mode::Pack, reported.clone(), line("m\n")), closed(Action::Leave));
    assert_eq!(advance(Mode::Pack, reported.clone(), line("q\n")), closed(Action::Quit));
    assert_eq!(
        advance(Mode::Pack, reported.clone(), line("e\n")),
        Step { stage: reported, notice: Some(Notice::InvalidInput), action: Action::AskAgain }
    );
}

#[test]
fn an_event_out_of_turn_ends_the_session() {
    assert_eq!(advance(Mode::Pack, Stage::Menu, Event::Saved(true)), closed(Action::Leave));
    assert_eq!(advance(Mode::Pack, Stage::Listing, line("e")), closed(Action::Leave));
    assert_eq!(advance(Mode::Unpack, Stage::Closed, line("e")), closed(Action::Leave));
    assert_eq!(
        advance(Mode::Unpack, Stage::Inspecting { path: "p".to_string() }, Event::Contents(None)),
        closed(Action::Leave)
    );
}

#[test]
fn a_whole_pack_and_unpack() {
    let mut step = advance(Mode::Pack, Stage::Menu, line("e\n"));
    step = advance(Mode::Pack, step.stage, Event::Candidates(Some(listing())));
    step = advance(Mode::Pack, step.stage, line("1\n"));
    step = advance(
        Mode::Pack,
        step.stage,
        Event::Inspected { name: "a.env".to_string(), size: 13, meminfo: None },
    );
    step = advance(Mode::Pack, step.stage, line("r\n"));
    let token = match &step.stage {
        Stage::Confirming { token, .. } => token.clone(),
        other => panic!("unexpected stage {:?}", other),
    };
    step = advance(Mode::Pack, step.stage, line("a\n"));
    assert_eq!(step.action, Action::Load);
    step = advance(Mode::Pack, step.stage, Event::Contents(Some(b"hello-secrets".to_vec())));
    let envelope = match step.action {
        Action::Save { bytes } => bytes,
        other => panic!("unexpected action {:?}", other),
    };
    step = advance(Mode::Pack, step.stage, Event::Saved(true));
    assert_eq!(
        step.stage,
        Stage::Reported {
            path: "data/encrypted/a.env.locked".to_string(),
            checksum: sha256_checksum(&envelope)
        }
    );
    step = advance(Mode::Pack, step.stage, line("m\n"));
    assert_eq!(step, closed(Action::Leave));

    let mut step = advance(Mode::Unpack, Stage::Menu, line("d\n"));
    step = advance(
        Mode::Unpack,
        step.stage,
        Event::Candidates(Some(vec!["data/encrypted/a.env.locked".to_string()])),
    );
    step = advance(Mode::Unpack, step.stage, line("1\n"));
    step = advance(
        Mode::Unpack,
        step.stage,
        Event::Inspected { name: "a.env.locked".to_string(), size: 32, meminfo: None },
    );
    assert_eq!(step.action, Action::AskKey);
    step = advance(Mode::Unpack, step.stage, line(&format!("{}\n", token)));
    step = advance(Mode::Unpack, step.stage, Event::Contents(Some(envelope)));
    assert_eq!(step.action, Action::Save { bytes: b"hello-secrets".to_vec() });
    step = advance(Mode::Unpack, step.stage, Event::Saved(true));
    assert_eq!(
        step.stage,
        Stage::Reported {
            path: "data/decrypted/a.env".to_string(),
            checksum: sha256_checksum(b"hello-secrets")
        }
    );
    step = advance(Mode::Unpack, step.stage, line("q\n"));
    assert_eq!(step, closed(Action::Quit));
}
