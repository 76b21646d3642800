//! The pack and unpack sessions as a state machine. A session waits in a
//! stage for an event; `advance` answers the event with the next stage, a
//! notice for the operator where something was turned down, and the action
//! whose outcome the next stage waits for. Whoever drives the session prints,
//! reads and writes; every decision is made here.

use crate::key_material::{decode_key, generate_key, is_key_token, token_key, KeyError};
use crate::size_guard::{check, max_allowed_file_size, size_limit};
use crate::text::{text_of, trim, trimmed};
use crate::vault::{
    locked_name, pack, path_in, select_by_index, selection, unlocked_name, unpack, unpacked,
    FileVaultError,
};
use crate::checksum::{hex_text, sha256};
use crate::cipher::sealed;
use vstd::prelude::*;

verus! {

/// Which way a session transforms files.
#[derive(Debug, Clone, Copy, PartialEq, Eq, Structural)]
pub enum Mode {
    Pack,
    Unpack,
}

/// What the operator asks for on a session's menu.
#[derive(Debug, Clone, Copy, PartialEq, Eq, Structural)]
pub enum MenuChoice {
    Begin,
    MainMenu,
    Quit,
    Invalid,
}

/// What the operator makes of a generated key.
#[derive(Debug, Clone, Copy, PartialEq, Eq, Structural)]
pub enum KeyDecision {
    Accept,
    Regenerate,
    Cancel,
    Invalid,
}

/// Where the operator goes once a result is reported.
#[derive(Debug, Clone, Copy, PartialEq, Eq, Structural)]
pub enum FinalChoice {
    MainMenu,
    Quit,
    Invalid,
}

/// Where a session stands: what it has settled so far, and so which event it
/// waits for.
#[derive(Debug, Clone, PartialEq, Eq)]
pub enum Stage {
    /// The menu is shown; a line is awaited.
    Menu,
    /// The listing of the source directory is awaited.
    Listing,
    /// The listing is shown; the number of a file is awaited.
    Choosing { candidates: Vec<String> },
    /// A file is picked; its name, its size and the memory report are awaited.
    Inspecting { path: String },
    /// The file is admitted and a key is shown; the operator's verdict on the
    /// key is awaited.
    Confirming { path: String, name: String, token: String },
    /// The file is admitted; the operator's key token is awaited.
    AwaitingKey { path: String, name: String },
    /// The key is settled; the contents of the file are awaited.
    Loading { path: String, name: String, token: String },
    /// The transform is done; the outcome of writing the result is awaited.
    Saving { path: String, checksum: String },
    /// The result is reported; a line is awaited.
    Reported { path: String, checksum: String },
    /// The session is over.
    Closed,
}

/// What happened outside the session.
#[derive(Debug, Clone, PartialEq, Eq)]
pub enum Event {
    /// The operator typed a line.
    Line(String),
    /// The source directory was listed: the paths of its files, or `None`
    /// where it could not be read.
    Candidates(Option<Vec<String>>),
    /// The picked file was looked at: its name, its size in bytes, and the
    /// memory report where one could be read.
    Inspected { name: String, size: u64, meminfo: Option<String> },
    /// The picked file was read: its contents, or `None` where it could not be.
    Contents(Option<Vec<u8>>),
    /// The result was written, or could not be.
    Saved(bool),
}

/// What the operator is told when something is turned down.
#[derive(Debug, Clone, PartialEq, Eq)]
pub enum Notice {
    /// The line names no entry of the menu.
    InvalidChoice,
    /// The line names none of the options on offer.
    InvalidInput,
    /// The source directory holds no file.
    NoFilesFound,
    /// No file was picked.
    NoFileSelected,
    /// The file is larger than the ceiling in force.
    FileTooLarge { limit: u64, actual: u64 },
    /// The key token is malformed or of the wrong length.
    InvalidKey(KeyError),
    /// The file could not be read.
    ReadFailed,
    /// The cipher failed while sealing.
    CipherFailure(String),
    /// The envelope did not open.
    DecryptionFailed,
    /// The result could not be written.
    WriteFailed,
}

/// What is to be done outside the session before its next event.
#[derive(Debug, Clone, PartialEq, Eq)]
pub enum Action {
    /// Show the menu and read a line.
    ShowMenu,
    /// List the files of the source directory.
    ListCandidates,
    /// Show the candidates of the stage and read a line.
    ShowCandidates,
    /// Look at the file of the stage.
    Inspect,
    /// Show the key of the stage, once, and read a line.
    ShowKey,
    /// Ask for the key token and read a line.
    AskKey,
    /// Read the file of the stage.
    Load,
    /// Write `bytes` to the path of the stage, over whatever is there.
    Save { bytes: Vec<u8> },
    /// Show the path and the checksum of the stage and read a line.
    Report,
    /// Read a line again.
    AskAgain,
    /// Go back to the main menu.
    Leave,
    /// Leave the program.
    Quit,
}

/// The answer to an event.
#[derive(Debug, Clone, PartialEq, Eq)]
pub struct Step {
    pub stage: Stage,
    pub notice: Option<Notice>,
    pub action: Action,
}

/// Whether `line`, without the white space around it, is the one character
/// `c`.
pub open spec fn answers(line: Seq<char>, c: char) -> bool {
    trimmed(line) == seq![c]
}

/// The letter that starts a transform on the menu of `mode`.
pub open spec fn begin_letter(mode: Mode) -> char {
    match mode {
        Mode::Pack => 'e',
        Mode::Unpack => 'd',
    }
}

/// The reading of a line on the menu of `mode`.
pub open spec fn menu_choice(mode: Mode, line: Seq<char>) -> MenuChoice {
    if answers(line, begin_letter(mode)) {
        MenuChoice::Begin
    } else if answers(line, 'm') {
        MenuChoice::MainMenu
    } else if answers(line, 'q') {
        MenuChoice::Quit
    } else {
        MenuChoice::Invalid
    }
}

/// The reading of a line below a generated key.
pub open spec fn key_decision(line: Seq<char>) -> KeyDecision {
    if answers(line, 'a') {
        KeyDecision::Accept
    } else if answers(line, 'r') {
        KeyDecision::Regenerate
    } else if answers(line, 'q') {
        KeyDecision::Cancel
    } else {
        KeyDecision::Invalid
    }
}

/// The reading of a line below a reported result.
pub open spec fn final_choice(line: Seq<char>) -> FinalChoice {
    if answers(line, 'm') {
        FinalChoice::MainMenu
    } else if answers(line, 'q') {
        FinalChoice::Quit
    } else {
        FinalChoice::Invalid
    }
}

/// The directory that a session of `mode` takes files from.
pub open spec fn source_of(mode: Mode) -> Seq<char> {
    match mode {
        Mode::Pack => "data"@,
        Mode::Unpack => "data/encrypted"@,
    }
}

/// The directory that a session of `mode` puts files into.
pub open spec fn destination_of(mode: Mode) -> Seq<char> {
    match mode {
        Mode::Pack => "data/encrypted"@,
        Mode::Unpack => "data/decrypted"@,
    }
}

/// The session ends: it goes back to the main menu, or leaves the program.
pub open spec fn closes(step: Step, action: Action) -> bool {
    step.stage is Closed && step.notice is None && step.action == action
}

/// The transform is turned down with `notice`, and the menu is shown again.
pub open spec fn turns_down(step: Step, notice: Notice) -> bool {
    step.stage is Menu && step.notice == Some(notice) && step.action is ShowMenu
}

/// The view of a memory report that may be missing.
pub open spec fn report_view(meminfo: Option<String>) -> Option<Seq<char>> {
    match meminfo {
        Some(report) => Some(report@),
        None => None,
    }
}

/// The notice for a transform that the vault turned down.
pub open spec fn notice_of(e: FileVaultError) -> Notice {
    match e {
        FileVaultError::InvalidKey(reason) => Notice::InvalidKey(reason),
        FileVaultError::CipherFailure(detail) => Notice::CipherFailure(detail),
        FileVaultError::DecryptionFailed => Notice::DecryptionFailed,
    }
}

/// The answer to a line on the menu.
pub open spec fn after_menu(mode: Mode, line: Seq<char>, step: Step) -> bool {
    match menu_choice(mode, line) {
        MenuChoice::Begin => step.stage is Listing && step.notice is None
            && step.action is ListCandidates,
        MenuChoice::MainMenu => closes(step, Action::Leave),
        MenuChoice::Quit => closes(step, Action::Quit),
        MenuChoice::Invalid => turns_down(step, Notice::InvalidChoice),
    }
}

/// The answer to the listing of the source directory.
pub open spec fn after_listing(found: Option<Vec<String>>, step: Step) -> bool {
    match found {
        None => turns_down(step, Notice::NoFileSelected),
        Some(candidates) => if candidates@.len() == 0 {
            turns_down(step, Notice::NoFilesFound)
        } else {
            step.stage == (Stage::Choosing { candidates }) && step.notice is None
                && step.action is ShowCandidates
        },
    }
}

/// The answer to the number of a file.
pub open spec fn after_selection(candidates: Vec<String>, line: Seq<char>, step: Step) -> bool {
    match selection(candidates@.len(), line) {
        Some(i) => {
            &&& step.stage matches Stage::Inspecting { path }
            &&& path@ == candidates@[i]@
            &&& step.notice is None
            &&& step.action is Inspect
        },
        None => turns_down(step, Notice::NoFileSelected),
    }
}

/// The answer to a look at the picked file: it is admitted where it is no
/// larger than the ceiling that the memory report gives. For a pack a fresh
/// key is then shown; for an unpack the operator's key is asked for.
pub open spec fn after_inspection(
    mode: Mode,
    path: Seq<char>,
    name: Seq<char>,
    size: u64,
    meminfo: Option<Seq<char>>,
    step: Step,
) -> bool {
    let limit = size_limit(meminfo);
    if size > limit {
        turns_down(step, Notice::FileTooLarge { limit, actual: size })
    } else {
        match mode {
            Mode::Pack => {
                &&& step.stage matches Stage::Confirming { path: p, name: n, token }
                &&& p@ == path
                &&& n@ == name
                &&& is_key_token(token@)
                &&& step.notice is None
                &&& step.action is ShowKey
            },
            Mode::Unpack => {
                &&& step.stage matches Stage::AwaitingKey { path: p, name: n }
                &&& p@ == path
                &&& n@ == name
                &&& step.notice is None
                &&& step.action is AskKey
            },
        }
    }
}

/// The answer to the operator's verdict on a generated key.
pub open spec fn after_key_shown(
    path: Seq<char>,
    name: Seq<char>,
    token: Seq<char>,
    line: Seq<char>,
    step: Step,
) -> bool {
    match key_decision(line) {
        KeyDecision::Accept => {
            &&& step.stage matches Stage::Loading { path: p, name: n, token: t }
            &&& p@ == path
            &&& n@ == name
            &&& t@ == token
            &&& step.notice is None
            &&& step.action is Load
        },
        KeyDecision::Regenerate => {
            &&& step.stage matches Stage::Confirming { path: p, name: n, token: t }
            &&& p@ == path
            &&& n@ == name
            &&& is_key_token(t@)
            &&& step.notice is None
            &&& step.action is ShowKey
        },
        KeyDecision::Cancel => closes(step, Action::Leave),
        KeyDecision::Invalid => {
            &&& step.stage matches Stage::Confirming { path: p, name: n, token: t }
            &&& p@ == path
            &&& n@ == name
            &&& t@ == token
            &&& step.notice == Some(Notice::InvalidInput)
            &&& step.action is ShowKey
        },
    }
}

/// The answer to the operator's key token: the line without the white space
/// around it must be the token of a key.
pub open spec fn after_key_entered(
    path: Seq<char>,
    name: Seq<char>,
    line: Seq<char>,
    step: Step,
) -> bool {
    match token_key(trimmed(line)) {
        Ok(_) => {
            &&& step.stage matches Stage::Loading { path: p, name: n, token: t }
            &&& p@ == path
            &&& n@ == name
            &&& t@ == trimmed(line)
            &&& step.notice is None
            &&& step.action is Load
        },
        Err(reason) => turns_down(step, Notice::InvalidKey(reason)),
    }
}

/// The answer to the contents of the picked file: the transform is made,
/// and its result is to be written with its checksum taken.
pub open spec fn after_contents(
    mode: Mode,
    name: Seq<char>,
    token: Seq<char>,
    contents: Option<Vec<u8>>,
    step: Step,
) -> bool {
    match contents {
        None => turns_down(step, Notice::ReadFailed),
        Some(bytes) => match mode {
            Mode::Pack => match token_key(token) {
                Ok(key) => {
                    ||| {
                        &&& step.stage matches Stage::Saving { path, checksum }
                        &&& step.action matches Action::Save { bytes: envelope }
                        &&& sealed(envelope@, key, bytes@)
                        &&& path@ == path_in(destination_of(mode), locked_name(name))
                        &&& checksum@ == hex_text(sha256(envelope@))
                        &&& step.notice is None
                    }
                    ||| {
                        &&& step.stage is Menu
                        &&& step.notice matches Some(Notice::CipherFailure(_))
                        &&& step.action is ShowMenu
                    }
                },
                Err(reason) => turns_down(step, Notice::InvalidKey(reason)),
            },
            Mode::Unpack => match unpacked(bytes@, token) {
                Ok(plaintext) => {
                    &&& step.stage matches Stage::Saving { path, checksum }
                    &&& step.action matches Action::Save { bytes: written }
                    &&& written@ == plaintext
                    &&& path@ == path_in(destination_of(mode), unlocked_name(name))
                    &&& checksum@ == hex_text(sha256(plaintext))
                    &&& step.notice is None
                },
                Err(e) => turns_down(step, notice_of(e)),
            },
        },
    }
}

/// The answer to the outcome of writing the result.
pub open spec fn after_save(path: Seq<char>, checksum: Seq<char>, saved: bool, step: Step) -> bool {
    if saved {
        &&& step.stage matches Stage::Reported { path: p, checksum: c }
        &&& p@ == path
        &&& c@ == checksum
        &&& step.notice is None
        &&& step.action is Report
    } else {
        turns_down(step, Notice::WriteFailed)
    }
}

/// The answer to a line below a reported result.
pub open spec fn after_report(
    path: Seq<char>,
    checksum: Seq<char>,
    line: Seq<char>,
    step: Step,
) -> bool {
    match final_choice(line) {
        FinalChoice::MainMenu => closes(step, Action::Leave),
        FinalChoice::Quit => closes(step, Action::Quit),
        FinalChoice::Invalid => {
            &&& step.stage matches Stage::Reported { path: p, checksum: c }
            &&& p@ == path
            &&& c@ == checksum
            &&& step.notice == Some(Notice::InvalidInput)
            &&& step.action is AskAgain
        },
    }
}

/// Whether `step` answers `event` in `stage`. An event that the stage does
/// not wait for ends the session.
pub open spec fn transition(mode: Mode, stage: Stage, event: Event, step: Step) -> bool {
    match (stage, event) {
        (Stage::Menu, Event::Line(line)) => after_menu(mode, line@, step),
        (Stage::Listing, Event::Candidates(found)) => after_listing(found, step),
        (Stage::Choosing { candidates }, Event::Line(line)) => after_selection(
            candidates,
            line@,
            step,
        ),
        (Stage::Inspecting { path }, Event::Inspected { name, size, meminfo }) => after_inspection(
            mode,
            path@,
            name@,
            size,
            report_view(meminfo),
            step,
        ),
        (Stage::Confirming { path, name, token }, Event::Line(line)) => after_key_shown(
            path@,
            name@,
            token@,
            line@,
            step,
        ),
        (Stage::AwaitingKey { path, name }, Event::Line(line)) => after_key_entered(
            path@,
            name@,
            line@,
            step,
        ),
        (Stage::Loading { path, name, token }, Event::Contents(contents)) => after_contents(
            mode,
            name@,
            token@,
            contents,
            step,
        ),
        (Stage::Saving { path, checksum }, Event::Saved(saved)) => after_save(
            path@,
            checksum@,
            saved,
            step,
        ),
        (Stage::Reported { path, checksum }, Event::Line(line)) => after_report(
            path@,
            checksum@,
            line@,
            step,
        ),
        _ => closes(step, Action::Leave),
    }
}

/// Whether the trimmed answer `t` is the one character `c`.
fn is_letter(t: &Vec<char>, c: char) -> (r: bool)
    ensures
        r == (t@ == seq![c]),
{
    let r = t.len() == 1 && t[0] == c;
    assert(r ==> t@ =~= seq![c]);
    assert(t@ == seq![c] ==> t@.len() == 1 && t@[0] == c);
    r
}

/// Reads a line on the menu of `mode`.
pub fn read_menu_choice(mode: Mode, line: &str) -> (r: MenuChoice)
    ensures
        r == menu_choice(mode, line@),
{
    let t = trim(line);
    let begin: char = match mode {
        Mode::Pack => 'e',
        Mode::Unpack => 'd',
    };
    if is_letter(&t, begin) {
        MenuChoice::Begin
    } else if is_letter(&t, 'm') {
        MenuChoice::MainMenu
    } else if is_letter(&t, 'q') {
        MenuChoice::Quit
    } else {
        MenuChoice::Invalid
    }
}

/// Reads a line below a generated key.
pub fn read_key_decision(line: &str) -> (r: KeyDecision)
    ensures
        r == key_decision(line@),
{
    let t = trim(line);
    if is_letter(&t, 'a') {
        KeyDecision::Accept
    } else if is_letter(&t, 'r') {
        KeyDecision::Regenerate
    } else if is_letter(&t, 'q') {
        KeyDecision::Cancel
    } else {
        KeyDecision::Invalid
    }
}

/// Reads a line below a reported result.
pub fn read_final_choice(line: &str) -> (r: FinalChoice)
    ensures
        r == final_choice(line@),
{
    let t = trim(line);
    if is_letter(&t, 'm') {
        FinalChoice::MainMenu
    } else if is_letter(&t, 'q') {
        FinalChoice::Quit
    } else {
        FinalChoice::Invalid
    }
}

/// The directory that a session of `mode` takes files from.
pub fn source_namespace(mode: Mode) -> (r: &'static str)
    ensures
        r@ == source_of(mode),
{
    match mode {
        Mode::Pack => "data",
        Mode::Unpack => "data/encrypted",
    }
}

/// The directory that a session of `mode` puts files into.
pub fn destination_namespace(mode: Mode) -> (r: &'static str)
    ensures
        r@ == destination_of(mode),
{
    match mode {
        Mode::Pack => "data/encrypted",
        Mode::Unpack => "data/decrypted",
    }
}

/// The step that ends the session with `action`.
fn close(action: Action) -> (step: Step)
    ensures
        closes(step, action),
{
    Step { stage: Stage::Closed, notice: None, action }
}

/// The step that turns the transform down with `notice`.
fn turn_down(notice: Notice) -> (step: Step)
    ensures
        turns_down(step, notice),
{
    Step { stage: Stage::Menu, notice: Some(notice), action: Action::ShowMenu }
}

/// The notice for a transform that the vault turned down.
pub fn notice_for(e: FileVaultError) -> (notice: Notice)
    ensures
        notice == notice_of(e),
{
    match e {
        FileVaultError::InvalidKey(reason) => Notice::InvalidKey(reason),
        FileVaultError::CipherFailure(detail) => Notice::CipherFailure(detail),
        FileVaultError::DecryptionFailed => Notice::DecryptionFailed,
    }
}

/// Answers a line on the menu.
pub fn on_menu(mode: Mode, line: &str) -> (step: Step)
    ensures
        after_menu(mode, line@, step),
{
    match read_menu_choice(mode, line) {
        MenuChoice::Begin => Step {
            stage: Stage::Listing,
            notice: None,
            action: Action::ListCandidates,
        },
        MenuChoice::MainMenu => close(Action::Leave),
        MenuChoice::Quit => close(Action::Quit),
        MenuChoice::Invalid => turn_down(Notice::InvalidChoice),
    }
}

/// Answers the listing of the source directory.
pub fn on_listing(found: Option<Vec<String>>) -> (step: Step)
    ensures
        after_listing(found, step),
{
    match found {
        None => turn_down(Notice::NoFileSelected),
        Some(candidates) => {
            if candidates.len() == 0 {
                turn_down(Notice::NoFilesFound)
            } else {
                Step {
                    stage: Stage::Choosing { candidates },
                    notice: None,
                    action: Action::ShowCandidates,
                }
            }
        },
    }
}

/// Answers the number of a file.
pub fn on_selection(candidates: Vec<String>, line: &str) -> (step: Step)
    ensures
        after_selection(candidates, line@, step),
{
    match select_by_index(&candidates, line) {
        Some(path) => Step { stage: Stage::Inspecting { path }, notice: None, action: Action::Inspect },
        None => turn_down(Notice::NoFileSelected),
    }
}

/// Answers a look at the picked file.
pub fn on_inspection(
    mode: Mode,
    path: String,
    name: String,
    size: u64,
    meminfo: Option<String>,
) -> (step: Step)
    ensures
        after_inspection(mode, path@, name@, size, report_view(meminfo), step),
{
    let limit = match &meminfo {
        Some(report) => max_allowed_file_size(Some(report.as_str())),
        None => max_allowed_file_size(None),
    };
    match check(size, limit) {
        Err(_) => turn_down(Notice::FileTooLarge { limit, actual: size }),
        Ok(_) => match mode {
            Mode::Pack => {
                let token = generate_key();
                Step {
                    stage: Stage::Confirming { path, name, token },
                    notice: None,
                    action: Action::ShowKey,
                }
            },
            Mode::Unpack => Step {
                stage: Stage::AwaitingKey { path, name },
                notice: None,
                action: Action::AskKey,
            },
        },
    }
}

/// Answers the operator's verdict on a generated key.
pub fn on_key_shown(path: String, name: String, token: String, line: &str) -> (step: Step)
    ensures
        after_key_shown(path@, name@, token@, line@, step),
{
    match read_key_decision(line) {
        KeyDecision::Accept => Step {
            stage: Stage::Loading { path, name, token },
            notice: None,
            action: Action::Load,
        },
        KeyDecision::Regenerate => {
            let fresh = generate_key();
            Step {
                stage: Stage::Confirming { path, name, token: fresh },
                notice: None,
                action: Action::ShowKey,
            }
        },
        KeyDecision::Cancel => close(Action::Leave),
        KeyDecision::Invalid => Step {
            stage: Stage::Confirming { path, name, token },
            notice: Some(Notice::InvalidInput),
            action: Action::ShowKey,
        },
    }
}

/// Answers the operator's key token.
pub fn on_key_entered(path: String, name: String, line: &str) -> (step: Step)
    ensures
        after_key_entered(path@, name@, line@, step),
{
    let token = text_of(&trim(line));
    match decode_key(token.as_str()) {
        Ok(_) => Step {
            stage: Stage::Loading { path, name, token },
            notice: None,
            action: Action::Load,
        },
        Err(reason) => turn_down(Notice::InvalidKey(reason)),
    }
}

/// Answers the contents of the picked file.
pub fn on_contents(mode: Mode, name: &str, token: &str, contents: Option<Vec<u8>>) -> (step: Step)
    ensures
        after_contents(mode, name@, token@, contents, step),
{
    let bytes = match contents {
        Some(bytes) => bytes,
        None => {
            return turn_down(Notice::ReadFailed);
        },
    };
    match mode {
        Mode::Pack => match pack(name, bytes.as_slice(), token, destination_namespace(mode)) {
            Ok(packed) => Step {
                stage: Stage::Saving { path: packed.output_path, checksum: packed.checksum },
                notice: None,
                action: Action::Save { bytes: packed.envelope },
            },
            Err(e) => turn_down(notice_for(e)),
        },
        Mode::Unpack => match unpack(name, bytes.as_slice(), token, destination_namespace(mode)) {
            Ok(plain) => Step {
                stage: Stage::Saving { path: plain.output_path, checksum: plain.checksum },
                notice: None,
                action: Action::Save { bytes: plain.plaintext },
            },
            Err(e) => turn_down(notice_for(e)),
        },
    }
}

/// Answers the outcome of writing the result.
pub fn on_saved(path: String, checksum: String, saved: bool) -> (step: Step)
    ensures
        after_save(path@, checksum@, saved, step),
{
    if saved {
        Step { stage: Stage::Reported { path, checksum }, notice: None, action: Action::Report }
    } else {
        turn_down(Notice::WriteFailed)
    }
}

/// Answers a line below a reported result.
pub fn on_report(path: String, checksum: String, line: &str) -> (step: Step)
    ensures
        after_report(path@, checksum@, line@, step),
{
    match read_final_choice(line) {
        FinalChoice::MainMenu => close(Action::Leave),
        FinalChoice::Quit => close(Action::Quit),
        FinalChoice::Invalid => Step {
            stage: Stage::Reported { path, checksum },
            notice: Some(Notice::InvalidInput),
            action: Action::AskAgain,
        },
    }
}

/// Answers `event` in `stage`: the next stage, a notice where something was
/// turned down, and what is to be done before the next event.
pub fn advance(mode: Mode, stage: Stage, event: Event) -> (step: Step)
    ensures
        transition(mode, stage, event, step),
{
    match (stage, event) {
        (Stage::Menu, Event::Line(line)) => on_menu(mode, line.as_str()),
        (Stage::Listing, Event::Candidates(found)) => on_listing(found),
        (Stage::Choosing { candidates }, Event::Line(line)) => on_selection(
            candidates,
            line.as_str(),
        ),
        (Stage::Inspecting { path }, Event::Inspected { name, size, meminfo }) => on_inspection(
            mode,
            path,
            name,
            size,
            meminfo,
        ),
        (Stage::Confirming { path, name, token }, Event::Line(line)) => on_key_shown(
            path,
            name,
            token,
            line.as_str(),
        ),
        (Stage::AwaitingKey { path, name }, Event::Line(line)) => on_key_entered(
            path,
            name,
            line.as_str(),
        ),
        (Stage::Loading { path, name, token }, Event::Contents(contents)) => on_contents(
            mode,
            name.as_str(),
            token.as_str(),
            contents,
        ),
        (Stage::Saving { path, checksum }, Event::Saved(saved)) => on_saved(path, checksum, saved),
        (Stage::Reported { path, checksum }, Event::Line(line)) => on_report(
            path,
            checksum,
            line.as_str(),
        ),
        _ => close(Action::Leave),
    }
}

} // verus!
