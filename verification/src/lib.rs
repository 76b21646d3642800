//! Secret generation and a single-file pack/unpack pipeline.
//!
//! A file is packed into an envelope (a fresh initialization vector and the
//! AES-256-CBC ciphertext) under a key that is generated for that one pack and
//! shown once as a text token. It is unpacked under the token the operator
//! hands back. Before any file is read its size is held against a ceiling that
//! follows the available memory, and after every transform a SHA-256 checksum
//! is reported.
//!
//! The library decides and computes; it reads no file, no terminal and no
//! clock. `session` turns the pack and unpack menus into a state machine that
//! a front end drives, `vault` holds the two transforms, and `cipher`,
//! `key_material`, `checksum` and `size_guard` the parts they are made of.
//! `secrets` and `menu` serve the generators of the main menu. The calls into
//! other crates stand in small functions whose contracts are taken on trust;
//! everything else is proved.

pub mod ascii;
pub mod checksum;
pub mod cipher;
pub mod entropy;
pub mod key_material;
pub mod menu;
pub mod secrets;
pub mod session;
pub mod size_guard;
pub mod text;
pub mod vault;
