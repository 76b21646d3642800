//! The secrets on offer: key tokens from three random sources, UUIDs,
//! passwords over a fixed character set, and user names put together from two
//! word lists.

use crate::entropy::{
    openssl_rand_bytes, ring_fill, thread_fill_bytes, thread_index, thread_next_u32,
    thread_ratio, zeroed,
};
use crate::key_material::{encode_key, is_key_token, is_token_of, KEY_LEN};
use crate::text::{chars_of, same_chars, text_of};
use vstd::prelude::*;
use vstd::string::StringExecFns;

verus! {

broadcast use vstd::string::group_string_axioms;

/// The characters a password is drawn from.
pub open spec fn charset() -> Seq<char> {
    "ABCDEFGHIJKLMNOPQRSTUVWXYZabcdefghijklmnopqrstuvwxyz0123456789!@#$%^&*()-_=+"@
}

/// The password that a run of random words gives: one character a word, the
/// one that the word, reduced modulo the size of the character set, numbers.
pub open spec fn password_of(words: Seq<u32>) -> Seq<char> {
    Seq::new(words.len(), |i: int| charset()[words[i] as int % charset().len() as int])
}

/// Whether `text` is a password of `length` characters.
pub open spec fn is_password(text: Seq<char>, length: nat) -> bool {
    &&& text.len() == length
    &&& forall|i: int| 0 <= i < text.len() ==> charset().contains(#[trigger] text[i])
}

/// The user name made of a descriptor and a name, joined by an underscore or
/// by nothing.
pub open spec fn username_of(descriptor: Seq<char>, name: Seq<char>, underscore: bool) -> Seq<
    char,
> {
    if underscore {
        descriptor + "_"@ + name
    } else {
        descriptor + name
    }
}

/// Whether `text` is a user name made of one of `descriptors` and one of
/// `names`.
pub open spec fn is_username(text: Seq<char>, descriptors: Seq<String>, names: Seq<String>) -> bool {
    exists|i: int, j: int, underscore: bool|
        0 <= i < descriptors.len() && 0 <= j < names.len() && text == #[trigger] username_of(
            descriptors[i]@,
            names[j]@,
            underscore,
        )
}

/// Whether `c` is a lower-case hexadecimal digit.
pub open spec fn is_lower_hex(c: char) -> bool {
    '0' <= c <= '9' || 'a' <= c <= 'f'
}

/// Whether `text` has the shape of a random (version 4) UUID in its
/// hyphenated lower-case form.
pub open spec fn is_uuid_text(text: Seq<char>) -> bool {
    &&& text.len() == 36
    &&& forall|i: int|
        0 <= i < 36 ==> if i == 8 || i == 13 || i == 18 || i == 23 {
            #[trigger] text[i] == '-'
        } else {
            is_lower_hex(text[i])
        }
    &&& text[14] == '4'
    &&& (text[19] == '8' || text[19] == '9' || text[19] == 'a' || text[19] == 'b')
}

/// `uuid::Uuid::new_v4` and the `Display` of the result: a random UUID in
/// hyphenated lower-case form. The contract claims the shape that every such
/// text has: 36 characters, hyphens after the groups of 8, 4, 4 and 4 digits,
/// the version digit 4 and a variant digit from 8 to b.
#[verifier::external_body]
fn uuid_v4_text() -> (text: String)
    ensures
        is_uuid_text(text@),
{
    uuid::Uuid::new_v4().to_string()
}

/// The token of the 32 bytes in `key`, where the source that filled them
/// reported no failure.
pub fn token_of_fill<E>(filled: Result<(), E>, key: &Vec<u8>) -> (r: Option<String>)
    requires
        key@.len() == KEY_LEN,
    ensures
        match r {
            Some(token) => filled is Ok && is_token_of(token@, key@),
            None => filled is Err,
        },
{
    match filled {
        Ok(_) => Some(encode_key(key.as_slice())),
        Err(_) => None,
    }
}

/// A fresh 256-bit key from the OpenSSL generator, as its token; `None` where
/// the generator failed.
pub fn generate_openssl_key() -> (r: Option<String>)
    ensures
        r matches Some(token) ==> is_key_token(token@),
{
    let mut key = zeroed(KEY_LEN);
    let filled = openssl_rand_bytes(&mut key);
    let r = token_of_fill(filled, &key);
    assert(r matches Some(token) ==> is_token_of(token@, key@));
    r
}

/// A fresh 256-bit key from the system generator of `ring`, as its token;
/// `None` where the generator failed.
pub fn generate_ring_key() -> (r: Option<String>)
    ensures
        r matches Some(token) ==> is_key_token(token@),
{
    let mut key = zeroed(KEY_LEN);
    let filled = ring_fill(&mut key);
    let r = token_of_fill(filled, &key);
    assert(r matches Some(token) ==> is_token_of(token@, key@));
    r
}

/// A fresh random UUID.
pub fn generate_uuid() -> (r: String)
    ensures
        is_uuid_text(r@),
{
    uuid_v4_text()
}

/// A fresh API key: 32 bytes from the thread-local generator, as a token.
pub fn generate_api_key() -> (r: String)
    ensures
        is_key_token(r@),
{
    let mut key = zeroed(KEY_LEN);
    thread_fill_bytes(&mut key);
    let token = encode_key(key.as_slice());
    assert(is_token_of(token@, key@));
    token
}

/// The password that the random words `words` give.
pub fn password_from(words: &Vec<u32>) -> (r: String)
    ensures
        r@ == password_of(words@),
        is_password(r@, words@.len()),
{
    let set = chars_of(
        "ABCDEFGHIJKLMNOPQRSTUVWXYZabcdefghijklmnopqrstuvwxyz0123456789!@#$%^&*()-_=+",
    );
    proof {
        reveal_strlit(
            "ABCDEFGHIJKLMNOPQRSTUVWXYZabcdefghijklmnopqrstuvwxyz0123456789!@#$%^&*()-_=+",
        );
    }
    assert(set@.len() == 76);
    let mut picked: Vec<char> = Vec::new();
    let mut i: usize = 0;
    while i < words.len()
        invariant
            i <= words.len(),
            set@ == charset(),
            set@.len() == 76,
            picked@ == password_of(words@).take(i as int),
        decreases words.len() - i,
    {
        let at: usize = words[i] as usize % set.len();
        picked.push(set[at]);
        assert(picked@ == password_of(words@).take(i + 1));
        i += 1;
    }
    assert(password_of(words@).take(words@.len() as int) == password_of(words@));
    text_of(&picked)
}

/// A fresh password of 16 or of 32 characters. Any other length gives the
/// empty text.
pub fn generate_password(length: u32) -> (r: String)
    ensures
        length == 16 || length == 32 ==> is_password(r@, length as nat),
        length != 16 && length != 32 ==> r@ == Seq::<char>::empty(),
{
    if length != 16 && length != 32 {
        return String::new();
    }
    let mut words: Vec<u32> = Vec::new();
    let mut i: u32 = 0;
    while i < length
        invariant
            i <= length,
            words@.len() == i,
        decreases length - i,
    {
        words.push(thread_next_u32());
        i += 1;
    }
    password_from(&words)
}

/// The user name made of `descriptor` and `name`, joined by an underscore
/// where `underscore` is set.
pub fn compose_username(descriptor: &str, name: &str, underscore: bool) -> (r: String)
    ensures
        r@ == username_of(descriptor@, name@, underscore),
{
    let mut r = String::from_str(descriptor);
    if underscore {
        r.append("_");
    }
    r.append(name);
    r
}

/// A fresh user name: a random descriptor and a random name, joined by an
/// underscore 18 times in 25.
pub fn generate_username(descriptors: &Vec<String>, names: &Vec<String>) -> (r: String)
    requires
        descriptors@.len() > 0,
        names@.len() > 0,
    ensures
        is_username(r@, descriptors@, names@),
{
    let i = thread_index(descriptors.len());
    let j = thread_index(names.len());
    let underscore = thread_ratio(18, 25);
    let r = compose_username(descriptors[i].as_str(), names[j].as_str(), underscore);
    assert(r@ == username_of(descriptors@[i as int]@, names@[j as int]@, underscore));
    r
}

/// Whether a copy to the clipboard is confirmed: the text was handed over, and
/// what was read back is that text.
pub fn copy_confirmed(text: &str, handed_over: bool, read_back: Option<&str>) -> (r: bool)
    ensures
        r == (handed_over && (read_back matches Some(found) && found@ == text@)),
{
    if !handed_over {
        return false;
    }
    match read_back {
        Some(found) => same_chars(&chars_of(found), &chars_of(text)),
        None => false,
    }
}

} // verus!
