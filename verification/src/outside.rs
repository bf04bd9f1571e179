//! The calls this library makes into `url`, `bip39`, `dirs` and
//! `std::time`. Each item here is believed, not proved: its doc comment says
//! what it claims of the code it calls.

use vstd::prelude::*;
use std::time::Duration;

verus! {

/// `url::Url`, carried through the configuration as an opaque value.
#[verifier::external_type_specification]
#[verifier::external_body]
pub struct ExUrl(url::Url);

/// `url::ParseError`, the error of `url::Url::parse`.
#[verifier::external_type_specification]
#[verifier::external_body]
pub struct ExUrlParseError(url::ParseError);

/// `bip39::Mnemonic`, carried through the configuration as an opaque value.
#[verifier::external_type_specification]
#[verifier::external_body]
pub struct ExMnemonic(bip39::Mnemonic);

/// `bip39::Error`, the error of `bip39::Mnemonic::generate`.
#[verifier::external_type_specification]
#[verifier::external_body]
pub struct ExMnemonicError(bip39::Error);

/// What `url::Url::parse` gives for an input text: the URL, or `None` where it
/// reports an error. Parsing depends on the input text alone.
pub uninterp spec fn parsed_url(input: Seq<char>) -> Option<url::Url>;

/// Calls `url::Url::parse`. Claimed: the result is `parsed_url` of the input,
/// `Ok` exactly where that is `Some`. Nothing is claimed of which inputs parse.
#[verifier::external_body]
pub(crate) fn parse_url(input: &str) -> (res: Result<url::Url, url::ParseError>)
    ensures
        match res {
            Ok(u) => parsed_url(input@) == Some(u),
            Err(_) => parsed_url(input@) is None,
        },
{
    url::Url::parse(input)
}

/// Calls `Clone::clone` on a `url::Url`, which `url` derives: the copy equals the original.
#[verifier::external_body]
pub(crate) fn clone_url(u: &url::Url) -> (res: url::Url)
    ensures
        res == *u,
{
    u.clone()
}

/// The number of words of a mnemonic, as `bip39::Mnemonic::word_count` gives it.
pub uninterp spec fn mnemonic_word_count(m: bip39::Mnemonic) -> nat;

/// Calls `bip39::Mnemonic::generate`, which fills the entropy from the thread's
/// random generator. Claimed, from the crate's source: it returns `Ok` exactly
/// when the word count is 12, 15, 18, 21 or 24, and then a mnemonic of that many
/// words (`generate_in_with` draws `word_count / 3 * 4` bytes of entropy, and
/// `from_entropy_in` makes `bytes * 3 / 4` words of them). Which words come out is
/// left unsaid (they are random); a failure of the system's random source, which
/// makes `rand` panic, is outside what any argument controls.
#[verifier::external_body]
pub(crate) fn generate_mnemonic(word_count: usize) -> (res: Result<bip39::Mnemonic, bip39::Error>)
    ensures
        res is Ok <==> (12 <= word_count <= 24 && word_count % 3 == 0),
        res matches Ok(m) ==> mnemonic_word_count(m) == word_count,
{
    bip39::Mnemonic::generate(word_count)
}

/// Calls `Clone::clone` on a `bip39::Mnemonic`, which `bip39` derives: the copy
/// equals the original.
#[verifier::external_body]
pub(crate) fn clone_mnemonic(m: &bip39::Mnemonic) -> (res: bip39::Mnemonic)
    ensures
        res == *m,
{
    m.clone()
}

/// Calls `dirs::home_dir` and turns the path into text (lossily, where it is not
/// UTF-8). The result depends on the environment and the user database, so
/// nothing is claimed of it.
#[verifier::external_body]
pub(crate) fn home_directory() -> (res: Option<String>) {
    match dirs::home_dir() {
        Some(p) => Some(p.to_string_lossy().into_owned()),
        None => None,
    }
}

/// What `std::time::Duration::from_millis` gives for a number of milliseconds.
pub uninterp spec fn millis_duration(ms: u64) -> Duration;

/// The whole milliseconds a duration holds, as `std::time::Duration::as_millis` gives them.
pub uninterp spec fn duration_millis(d: Duration) -> nat;

/// Calls `std::time::Duration::from_millis`. Claimed: the result is
/// `millis_duration(ms)`, and, as the standard library documents, it holds
/// exactly `ms` whole milliseconds.
#[verifier::external_body]
pub(crate) fn duration_from_millis(ms: u64) -> (res: Duration)
    ensures
        res == millis_duration(ms),
        duration_millis(res) == ms,
{
    Duration::from_millis(ms)
}

} // verus!
