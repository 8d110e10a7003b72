//! What can go wrong while deriving, signing or verifying, and the words each
//! failure is reported in.

use vstd::prelude::*;
use vstd::string::*;
use crate::level::MlDsaLevel;
use crate::text::{decimal, push_decimal};

verus! {

/// The errors of this library. The text carried by a variant describes the
/// failure in words and never holds secret material.
#[derive(Debug)]
pub enum Error {
    /// The mnemonic phrase was rejected.
    InvalidMnemonic(String),
    /// A seed was not 64 bytes long; the field holds the length it had.
    InvalidSeedLength(usize),
    /// A public key had the wrong length.
    InvalidPublicKey(String),
    /// A signature had the wrong length, the wrong level, or bytes that do
    /// not decode.
    InvalidSignature(String),
    /// The signing primitive gave up.
    SigningFailed(String),
    /// The verification primitive gave up.
    VerificationFailed(String),
    /// The key generation primitive gave up.
    KeyGenerationFailed(String),
    /// No backend serves the level asked for.
    UnsupportedLevel(String),
}

/// An error as contracts speak of it: the variant, with its text as a
/// sequence of characters.
pub enum ErrorView {
    InvalidMnemonic(Seq<char>),
    InvalidSeedLength(usize),
    InvalidPublicKey(Seq<char>),
    InvalidSignature(Seq<char>),
    SigningFailed(Seq<char>),
    VerificationFailed(Seq<char>),
    KeyGenerationFailed(Seq<char>),
    UnsupportedLevel(Seq<char>),
}

impl View for Error {
    type V = ErrorView;

    open spec fn view(&self) -> ErrorView {
        match self {
            Error::InvalidMnemonic(text) => ErrorView::InvalidMnemonic(text@),
            Error::InvalidSeedLength(length) => ErrorView::InvalidSeedLength(*length),
            Error::InvalidPublicKey(text) => ErrorView::InvalidPublicKey(text@),
            Error::InvalidSignature(text) => ErrorView::InvalidSignature(text@),
            Error::SigningFailed(text) => ErrorView::SigningFailed(text@),
            Error::VerificationFailed(text) => ErrorView::VerificationFailed(text@),
            Error::KeyGenerationFailed(text) => ErrorView::KeyGenerationFailed(text@),
            Error::UnsupportedLevel(text) => ErrorView::UnsupportedLevel(text@),
        }
    }
}

/// The detail of a length that is not the one required.
pub open spec fn size_mismatch_text(expected: nat, got: nat) -> Seq<char> {
    "expected "@ + decimal(expected) + " bytes, got "@ + decimal(got)
}

/// The detail of signature bytes whose length is not that of `level`.
pub open spec fn signature_size_text(level: MlDsaLevel, got: nat) -> Seq<char> {
    "expected "@ + decimal(level.spec_signature_size() as nat) + " bytes for "@ + level.spec_name()
        + ", got "@ + decimal(got)
}

/// The detail of a signature made at `found` where `expected` was asked for.
pub open spec fn level_mismatch_text(found: MlDsaLevel, expected: MlDsaLevel) -> Seq<char> {
    "signature level "@ + found.spec_name() + " doesn't match expected level "@
        + expected.spec_name()
}

/// The detail of signature bytes that do not decode.
pub open spec fn undecodable_text() -> Seq<char> {
    "failed to decode signature"@
}

pub(crate) fn size_mismatch(expected: usize, got: usize) -> (text: String)
    ensures
        text@ == size_mismatch_text(expected as nat, got as nat),
{
    let mut text = String::from_str("expected ");
    push_decimal(&mut text, expected as u64);
    text.append(" bytes, got ");
    push_decimal(&mut text, got as u64);
    text
}

pub(crate) fn signature_size_mismatch(level: MlDsaLevel, got: usize) -> (text: String)
    ensures
        text@ == signature_size_text(level, got as nat),
{
    let mut text = String::from_str("expected ");
    push_decimal(&mut text, level.signature_size() as u64);
    text.append(" bytes for ");
    text.append(level.name());
    text.append(", got ");
    push_decimal(&mut text, got as u64);
    text
}

pub(crate) fn level_mismatch(found: MlDsaLevel, expected: MlDsaLevel) -> (text: String)
    ensures
        text@ == level_mismatch_text(found, expected),
{
    let mut text = String::from_str("signature level ");
    text.append(found.name());
    text.append(" doesn't match expected level ");
    text.append(expected.name());
    text
}

} // verus!
