//! Why loading a bundle or reading its metadata fails, and how the errors
//! read as text.

use vstd::prelude::*;
use vstd::string::StringExecFns;
use std::marker::PhantomData;

verus! {

/// Why a bundle was refused while it was being loaded.
#[derive(Debug, Clone, Copy, PartialEq, Eq, Structural)]
pub enum FlatpakDecodingError {
    IncorrectFormat,
    MetadataNotContainer,
    MetadataChildNotContainer,
    BadChecksumLength,
}

impl FlatpakDecodingError {
    /// The sentence that tells this error to a reader.
    pub open spec fn sentence(self) -> Seq<char> {
        match self {
            FlatpakDecodingError::IncorrectFormat => "Incorrect flatpak bundle format"@,
            FlatpakDecodingError::BadChecksumLength => {
                "Flatpak bundle checksum is the incorrect length"@
            },
            FlatpakDecodingError::MetadataNotContainer => {
                "Flatpak bundle metadata field isn't a container"@
            },
            FlatpakDecodingError::MetadataChildNotContainer => {
                "Flatpak bundle metadata child isn't a container"@
            },
        }
    }

    /// This error as text.
    pub fn message(&self) -> (text: String)
        ensures
            text@ == self.sentence(),
    {
        let sentence = match self {
            FlatpakDecodingError::IncorrectFormat => "Incorrect flatpak bundle format",
            FlatpakDecodingError::BadChecksumLength => {
                "Flatpak bundle checksum is the incorrect length"
            },
            FlatpakDecodingError::MetadataNotContainer => {
                "Flatpak bundle metadata field isn't a container"
            },
            FlatpakDecodingError::MetadataChildNotContainer => {
                "Flatpak bundle metadata child isn't a container"
            },
        };
        sentence.to_owned()
    }
}

/// Why a metadata key could not be read as `T`: no entry has the key, or the
/// first entry that has it holds something that is no `T`.
#[derive(Debug)]
pub enum FlatpakMetadataError<T> {
    MissingKey(String),
    IncorrectFormat(String, PhantomData<T>),
}

impl<T> Clone for FlatpakMetadataError<T> {
    fn clone(&self) -> (copy: Self)
        ensures
            copy == *self,
    {
        match self {
            FlatpakMetadataError::MissingKey(key) => FlatpakMetadataError::MissingKey(key.clone()),
            FlatpakMetadataError::IncorrectFormat(key, _) => FlatpakMetadataError::IncorrectFormat(
                key.clone(),
                PhantomData,
            ),
        }
    }
}

/// Calls `std::any::TypeId::of` for `T` and writes the identifier as `Debug`
/// does. What comes out is the compiler's to choose, so nothing is claimed
/// of it.
#[verifier::external_body]
fn type_id_text<T: 'static>() -> (text: String) {
    format!("{:?}", std::any::TypeId::of::<T>())
}

impl<T: 'static> FlatpakMetadataError<T> {
    /// The key that the error is about.
    pub open spec fn key(self) -> Seq<char> {
        match self {
            FlatpakMetadataError::MissingKey(key) => key@,
            FlatpakMetadataError::IncorrectFormat(key, _) => key@,
        }
    }

    /// How the sentence of this error begins: all of it for a missing key,
    /// and all but the identifier of `T` for a value of another kind.
    pub open spec fn sentence_start(self) -> Seq<char> {
        match self {
            FlatpakMetadataError::MissingKey(key) => "Flatpak metadata incorrect: missing key "@
                + key@,
            FlatpakMetadataError::IncorrectFormat(key, _) => {
                "Flatpak metadata incorrect: couldn't read key "@ + key@ + " of type "@
            },
        }
    }

    /// This error as text. For a value of another kind the sentence ends
    /// with the identifier that the compiler gave to `T`.
    pub fn message(&self) -> (text: String)
        ensures
            self is MissingKey ==> text@ == self.sentence_start(),
            self is IncorrectFormat ==> exists|identifier: Seq<char>|
                text@ == self.sentence_start() + identifier,
    {
        match self {
            FlatpakMetadataError::MissingKey(key) => {
                let mut text = "Flatpak metadata incorrect: missing key ".to_owned();
                text.append(key.as_str());
                text
            },
            FlatpakMetadataError::IncorrectFormat(key, _) => {
                let mut text = "Flatpak metadata incorrect: couldn't read key ".to_owned();
                text.append(key.as_str());
                text.append(" of type ");
                let identifier = type_id_text::<T>();
                text.append(identifier.as_str());
                assert(text@ == self.sentence_start() + identifier@);
                text
            },
        }
    }
}

} // verus!
