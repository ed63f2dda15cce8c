//! Validation of game bundles. A bundle is a decoded tree of values whose
//! layout a fixed type signature writes down; it carries a metadata
//! dictionary and a checksum. Loading checks the two, lookup reads a typed
//! value out of the metadata, and the hash renders the checksum as text.

pub mod decode;
pub mod error;
pub mod flatpak;
pub mod hexstr;
pub mod schema;
pub mod signature;
pub mod text;
pub mod theorems;
pub mod typing;
pub mod upload;
pub mod value;

pub use decode::TryDecode;
pub use error::{FlatpakDecodingError, FlatpakMetadataError};
pub use flatpak::FlatpakFile;
pub use schema::{flatpak_file_variant, FLATPAK_FILE_SIGNATURE};
pub use signature::{BasicType, TypeSignature};
pub use text::{split_text, to_chars};
pub use upload::{
    check_game_content_type, check_image_type, game_object_key, game_tags, image_object_key,
    judge_ref, stored_object_keys, verify_game, GameError, GameRefusal, ImageComponent,
    RefVerdict, APP_ID_PREFIX, FLATPAK_CONTENT_TYPE, REF_KEY, UNKNOWN_CONTENT_TYPE,
};
pub use value::Value;
