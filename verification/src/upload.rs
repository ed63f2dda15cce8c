//! The rules that an upload must meet: content types, the ref of the
//! bundle, tags, and the keys under which the files of a game are stored.

use vstd::prelude::*;
use vstd::string::StringExecFns;
use crate::error::{FlatpakDecodingError, FlatpakMetadataError};
use crate::flatpak::{
    bundle_layout, checksum_bytes, lookup, metadata_of, refusal, FlatpakFile, Lookup,
};
use crate::hexstr::hex_string;
use crate::text::{lemma_split_joins, split, split_text};
use crate::value::Value;

verus! {

/// Why an upload was turned away, in words.
#[derive(Debug)]
pub struct GameError {
    reason: String,
}

impl Clone for GameError {
    fn clone(&self) -> (copy: GameError)
        ensures
            copy@ == self@,
    {
        GameError { reason: self.reason.clone() }
    }
}

impl View for GameError {
    type V = Seq<char>;

    /// The reason that the error was made with.
    closed spec fn view(&self) -> Seq<char> {
        self.reason@
    }
}

impl GameError {
    /// An error with the given reason.
    pub fn new(reason: &str) -> (error: GameError)
        ensures
            error@ == reason@,
    {
        GameError { reason: reason.to_owned() }
    }

    /// The reason that the error was made with.
    pub fn reason(&self) -> (reason: &str)
        ensures
            reason@ == self@,
    {
        self.reason.as_str()
    }

    /// This error as text: its reason behind the name of the error.
    pub fn message(&self) -> (text: String)
        ensures
            text@ == "GameError: "@ + self@,
    {
        let mut text = "GameError: ".to_owned();
        text.append(self.reason.as_str());
        text
    }
}

/// The two pictures that a game comes with.
#[derive(Debug, Clone, Copy, PartialEq, Eq, Structural)]
pub enum ImageComponent {
    Banner,
    Icon,
}

impl ImageComponent {
    /// The name of the picture, as it is written in a sentence.
    pub open spec fn name(self) -> Seq<char> {
        match self {
            ImageComponent::Banner => "Banner"@,
            ImageComponent::Icon => "Icon"@,
        }
    }

    /// The name under which the picture is stored: its name in lower case.
    pub open spec fn stored_name(self) -> Seq<char> {
        match self {
            ImageComponent::Banner => "banner"@,
            ImageComponent::Icon => "icon"@,
        }
    }

    /// The name under which the picture is stored.
    pub fn filename(&self) -> (name: String)
        ensures
            name@ == self.stored_name(),
    {
        match self {
            ImageComponent::Banner => "banner".to_owned(),
            ImageComponent::Icon => "icon".to_owned(),
        }
    }
}

/// Whether `piece` reads `expected`.
fn reads(piece: &String, expected: &str) -> (r: bool)
    ensures
        r == (piece@ == expected@),
{
    let expected = expected.to_owned();
    *piece == expected
}

/// The content type of a bundle.
pub const FLATPAK_CONTENT_TYPE: &'static str = "application/vnd.flatpak";

/// The content type of a file of which no more is known. A file that names
/// no content type counts as one of this type.
pub const UNKNOWN_CONTENT_TYPE: &'static str = "application/octet-stream";

/// Whether a file that names `content_type` may be a game.
pub open spec fn may_be_game(content_type: Option<Seq<char>>) -> bool {
    match content_type {
        Some(named) => named == FLATPAK_CONTENT_TYPE@ || named == UNKNOWN_CONTENT_TYPE@,
        None => true,
    }
}

/// Turns away a file whose content type says that it is no bundle.
pub fn check_game_content_type(content_type: Option<&str>) -> (r: Result<(), GameError>)
    ensures
        match r {
            Ok(_) => may_be_game(
                match content_type {
                    Some(named) => Some(named@),
                    None => None,
                },
            ),
            Err(error) => error@ == "Game provided is not a Flatpak!"@ && !may_be_game(
                match content_type {
                    Some(named) => Some(named@),
                    None => None,
                },
            ),
        },
{
    match content_type {
        None => Ok(()),
        Some(named) => {
            let named = named.to_owned();
            if reads(&named, FLATPAK_CONTENT_TYPE) || reads(&named, UNKNOWN_CONTENT_TYPE) {
                Ok(())
            } else {
                Err(GameError::new("Game provided is not a Flatpak!"))
            }
        },
    }
}

/// Turns away a picture whose content type is not of the images. `kind` is
/// the part of the content type before its slash.
pub fn check_image_type(kind: &str, image: ImageComponent) -> (r: Result<(), GameError>)
    ensures
        match r {
            Ok(_) => kind@ == "image"@,
            Err(error) => kind@ != "image"@ && error@ == image.name()
                + " provided is not an image"@,
        },
{
    let kind = kind.to_owned();
    if reads(&kind, "image") {
        Ok(())
    } else {
        let mut reason = match image {
            ImageComponent::Banner => "Banner".to_owned(),
            ImageComponent::Icon => "Icon".to_owned(),
        };
        reason.append(" provided is not an image");
        Err(GameError { reason })
    }
}

/// The key under which the bundle of the game `uuid` is stored.
pub fn game_object_key(uuid: &str) -> (key: String)
    ensures
        key@ == uuid@ + "/"@ + uuid@ + ".flatpak"@,
{
    let mut key = uuid.to_owned();
    key.append("/");
    key.append(uuid);
    key.append(".flatpak");
    key
}

/// The key under which a picture of the game `uuid` is stored.
pub fn image_object_key(uuid: &str, image: ImageComponent) -> (key: String)
    ensures
        key@ == uuid@ + "/"@ + image.stored_name(),
{
    let mut key = uuid.to_owned();
    key.append("/");
    let name = image.filename();
    key.append(name.as_str());
    key
}

/// The keys of everything that is stored for the game `uuid`: its bundle,
/// its icon and its banner, in the order in which they are deleted.
pub fn stored_object_keys(uuid: &str) -> (keys: Vec<String>)
    ensures
        keys.len() == 3,
        keys[0]@ == uuid@ + "/"@ + uuid@ + ".flatpak"@,
        keys[1]@ == uuid@ + "/"@ + ImageComponent::Icon.stored_name(),
        keys[2]@ == uuid@ + "/"@ + ImageComponent::Banner.stored_name(),
{
    let mut keys: Vec<String> = Vec::new();
    keys.push(game_object_key(uuid));
    keys.push(image_object_key(uuid, ImageComponent::Icon));
    keys.push(image_object_key(uuid, ImageComponent::Banner));
    keys
}

/// What every application id of a game begins with.
pub const APP_ID_PREFIX: &'static str = "edu.rit.csh.devcade.game.id-";

/// The application id that the bundle of the game `uuid` must carry.
pub open spec fn app_id(uuid: Seq<char>) -> Seq<char> {
    APP_ID_PREFIX@ + uuid
}

/// What is wrong with a ref, given its parts: the first of kind,
/// application id, architecture and branch that is not as it must be.
pub open spec fn ref_complaint(parts: Seq<Seq<char>>, uuid: Seq<char>) -> Option<Seq<char>> {
    if parts[0] != "app"@ {
        Some("Flatpak must be of type app"@)
    } else if parts[1] != app_id(uuid) {
        Some("Flatpak app id "@ + parts[1] + " must be "@ + app_id(uuid))
    } else if parts[2] != "x86_64"@ {
        Some("Flatpak architecture must be x86_64"@)
    } else if parts[3] != "master"@ {
        Some("Flatpak branch must be master"@)
    } else {
        None
    }
}

/// Whether a ref has every part that judging it reads: all four, or those
/// up to the first that is wrong.
pub open spec fn ref_is_complete(parts: Seq<Seq<char>>, uuid: Seq<char>) -> bool {
    ||| parts.len() >= 4
    ||| parts.len() >= 1 && parts[0] != "app"@
    ||| parts.len() >= 2 && parts[1] != app_id(uuid)
    ||| parts.len() >= 3 && parts[2] != "x86_64"@
}

/// How the ref of a bundle is judged.
#[derive(Debug)]
pub enum RefVerdict {
    /// Kind, application id, architecture and branch are as they must be.
    Accepted,
    /// One of them is not, and this says which.
    Refused(GameError),
    /// The ref ends before a part that had to be read.
    Incomplete,
}

/// Judges the ref of a bundle that was uploaded for the game `uuid`. The ref
/// is cut at its slashes; its first four parts must be `app`, the
/// application id of the game, `x86_64` and `master`. Parts after the fourth
/// are not read.
pub fn judge_ref(flatpak_ref: &str, uuid: &str) -> (verdict: RefVerdict)
    ensures
        match verdict {
            RefVerdict::Accepted => ref_is_complete(split(flatpak_ref@, '/'), uuid@)
                && ref_complaint(split(flatpak_ref@, '/'), uuid@) is None,
            RefVerdict::Refused(error) => ref_is_complete(split(flatpak_ref@, '/'), uuid@)
                && ref_complaint(split(flatpak_ref@, '/'), uuid@) == Some(error@),
            RefVerdict::Incomplete => !ref_is_complete(split(flatpak_ref@, '/'), uuid@),
        },
{
    let parts = split_text(flatpak_ref, '/');
    let ghost spec_parts = split(flatpak_ref@, '/');
    proof {
        lemma_split_joins(flatpak_ref@, '/');
        assert(parts.deep_view().len() == parts.len());
        assert forall|i: int| 0 <= i < parts.len() implies parts[i]@
            == #[trigger] spec_parts[i] by {
            assert(parts.deep_view()[i] == parts[i]@);
        }
    }
    if !reads(&parts[0], "app") {
        return RefVerdict::Refused(GameError::new("Flatpak must be of type app"));
    }
    if parts.len() < 2 {
        return RefVerdict::Incomplete;
    }
    let mut expected = APP_ID_PREFIX.to_owned();
    expected.append(uuid);
    if parts[1] != expected {
        let mut reason = "Flatpak app id ".to_owned();
        reason.append(parts[1].as_str());
        reason.append(" must be ");
        reason.append(expected.as_str());
        return RefVerdict::Refused(GameError { reason });
    }
    if parts.len() < 3 {
        return RefVerdict::Incomplete;
    }
    if !reads(&parts[2], "x86_64") {
        return RefVerdict::Refused(GameError::new("Flatpak architecture must be x86_64"));
    }
    if parts.len() < 4 {
        return RefVerdict::Incomplete;
    }
    if !reads(&parts[3], "master") {
        return RefVerdict::Refused(GameError::new("Flatpak branch must be master"));
    }
    RefVerdict::Accepted
}

/// The metadata key under which a bundle names its ref.
pub const REF_KEY: &'static str = "ref";

/// Why the bundle of a game was turned away.
#[derive(Debug)]
pub enum GameRefusal {
    /// The bundle did not load.
    Bundle(FlatpakDecodingError),
    /// The metadata holds no ref that is a text.
    Metadata(FlatpakMetadataError<String>),
    /// The ref is not that of the game.
    Ref(GameError),
    /// The ref ends before a part that had to be read.
    IncompleteRef,
}

/// Checks the bundle that was uploaded for the game `uuid` and gives its
/// hash. The bundle is loaded first; then its hash is taken and its ref looked
/// up and judged. The first of these that fails decides what comes back.
pub fn verify_game(root: Value, uuid: &str) -> (r: Result<String, GameRefusal>)
    requires
        bundle_layout(root@),
    ensures
        match r {
            Ok(hash) => {
                &&& refusal(root@) is None
                &&& hash@ == hex_string(checksum_bytes(root@))
                &&& lookup::<String>(metadata_of(root@).children(), REF_KEY@) matches Lookup::Found(
                    named,
                )
                &&& ref_is_complete(split(named, '/'), uuid@)
                &&& ref_complaint(split(named, '/'), uuid@) is None
            },
            Err(GameRefusal::Bundle(error)) => refusal(root@) == Some(error),
            Err(GameRefusal::Metadata(FlatpakMetadataError::MissingKey(key))) => {
                &&& refusal(root@) is None
                &&& key@ == REF_KEY@
                &&& lookup::<String>(metadata_of(root@).children(), REF_KEY@) is Missing
            },
            Err(GameRefusal::Metadata(FlatpakMetadataError::IncorrectFormat(key, _))) => {
                &&& refusal(root@) is None
                &&& key@ == REF_KEY@
                &&& lookup::<String>(metadata_of(root@).children(), REF_KEY@) is Unreadable
            },
            Err(GameRefusal::Ref(error)) => {
                &&& refusal(root@) is None
                &&& lookup::<String>(metadata_of(root@).children(), REF_KEY@) matches Lookup::Found(
                    named,
                )
                &&& ref_is_complete(split(named, '/'), uuid@)
                &&& ref_complaint(split(named, '/'), uuid@) == Some(error@)
            },
            Err(GameRefusal::IncompleteRef) => {
                &&& refusal(root@) is None
                &&& lookup::<String>(metadata_of(root@).children(), REF_KEY@) matches Lookup::Found(
                    named,
                )
                &&& !ref_is_complete(split(named, '/'), uuid@)
            },
        },
{
    let flatpak = match FlatpakFile::load(root) {
        Ok(flatpak) => flatpak,
        Err(error) => {
            return Err(GameRefusal::Bundle(error));
        },
    };
    let hash = flatpak.get_hash();
    let named: Result<String, FlatpakMetadataError<String>> = flatpak.get_metadata_key(REF_KEY);
    let flatpak_ref = match named {
        Ok(flatpak_ref) => flatpak_ref,
        Err(error) => {
            return Err(GameRefusal::Metadata(error));
        },
    };
    match judge_ref(flatpak_ref.as_str(), uuid) {
        RefVerdict::Accepted => Ok(hash),
        RefVerdict::Refused(error) => Err(GameRefusal::Ref(error)),
        RefVerdict::Incomplete => Err(GameRefusal::IncompleteRef),
    }
}

/// The tags in a list that is written with commas between them: the pieces
/// between the commas, in their order, without those that are empty.
pub open spec fn tags_in(list: Seq<char>) -> Seq<Seq<char>> {
    split(list, ',').filter(|tag: Seq<char>| tag.len() > 0)
}

/// Reads the tags of a game out of the list that came with the upload.
pub fn game_tags(list: &str) -> (tags: Vec<String>)
    ensures
        tags.deep_view() == tags_in(list@),
{
    let pieces = split_text(list, ',');
    let ghost all = split(list@, ',');
    let ghost wanted = |tag: Seq<char>| tag.len() > 0;
    let mut tags: Vec<String> = Vec::new();
    let mut index: usize = 0;
    proof {
        reveal(Seq::filter);
        assert(all.take(0).filter(wanted) =~= Seq::<Seq<char>>::empty());
        assert(tags.deep_view() =~= Seq::<Seq<char>>::empty());
    }
    while index < pieces.len()
        invariant
            index <= pieces.len(),
            pieces.deep_view() == all,
            wanted == |tag: Seq<char>| tag.len() > 0,
            tags.deep_view() == all.take(index as int).filter(wanted),
        decreases pieces.len() - index,
    {
        proof {
            reveal(Seq::filter);
            assert(pieces.deep_view().len() == pieces.len());
            assert(pieces.deep_view()[index as int] == pieces[index as int]@);
            assert(all.take(index + 1).drop_last() =~= all.take(index as int));
            assert(all.take(index + 1).last() == all[index as int]);
        }
        if !pieces[index].as_str().is_empty() {
            let ghost before = tags.deep_view();
            let tag = pieces[index].clone();
            tags.push(tag);
            assert(tags.deep_view() =~= before.push(tag@));
        }
        index += 1;
    }
    assert(all.take(pieces.len() as int) =~= all);
    tags
}

} // verus!
