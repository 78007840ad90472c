//! Avatars: whose they are, under which name each is stored, what a server's
//! answer means for one, and the map from avatar references to stored files.

use vstd::prelude::*;
use crate::format::{extension_text, ImageFormat};
use crate::json::{
    describe_json_error, json_members, json_object_encode, json_object_insert, json_object_new,
    json_object_text,
};

verus! {

/// Whose avatar it is. The role names the stored file, so the two avatars of
/// one request never share a file.
#[derive(Clone, Copy, Debug, PartialEq, Eq, Structural)]
pub enum AvatarRole {
    Author,
    Community,
}

/// The word that `role` puts in front of its file's name.
pub open spec fn role_prefix_text(role: AvatarRole) -> Seq<char> {
    match role {
        AvatarRole::Author => "author"@,
        AvatarRole::Community => "community"@,
    }
}

/// The name of the file that holds the avatar stored under `prefix`, by its
/// format.
pub open spec fn file_name_text(prefix: Seq<char>, format: ImageFormat) -> Seq<char> {
    prefix + "_avatar."@ + extension_text(format)
}

impl AvatarRole {
    /// The word that this role puts in front of its file's name.
    pub fn prefix(&self) -> (text: &'static str)
        ensures
            text@ == role_prefix_text(*self),
    {
        match self {
            AvatarRole::Author => "author",
            AvatarRole::Community => "community",
        }
    }
}

/// The name of the file that holds the avatar stored under `prefix`:
/// the prefix, `_avatar.`, and the extension of the format.
pub fn avatar_file_name(prefix: &str, format: ImageFormat) -> (name: String)
    ensures
        name@ == file_name_text(prefix@, format),
{
    prefix.to_owned().concat("_avatar.").concat(format.extension())
}

/// What the status of a response means for the avatar that was asked for.
#[derive(Clone, Copy, Debug, PartialEq, Eq, Structural)]
pub enum StatusVerdict {
    /// There is no such avatar: it is skipped, and that is no error.
    Missing,
    /// The server refused or failed: the generation fails.
    Refused,
    /// The body holds the avatar.
    Accepted,
}

/// The verdict on a status code: 404 is an absence, every other code from 400
/// to 599 a failure, and any other code carries a body.
pub open spec fn status_verdict(status: u16) -> StatusVerdict {
    if status == 404 {
        StatusVerdict::Missing
    } else if 400 <= status <= 599 {
        StatusVerdict::Refused
    } else {
        StatusVerdict::Accepted
    }
}

/// Judges the status code of an avatar's response.
pub fn judge_status(status: u16) -> (verdict: StatusVerdict)
    ensures
        verdict == status_verdict(status),
{
    if status == 404 {
        StatusVerdict::Missing
    } else if 400 <= status && status <= 599 {
        StatusVerdict::Refused
    } else {
        StatusVerdict::Accepted
    }
}

/// The map that a list of entries stands for: each entry maps its reference to
/// its file name, and a later entry replaces an earlier one of the same
/// reference.
pub open spec fn entries_map(entries: Seq<(Seq<char>, Seq<char>)>) -> Map<Seq<char>, Seq<char>>
    decreases entries.len(),
{
    if entries.len() == 0 {
        Map::empty()
    } else {
        entries_map(entries.drop_last()).insert(entries.last().0, entries.last().1)
    }
}

/// If the entry at `index` has the reference `key` and no later entry has it,
/// the map gives `key` that entry's file name.
proof fn lemma_last_entry_wins(entries: Seq<(Seq<char>, Seq<char>)>, key: Seq<char>, index: int)
    requires
        0 <= index < entries.len(),
        entries[index].0 == key,
        forall|later: int| index < later < entries.len() ==> entries[later].0 != key,
    ensures
        entries_map(entries).contains_key(key),
        entries_map(entries)[key] == entries[index].1,
    decreases entries.len(),
{
    if index < entries.len() - 1 {
        lemma_last_entry_wins(entries.drop_last(), key, index);
    }
}

/// If no entry has the reference `key`, the map does not hold it.
proof fn lemma_absent_key(entries: Seq<(Seq<char>, Seq<char>)>, key: Seq<char>)
    requires
        forall|index: int| 0 <= index < entries.len() ==> entries[index].0 != key,
    ensures
        !entries_map(entries).contains_key(key),
    decreases entries.len(),
{
    if entries.len() > 0 {
        lemma_absent_key(entries.drop_last(), key);
    }
}

/// The map from each avatar reference to the name of the file it was stored
/// under. An avatar that was skipped has no entry.
#[derive(Debug, Clone)]
pub struct AvatarMap {
    entries: Vec<(String, String)>,
}

impl View for AvatarMap {
    type V = Map<Seq<char>, Seq<char>>;

    closed spec fn view(&self) -> Map<Seq<char>, Seq<char>> {
        entries_map(self.entries.deep_view())
    }
}

impl AvatarMap {
    /// The map without entries.
    pub fn new() -> (map: AvatarMap)
        ensures
            (map@ == Map::<Seq<char>, Seq<char>>::empty()),
    {
        AvatarMap { entries: Vec::new() }
    }

    /// Maps `reference` to `file_name`, in place of what it was mapped to
    /// before.
    pub fn insert(&mut self, reference: String, file_name: String)
        ensures
            final(self)@ == old(self)@.insert(reference@, file_name@),
    {
        self.entries.push((reference, file_name));
        assert(self.entries.deep_view().drop_last() =~= old(self).entries.deep_view());
    }

    /// The name of the file that `reference` is mapped to, if it is mapped.
    pub fn get(&self, reference: &str) -> (file_name: Option<&str>)
        ensures
            match file_name {
                Some(name) => self@.contains_key(reference@) && self@[reference@] == name@,
                None => !self@.contains_key(reference@),
            },
    {
        let wanted = reference.to_owned();
        let mut index: usize = self.entries.len();
        while index > 0
            invariant
                index <= self.entries.len(),
                wanted@ == reference@,
                forall|later: int|
                    index <= later < self.entries.len() ==> (#[trigger] self.entries.deep_view()[later]).0
                        != reference@,
            decreases index,
        {
            index = index - 1;
            if self.entries[index].0 == wanted {
                proof {
                    lemma_last_entry_wins(self.entries.deep_view(), reference@, index as int);
                }
                return Some(self.entries[index].1.as_str());
            }
        }
        proof {
            lemma_absent_key(self.entries.deep_view(), reference@);
        }
        None
    }

    /// The map as a JSON object, for the rendering engine: each reference is a
    /// key, and its value is the file's name. The encoder is handed exactly
    /// the entries of this map, and its answer is the result: its text where
    /// it has one, and where it fails, its own account of the failure.
    pub fn to_json(&self) -> (encoded: Result<String, String>)
        ensures
            match encoded {
                Ok(text) => json_object_text(self@) == Some(text@),
                Err(_) => json_object_text(self@) is None,
            },
    {
        let mut object = json_object_new();
        let mut index: usize = 0;
        while index < self.entries.len()
            invariant
                index <= self.entries.len(),
                json_members(object) == entries_map(
                    self.entries.deep_view().subrange(0, index as int),
                ),
            decreases self.entries.len() - index,
        {
            json_object_insert(
                &mut object,
                self.entries[index].0.clone(),
                self.entries[index].1.clone(),
            );
            index = index + 1;
            assert(self.entries.deep_view().subrange(0, index as int).drop_last()
                =~= self.entries.deep_view().subrange(0, index - 1));
        }
        assert(self.entries.deep_view().subrange(0, index as int) =~= self.entries.deep_view());
        match json_object_encode(&object) {
            Ok(text) => Ok(text),
            Err(error) => Err(describe_json_error(&error)),
        }
    }

    /// Whether no avatar was stored.
    pub fn is_empty(&self) -> (empty: bool)
        ensures
            (empty == (self@ == Map::<Seq<char>, Seq<char>>::empty())),
    {
        proof {
            let entries = self.entries.deep_view();
            if entries.len() > 0 {
                assert(self@.contains_key(entries.last().0));
            }
        }
        self.entries.len() == 0
    }
}

} // verus!
