//! The file registry: which file is served under which identifier.
//!
//! An identifier is the hash of the path it stands for, written in lower-case
//! hexadecimal. Registering a path again changes nothing. Two paths with one
//! hash share an identifier, and the one registered last is the one served.
//! Entries are never removed.

use crate::numeral::{format_hex, is_lower_hex, lemma_lower_hex_is_hex, lower_hex};
use std::collections::hash_map::DefaultHasher;
use std::hash::Hasher;
use vstd::hash_map::StringHashMap;
use vstd::prelude::*;
use vstd::std_specs::hash::DefaultHasherAdditionalSpecFns;
use vstd::utf8::encode_utf8;

verus! {

/// The hash of a path: that of its bytes in UTF-8, closed by the byte `0xff`,
/// which no text holds.
pub open spec fn path_hash(path: Seq<char>) -> u64 {
    DefaultHasher::spec_finish(seq![encode_utf8(path), seq![0xffu8]])
}

/// The identifier under which `path` is registered.
pub open spec fn file_id(path: Seq<char>) -> Seq<char> {
    lower_hex(path_hash(path) as nat)
}

/// The registry `files` after `path` has been registered.
pub open spec fn registered(files: Map<Seq<char>, Seq<char>>, path: Seq<char>) -> Map<
    Seq<char>,
    Seq<char>,
> {
    files.insert(file_id(path), path)
}

/// The path that `files` holds under `id`, if any.
pub open spec fn looked_up(files: Map<Seq<char>, Seq<char>>, id: Seq<char>) -> Option<Seq<char>> {
    if files.contains_key(id) {
        Some(files[id])
    } else {
        None
    }
}

/// Whether every entry of `files` stands under the identifier of its path.
pub open spec fn consistent(files: Map<Seq<char>, Seq<char>>) -> bool {
    forall|id: Seq<char>| #[trigger] files.contains_key(id) ==> id == file_id(files[id])
}

/// The hash of `path`.
pub fn hash_path(path: &str) -> (hash: u64)
    ensures
        hash == path_hash(path@),
{
    let mut hasher = DefaultHasher::new();
    hasher.write(path.as_bytes());
    let end: [u8; 1] = [0xff];
    assert(end@ =~= seq![0xffu8]);
    hasher.write(end.as_slice());
    assert(hasher@ =~= seq![encode_utf8(path@), seq![0xffu8]]);
    hasher.finish()
}

/// The paths that can be served, each under its identifier.
pub struct FileRegistry {
    entries: StringHashMap<String>,
}

impl View for FileRegistry {
    type V = Map<Seq<char>, Seq<char>>;

    closed spec fn view(&self) -> Map<Seq<char>, Seq<char>> {
        self.entries@.map_values(|path: String| path@)
    }
}

impl FileRegistry {
    #[verifier::type_invariant]
    spec fn well_formed(self) -> bool {
        consistent(self@)
    }

    /// An empty registry.
    pub fn new() -> (registry: Self)
        ensures
            registry@ == Map::<Seq<char>, Seq<char>>::empty(),
    {
        FileRegistry { entries: StringHashMap::new() }
    }

    /// Registers `path` and returns its identifier. An entry that stood under
    /// the identifier is replaced; every other entry stays.
    pub fn register(&mut self, path: String) -> (id: String)
        ensures
            id@ == file_id(path@),
            final(self)@ == registered(old(self)@, path@),
    {
        proof {
            use_type_invariant(&*self);
        }
        let id = format_hex(hash_path(path.as_str()));
        let key = id.clone();
        // The map is taken out for the insertion, so that the registry is
        // well formed at every call that could unwind.
        let mut entries = StringHashMap::new();
        std::mem::swap(&mut self.entries, &mut entries);
        entries.insert(key, path);
        assert(entries@.map_values(|path: String| path@) =~= registered(old(self)@, path@));
        std::mem::swap(&mut self.entries, &mut entries);
        id
    }

    /// The path registered under `id`, or `None` where there is none. A path
    /// that is found has `id` for its identifier.
    pub fn lookup(&self, id: &str) -> (path: Option<String>)
        ensures
            path matches Some(p) ==> looked_up(self@, id@) == Some(p@) && file_id(p@) == id@,
            path is None ==> looked_up(self@, id@) is None,
    {
        proof {
            use_type_invariant(self);
        }
        match self.entries.get(id) {
            Some(path) => Some(path.clone()),
            None => None,
        }
    }
}

/// Registering a path twice leaves the registry as registering it once does,
/// and after either the path is found under its identifier.
pub proof fn lemma_registration_is_idempotent(files: Map<Seq<char>, Seq<char>>, path: Seq<char>)
    ensures
        registered(registered(files, path), path) == registered(files, path),
        looked_up(registered(files, path), file_id(path)) == Some(path),
{
}

/// Registering a path leaves every other identifier as it was.
pub proof fn lemma_registration_keeps_others(
    files: Map<Seq<char>, Seq<char>>,
    path: Seq<char>,
    id: Seq<char>,
)
    requires
        id != file_id(path),
    ensures
        looked_up(registered(files, path), id) == looked_up(files, id),
{
}

/// Registration removes nothing: an identifier that was registered stays
/// registered.
pub proof fn lemma_registration_never_removes(
    files: Map<Seq<char>, Seq<char>>,
    path: Seq<char>,
    id: Seq<char>,
)
    requires
        files.contains_key(id),
    ensures
        registered(files, path).contains_key(id),
{
}

/// An identifier is a numeral in lower-case hexadecimal.
pub proof fn lemma_identifiers_are_hex(path: Seq<char>)
    ensures
        is_lower_hex(file_id(path)),
{
    lemma_lower_hex_is_hex(path_hash(path) as nat);
}

/// Text that is no such numeral is no key of a registry whose entries stand
/// under the identifiers of their paths.
pub proof fn lemma_other_text_is_not_registered(files: Map<Seq<char>, Seq<char>>, id: Seq<char>)
    requires
        consistent(files),
        !is_lower_hex(id),
    ensures
        looked_up(files, id) is None,
{
    if files.contains_key(id) {
        lemma_identifiers_are_hex(files[id]);
    }
}

/// Registration keeps every entry under the identifier of its path.
pub proof fn lemma_registration_is_consistent(files: Map<Seq<char>, Seq<char>>, path: Seq<char>)
    requires
        consistent(files),
    ensures
        consistent(registered(files, path)),
{
}

} // verus!
