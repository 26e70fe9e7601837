//! The startup state: every configuration file's content hash, recorded by
//! path so a later reload can tell which part of the gateway changed.

use vstd::prelude::*;

use sha2::Digest;

use crate::definitions::kv_insert;
use crate::definitions::KvMap;

verus! {

/// The 64 lowercase hex digits of the SHA-256 digest of a text.
pub uninterp spec fn sha256_hex_of(data: Seq<char>) -> Seq<char>;

/// Relies on sha2's SHA-256 and on hex::encode: 64 lowercase hex digits
/// that depend on the content alone.
#[verifier::external_body]
pub fn sha256_hex(data: &String) -> (r: String)
    ensures
        r@ == sha256_hex_of(data@),
        r@.len() == 64,
{
    hex::encode(sha2::Sha256::digest(data.as_bytes()))
}

/// What the startup keeps of each configuration file it has read: the hash
/// of its content, under its path.
pub struct MainState {
    configured_hashes: KvMap,
}

impl MainState {
    /// The recorded hashes, by path.
    pub closed spec fn hashes(&self) -> Seq<(Seq<char>, Seq<char>)> {
        self.configured_hashes@
    }

    /// A state with nothing recorded.
    pub fn new() -> (r: MainState)
        ensures
            r.hashes() =~= Seq::<(Seq<char>, Seq<char>)>::empty(),
    {
        MainState { configured_hashes: KvMap::new() }
    }

    /// Records a configuration file's content under its path: the content's
    /// hash replaces whatever the path held before.  The file read itself
    /// happens at the edge; this takes the content as a value.
    pub fn record_file(&mut self, path: String, contents: &String)
        ensures
            final(self).hashes() =~= kv_insert(
                old(self).hashes(),
                path@,
                sha256_hex_of(contents@),
            ),
    {
        let digest = sha256_hex(contents);
        self.configured_hashes.insert(path, digest);
    }

    /// The hashes of every file read so far, by path.
    pub fn get_configured_hashes(&self) -> (r: &KvMap)
        ensures
            r@ == self.hashes(),
    {
        &self.configured_hashes
    }
}

} // verus!
