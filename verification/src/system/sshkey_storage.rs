//! The private keys that are known, by host and user.

use vstd::prelude::*;
use crate::fs::text_view;
use crate::utils::text::{chars_of, same};

verus! {

/// A private key: where its file lies, and for which user of which host it
/// is.
#[derive(Debug)]
pub struct SshKey {
    pub host: String,
    pub username: String,
    pub path: String,
}

/// The known private keys. Looking one up changes nothing.
#[derive(Debug)]
pub struct SshKeyStorage {
    pub keys: Vec<SshKey>,
}

/// The path of the first of `keys` that is for `username` at `host`.
pub open spec fn lookup(keys: Seq<SshKey>, host: Seq<char>, username: Seq<char>) -> Option<
    Seq<char>,
>
    decreases keys.len(),
{
    if keys.len() == 0 {
        None
    } else if keys[0].host@ == host && keys[0].username@ == username {
        Some(keys[0].path@)
    } else {
        lookup(keys.drop_first(), host, username)
    }
}

/// Whether two texts hold the same characters.
pub fn same_text(a: &str, b: &str) -> (r: bool)
    ensures
        r == (a@ == b@),
{
    same(&chars_of(a), &chars_of(b))
}

impl SshKeyStorage {
    /// A storage without keys.
    pub fn empty() -> (r: Self)
        ensures
            r.keys@.len() == 0,
    {
        SshKeyStorage { keys: Vec::new() }
    }

    /// A storage of the given keys.
    pub fn new(keys: Vec<SshKey>) -> (r: Self)
        ensures
            r.keys == keys,
    {
        SshKeyStorage { keys }
    }

    /// The path of the private key of `username` at `host`, if one is known.
    pub fn resolve(&self, host: &str, username: &str) -> (r: Option<String>)
        ensures
            text_view(r) == lookup(self.keys@, host@, username@),
    {
        let mut i: usize = 0;
        assert(self.keys@.skip(0) =~= self.keys@);
        while i < self.keys.len()
            invariant
                i <= self.keys.len(),
                lookup(self.keys@, host@, username@) == lookup(
                    self.keys@.skip(i as int),
                    host@,
                    username@,
                ),
            decreases self.keys.len() - i,
        {
            let key = &self.keys[i];
            let ghost rest = self.keys@.skip(i as int);
            assert(rest[0] == self.keys@[i as int]);
            assert(rest.drop_first() =~= self.keys@.skip(i + 1));
            if same_text(key.host.as_str(), host) && same_text(key.username.as_str(), username) {
                return Some(key.path.clone());
            }
            i += 1;
        }
        None
    }
}

} // verus!
