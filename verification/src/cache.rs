//! The username cache: uuid/name pairs the server keeps on disk.
//!
//! The library only searches the entries; reading and deserializing the
//! cache file is the surrounding binary's business.

use vstd::prelude::*;
use vstd::string::StringExecFns;

verus! {

/// One entry of the server's username cache.
#[derive(Debug, Clone)]
pub struct UserCache {
    /// The player's name.
    pub name: String,
    /// The player's uuid.
    pub uuid: String,
    /// When the entry lapses, as the raw text from the cache file.
    expires_on: String,
}

/// A cache entry as mathematical values.
#[verifier::ext_equal]
pub struct UserCacheView {
    pub name: Seq<char>,
    pub uuid: Seq<char>,
    pub expires_on: Seq<char>,
}

impl View for UserCache {
    type V = UserCacheView;

    closed spec fn view(&self) -> UserCacheView {
        UserCacheView { name: self.name@, uuid: self.uuid@, expires_on: self.expires_on@ }
    }
}

impl UserCache {
    /// Assemble an entry.
    pub fn new(name: String, uuid: String, expires_on: String) -> (r: Self)
        ensures
            r@.name == name@,
            r@.uuid == uuid@,
            r@.expires_on == expires_on@,
    {
        UserCache { name, uuid, expires_on }
    }

    /// When the entry lapses.
    pub fn expires_on(&self) -> (r: &String)
        ensures
            r@ == self@.expires_on,
    {
        &self.expires_on
    }
}

/// The name of the first entry whose uuid is `uuid`, or "Unknown" when no
/// entry has it.
pub open spec fn spec_find_player(uuid: Seq<char>, stats: Seq<UserCache>) -> Seq<char>
    decreases stats.len(),
{
    if stats.len() == 0 {
        "Unknown"@
    } else if stats[0]@.uuid == uuid {
        stats[0]@.name
    } else {
        spec_find_player(uuid, stats.drop_first())
    }
}

/// The uuid of the first entry whose name is `name`, or the empty string
/// when no entry has it.
pub open spec fn spec_find_uuid(name: Seq<char>, stats: Seq<UserCache>) -> Seq<char>
    decreases stats.len(),
{
    if stats.len() == 0 {
        Seq::empty()
    } else if stats[0]@.name == name {
        stats[0]@.uuid
    } else {
        spec_find_uuid(name, stats.drop_first())
    }
}

/// Things that can look themselves up in the username cache.
pub trait Findable {
    /// Treat `self` as a uuid and find the matching player's name.
    fn find_player(&self, stats: Vec<UserCache>) -> String;
}

impl Findable for String {
    /// The first entry whose uuid is `self` names the player; with no such
    /// entry the player is "Unknown".
    fn find_player(&self, stats: Vec<UserCache>) -> (r: String)
        ensures
            r@ == spec_find_player(self@, stats@),
    {
        let mut i: usize = 0;
        proof {
            assert(stats@.skip(0) =~= stats@);
        }
        while i < stats.len()
            invariant
                i <= stats@.len(),
                spec_find_player(self@, stats@) == spec_find_player(
                    self@,
                    stats@.skip(i as int),
                ),
            decreases stats@.len() - i,
        {
            proof {
                assert(stats@.skip(i as int)[0] == stats@[i as int]);
                assert(stats@.skip(i as int).drop_first() =~= stats@.skip(i + 1));
            }
            if stats[i].uuid == *self {
                return stats[i].name.clone();
            }
            i = i + 1;
        }
        proof {
            assert(stats@.skip(stats@.len() as int).len() == 0);
        }
        String::from_str("Unknown")
    }
}

/// The uuid recorded for `name`: the first matching entry's, or the empty
/// string when the cache has none.
pub fn find_uuid(name: &str, stats: &Vec<UserCache>) -> (r: String)
    ensures
        r@ == spec_find_uuid(name@, stats@),
{
    let mut i: usize = 0;
    proof {
        assert(stats@.skip(0) =~= stats@);
    }
    while i < stats.len()
        invariant
            i <= stats@.len(),
            spec_find_uuid(name@, stats@) == spec_find_uuid(name@, stats@.skip(i as int)),
        decreases stats@.len() - i,
    {
        proof {
            assert(stats@.skip(i as int)[0] == stats@[i as int]);
            assert(stats@.skip(i as int).drop_first() =~= stats@.skip(i + 1));
        }
        if stats[i].name == name.to_owned() {
            return stats[i].uuid.clone();
        }
        i = i + 1;
    }
    proof {
        assert(stats@.skip(stats@.len() as int).len() == 0);
    }
    String::new()
}

} // verus!
