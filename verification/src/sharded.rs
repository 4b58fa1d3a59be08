//! A key-value store split into shards, each key living in the shard its
//! hash picks.

use vstd::prelude::*;
use crate::store::{
    Command, Db, ReplyFrame, StoreMap, Parsed, ProcessError, respond, frame_carries, handled,
    op_key, parse_command, parsed_of,
};

verus! {

/// The hash of a key under std's `DefaultHasher` as `hash_one` of
/// `BuildHasherDefault<DefaultHasher>` computes it.
pub uninterp spec fn key_hash(key: Seq<char>) -> u64;

/// Hashes `key` with `BuildHasher::hash_one` of
/// `BuildHasherDefault<DefaultHasher>`.  The contract names the result:
/// every `DefaultHasher` made by `new` or `default` is the same hasher
/// (std's documentation of `DefaultHasher::new`), so within one build of the
/// program the hash is a function of the key.  Its value is not stated.
#[verifier::external_body]
fn hash_key(key: &str) -> (hash: u64)
    ensures
        hash == key_hash(key@),
{
    std::hash::BuildHasher::hash_one(
        &std::hash::BuildHasherDefault::<std::collections::hash_map::DefaultHasher>::default(),
        key,
    )
}

/// The shard that holds `key` among `num_shards` shards.
pub open spec fn shard_of(key: Seq<char>, num_shards: nat) -> int {
    key_hash(key) as int % num_shards as int
}

/// The shard that a key with hash `hash` goes to among `num_shards` shards.
pub fn shard_index(hash: u64, num_shards: usize) -> (index: usize)
    requires
        num_shards > 0,
    ensures
        index == hash as int % num_shards as int,
        index < num_shards,
{
    let n: u64 = num_shards as u64;
    let r: u64 = hash % n;
    r as usize
}

/// The shard that holds `key` among `num_shards` shards.
pub fn shard_for_key(key: &str, num_shards: usize) -> (index: usize)
    requires
        num_shards > 0,
    ensures
        index == shard_of(key@, num_shards as nat),
        index < num_shards,
{
    let hash = hash_key(key);
    shard_index(hash, num_shards)
}

/// The shard that holds the key of `cmd` among `num_shards` shards.
pub fn shard_of_command(cmd: &Command, num_shards: usize) -> (index: usize)
    requires
        num_shards > 0,
    ensures
        index == shard_of(op_key(cmd@), num_shards as nat),
        index < num_shards,
{
    match cmd {
        Command::Get { key } => shard_for_key(key.as_str(), num_shards),
        Command::Put { key, .. } => shard_for_key(key.as_str(), num_shards),
    }
}

/// A store split into shards.
pub struct ShardedDb {
    shards: Vec<Db>,
}

impl View for ShardedDb {
    type V = StoreMap;

    /// The contents of the whole store: each key as its own shard holds it.
    closed spec fn view(&self) -> StoreMap {
        let n = self.shards@.len();
        Map::new(
            |k: Seq<char>| n > 0 && self.shards@[shard_of(k, n)]@.contains_key(k),
            |k: Seq<char>| self.shards@[shard_of(k, n)]@[k],
        )
    }
}

impl ShardedDb {
    /// The number of shards.
    pub closed spec fn spec_num_shards(&self) -> nat {
        self.shards@.len()
    }

    /// What shard `i` holds.
    pub closed spec fn shard_view(&self, i: int) -> StoreMap {
        self.shards@[i]@
    }

    /// Every key sits in the shard that its hash picks.
    pub open spec fn keys_placed(&self) -> bool {
        forall|i: int, k: Seq<char>|
            0 <= i < self.spec_num_shards() && #[trigger] self.shard_view(i).contains_key(k)
                ==> shard_of(k, self.spec_num_shards()) == i
    }

    #[verifier::type_invariant]
    closed spec fn wf(&self) -> bool {
        self.keys_placed()
    }

    /// The number of shards.
    pub fn num_shards(&self) -> (n: usize)
        ensures
            n == self.spec_num_shards(),
    {
        self.shards.len()
    }

    /// Applies `cmd` in the shard of its key and returns the frame that
    /// answers it: the whole store answers as one store would.
    pub fn apply(&mut self, cmd: Command) -> (reply: ReplyFrame)
        requires
            old(self).spec_num_shards() > 0,
        ensures
            final(self).spec_num_shards() == old(self).spec_num_shards(),
            final(self).keys_placed(),
            final(self)@ == respond(old(self)@, cmd@).0,
            frame_carries(reply, respond(old(self)@, cmd@).1),
    {
        proof {
            use_type_invariant(&*self);
        }
        let mut shards: Vec<Db> = Vec::new();
        std::mem::swap(&mut shards, &mut self.shards);
        let n = shards.len();
        let idx = shard_of_command(&cmd, n);
        let ghost k = op_key(cmd@);
        let ghost before = shards@;
        assert(idx == shard_of(k, n as nat));
        let reply = shards[idx].apply(cmd);
        proof {
            let after = shards@;
            assert(after.len() == before.len());
            assert forall|j: int| 0 <= j < after.len() && j != idx implies after[j] == before[j] by {}
            assert forall|i: int, k2: Seq<char>|
                0 <= i < after.len() && #[trigger] after[i]@.contains_key(k2)
                implies shard_of(k2, after.len()) == i by {
                if i != idx {
                    assert(before[i]@.contains_key(k2));
                    assert(old(self).shard_view(i).contains_key(k2));
                } else if k2 != k {
                    assert(before[i]@.contains_key(k2));
                    assert(old(self).shard_view(i).contains_key(k2));
                }
            }
            if before[idx as int]@.contains_key(k) {
                assert(old(self)@.contains_key(k));
            }
            if old(self)@.contains_key(k) {
                assert(before[idx as int]@.contains_key(k));
            }
        }
        self.shards = shards;
        assert(self@ =~= respond(old(self)@, cmd@).0);
        reply
    }

    /// Answers what parsing a frame gave: a command is applied in its shard,
    /// anything else leaves the store as it is and comes back as an error.
    pub fn respond_to(&mut self, parsed: Parsed) -> (outcome: Result<ReplyFrame, ProcessError>)
        requires
            old(self).spec_num_shards() > 0,
        ensures
            final(self).spec_num_shards() == old(self).spec_num_shards(),
            final(self).keys_placed(),
            handled(old(self)@, parsed, final(self)@, outcome),
    {
        proof {
            use_type_invariant(&*self);
        }
        match parsed {
            Parsed::Command(cmd) => Ok(self.apply(cmd)),
            Parsed::Unsupported(text) => Err(ProcessError::Unimplemented(text)),
            Parsed::Invalid(text) => Err(ProcessError::Invalid(text)),
        }
    }

    /// Parses a received frame and answers it.  A frame that is no command,
    /// or a command other than `GET` and `SET`, leaves the store as it is and
    /// comes back as the error; what is received cannot be known to be a
    /// command before it is parsed.
    pub fn process_frame(&mut self, frame: mini_redis::Frame) -> (outcome: Result<
        ReplyFrame,
        ProcessError,
    >)
        requires
            old(self).spec_num_shards() > 0,
        ensures
            final(self).spec_num_shards() == old(self).spec_num_shards(),
            final(self).keys_placed(),
            handled(old(self)@, parsed_of(frame), final(self)@, outcome),
    {
        let parsed = parse_command(frame);
        self.respond_to(parsed)
    }

    /// The shards themselves, each with what it holds.
    pub fn into_shards(self) -> (shards: Vec<Db>)
        ensures
            shards@.len() == self.spec_num_shards(),
            forall|i: int| 0 <= i < shards@.len() ==> #[trigger] shards@[i]@ == self.shard_view(i),
    {
        self.shards
    }
}

/// A store of `num_shards` empty shards.
pub fn new_sharded_db(num_shards: usize) -> (db: ShardedDb)
    ensures
        db.spec_num_shards() == num_shards,
        db.keys_placed(),
        forall|i: int| 0 <= i < num_shards ==> #[trigger] db.shard_view(i) == StoreMap::empty(),
        db@ == StoreMap::empty(),
{
    let mut shards: Vec<Db> = Vec::with_capacity(num_shards);
    for _i in 0..num_shards
        invariant
            shards@.len() == _i,
            forall|j: int| 0 <= j < shards@.len() ==> #[trigger] shards@[j]@ == StoreMap::empty(),
    {
        shards.push(Db::new());
    }
    let db = ShardedDb { shards };
    assert(db@ =~= StoreMap::empty());
    db
}

/// The whole store holds a key exactly where the key's own shard holds it,
/// with the value that shard holds.
pub proof fn law_store_is_union_of_shards(db: ShardedDb, key: Seq<char>)
    ensures
        db@.contains_key(key) <==> (db.spec_num_shards() > 0 && db.shard_view(
            shard_of(key, db.spec_num_shards()),
        ).contains_key(key)),
        db@.contains_key(key) ==> db@[key] == db.shard_view(shard_of(key, db.spec_num_shards()))[key],
{
}

/// Where every key sits in its hash's shard, no key sits in two shards.
pub proof fn law_one_shard_per_key(db: ShardedDb, i: int, j: int, key: Seq<char>)
    requires
        db.keys_placed(),
        0 <= i < db.spec_num_shards(),
        0 <= j < db.spec_num_shards(),
        db.shard_view(i).contains_key(key),
        db.shard_view(j).contains_key(key),
    ensures
        i == j,
{
}

} // verus!
