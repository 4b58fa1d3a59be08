//! The in-memory key-value store that answers `GET` and `SET` commands.

use vstd::prelude::*;
use vstd::hash_map::StringHashMap;

verus! {

/// What the store holds, as a mathematical map from keys to byte strings.
pub type StoreMap = Map<Seq<char>, Seq<u8>>;

/// A command the store understands.
pub enum Command {
    /// The `GET` command.
    Get { key: String },
    /// The `SET` command.
    Put { key: String, value: Vec<u8> },
}

/// A command as a mathematical value.
pub enum Op {
    Get(Seq<char>),
    Put(Seq<char>, Seq<u8>),
}

impl View for Command {
    type V = Op;

    open spec fn view(&self) -> Op {
        match self {
            Command::Get { key } => Op::Get(key@),
            Command::Put { key, value } => Op::Put(key@, value@),
        }
    }
}

/// A frame of the Redis protocol, as the store answers with it.
pub enum ReplyFrame {
    Simple(String),
    Error(String),
    Integer(u64),
    Bulk(Vec<u8>),
    Null,
    Array(Vec<ReplyFrame>),
}

/// The reply of the store to a command, as a mathematical value.
pub enum Reply {
    /// The simple string `OK`.
    Done,
    /// A bulk string holding a stored value.
    Value(Seq<u8>),
    /// The null frame: nothing is stored under the key.
    Missing,
}

/// The text of the `OK` reply.
pub open spec fn ok_text() -> Seq<char> {
    seq!['O', 'K']
}

/// Whether `frame` is the frame that carries `reply`.
pub open spec fn frame_carries(frame: ReplyFrame, reply: Reply) -> bool {
    match reply {
        Reply::Done => frame matches ReplyFrame::Simple(s) && s@ == ok_text(),
        Reply::Value(v) => frame matches ReplyFrame::Bulk(b) && b@ == v,
        Reply::Missing => frame matches ReplyFrame::Null,
    }
}

/// The key a command is about.
pub open spec fn op_key(op: Op) -> Seq<char> {
    match op {
        Op::Get(key) => key,
        Op::Put(key, _) => key,
    }
}

/// What a store holding `m` holds after `op`, and what it replies.
pub open spec fn respond(m: StoreMap, op: Op) -> (StoreMap, Reply) {
    match op {
        Op::Put(key, value) => (m.insert(key, value), Reply::Done),
        Op::Get(key) => (
            m,
            if m.contains_key(key) {
                Reply::Value(m[key])
            } else {
                Reply::Missing
            },
        ),
    }
}

/// A read gives back what the last write to the same key wrote.
pub proof fn law_get_after_put(m: StoreMap, key: Seq<char>, value: Seq<u8>)
    ensures
        respond(respond(m, Op::Put(key, value)).0, Op::Get(key)).1 == Reply::Value(value),
{
}

/// A write to one key leaves what a read of another key gives.
pub proof fn law_put_other_key(m: StoreMap, key: Seq<char>, value: Seq<u8>, other: Seq<char>)
    requires
        key != other,
    ensures
        respond(respond(m, Op::Put(key, value)).0, Op::Get(other)).1 == respond(m, Op::Get(other)).1,
{
}

/// A second write to a key replaces the first.
pub proof fn law_put_put(m: StoreMap, key: Seq<char>, first: Seq<u8>, second: Seq<u8>)
    ensures
        respond(respond(m, Op::Put(key, first)).0, Op::Put(key, second)) == respond(
            m,
            Op::Put(key, second),
        ),
{
    assert(m.insert(key, first).insert(key, second) =~= m.insert(key, second));
}

/// A read leaves the store as it is.
pub proof fn law_get_keeps(m: StoreMap, key: Seq<char>)
    ensures
        respond(m, Op::Get(key)).0 == m,
{
}

/// A write is answered with `OK`.
pub proof fn law_put_replies_ok(m: StoreMap, key: Seq<char>, value: Seq<u8>)
    ensures
        respond(m, Op::Put(key, value)).1 == Reply::Done,
{
}

/// A read of a key that no write touched finds nothing.
pub proof fn law_get_empty(key: Seq<char>)
    ensures
        respond(StoreMap::empty(), Op::Get(key)).1 == Reply::Missing,
{
}

/// The frame type of `mini_redis`, which a connection reads; the store
/// only hands it on to `mini_redis`'s command parser.
#[verifier::external_type_specification]
#[verifier::external_body]
pub struct ExRedisFrame(mini_redis::Frame);

/// What parsing a received frame gave.
pub enum Parsed {
    /// A command the store answers.
    Command(Command),
    /// A well-formed command the store does not answer, with its debug text.
    Unsupported(String),
    /// A frame that is no command, with the parser's message.
    Invalid(String),
}

/// Why a frame got no answer.
#[derive(Debug)]
pub enum ProcessError {
    /// The frame is no command; the parser's message.
    Invalid(String),
    /// The command is not one of `GET` and `SET`; its debug text.
    Unimplemented(String),
}

/// What `mini_redis::Command::from_frame` makes of a frame, as the store
/// keeps it.
pub uninterp spec fn parsed_of(frame: mini_redis::Frame) -> Parsed;

/// Parses a frame with `mini_redis::Command::from_frame` and keeps what the
/// store reads of the command: the key of a `GET`; the key and the value of a
/// `SET` (its expiry is dropped).  Any other command comes back as its debug
/// text, a parse error as its message.  The contract names the result: it is
/// a function of the frame alone.  What it is on a given frame is not stated.
#[verifier::external_body]
pub(crate) fn parse_frame(frame: mini_redis::Frame) -> (parsed: Parsed)
    ensures
        parsed == parsed_of(frame),
{
    match mini_redis::Command::from_frame(frame) {
        Ok(mini_redis::Command::Get(c)) => Parsed::Command(Command::Get { key: c.key().to_string() }),
        Ok(mini_redis::Command::Set(c)) => Parsed::Command(
            Command::Put { key: c.key().to_string(), value: c.value().to_vec() },
        ),
        Ok(other) => Parsed::Unsupported(format!("{:?}", other)),
        Err(e) => Parsed::Invalid(e.to_string()),
    }
}

/// Parses a received frame with `mini_redis`'s command parser.
pub fn parse_command(frame: mini_redis::Frame) -> (parsed: Parsed)
    ensures
        parsed == parsed_of(frame),
{
    parse_frame(frame)
}

/// Whether a store holding `before` that got `parsed` may hold `after` and
/// give the outcome `outcome`.
pub open spec fn handled(
    before: StoreMap,
    parsed: Parsed,
    after: StoreMap,
    outcome: Result<ReplyFrame, ProcessError>,
) -> bool {
    match parsed {
        Parsed::Command(cmd) => {
            &&& after == respond(before, cmd@).0
            &&& outcome matches Ok(frame)
            &&& frame_carries(frame, respond(before, cmd@).1)
        },
        Parsed::Unsupported(text) => after == before && outcome == Err::<ReplyFrame, ProcessError>(
            ProcessError::Unimplemented(text),
        ),
        Parsed::Invalid(text) => after == before && outcome == Err::<ReplyFrame, ProcessError>(
            ProcessError::Invalid(text),
        ),
    }
}

/// A parsed `SET` replaces whatever the key held with the new value and is
/// answered with the simple string `OK`.
pub proof fn law_handled_put(
    before: StoreMap,
    key: String,
    value: Vec<u8>,
    after: StoreMap,
    outcome: Result<ReplyFrame, ProcessError>,
)
    requires
        handled(before, Parsed::Command(Command::Put { key, value }), after, outcome),
    ensures
        after == before.insert(key@, value@),
        after[key@] == value@,
        outcome matches Ok(ReplyFrame::Simple(s)) && s@ == seq!['O', 'K'],
{
}

/// A parsed `GET` leaves the store as it is and is answered with the value
/// stored under the key, or with the null frame where nothing is.
pub proof fn law_handled_get(
    before: StoreMap,
    key: String,
    after: StoreMap,
    outcome: Result<ReplyFrame, ProcessError>,
)
    requires
        handled(before, Parsed::Command(Command::Get { key }), after, outcome),
    ensures
        after == before,
        before.contains_key(key@) ==> (outcome matches Ok(ReplyFrame::Bulk(b)) && b@ == before[key@]),
        !before.contains_key(key@) ==> (outcome matches Ok(ReplyFrame::Null)),
{
}

/// A `GET` processed after a `SET` of the same key answers with the value
/// that the `SET` carried, whatever the key held before, and a second `SET`
/// of that key wins over the first.
pub proof fn law_handled_put_then_get(
    m0: StoreMap,
    key: String,
    first: Vec<u8>,
    second: Vec<u8>,
    m1: StoreMap,
    m2: StoreMap,
    m3: StoreMap,
    o1: Result<ReplyFrame, ProcessError>,
    o2: Result<ReplyFrame, ProcessError>,
    o3: Result<ReplyFrame, ProcessError>,
)
    requires
        handled(m0, Parsed::Command(Command::Put { key: key, value: first }), m1, o1),
        handled(m1, Parsed::Command(Command::Put { key: key, value: second }), m2, o2),
        handled(m2, Parsed::Command(Command::Get { key: key }), m3, o3),
    ensures
        o3 matches Ok(ReplyFrame::Bulk(b)) && b@ == second@,
        m3 == m0.insert(key@, second@),
{
    law_handled_put(m0, key, first, m1, o1);
    law_handled_put(m1, key, second, m2, o2);
    law_handled_get(m2, key, m3, o3);
    assert(m0.insert(key@, first@).insert(key@, second@) =~= m0.insert(key@, second@));
}

/// A single key-value store.
pub struct Db {
    entries: StringHashMap<Vec<u8>>,
}

impl View for Db {
    type V = StoreMap;

    closed spec fn view(&self) -> StoreMap {
        self.entries@.map_values(|v: Vec<u8>| v@)
    }
}

impl Db {
    /// An empty store.
    pub fn new() -> (db: Db)
        ensures
            db@ == StoreMap::empty(),
    {
        let db = Db { entries: StringHashMap::new() };
        assert(db@ =~= StoreMap::empty());
        db
    }

    /// Applies `cmd` to the store and returns the frame that answers it.
    pub fn apply(&mut self, cmd: Command) -> (reply: ReplyFrame)
        ensures
            final(self)@ == respond(old(self)@, cmd@).0,
            frame_carries(reply, respond(old(self)@, cmd@).1),
    {
        match cmd {
            Command::Put { key, value } => {
                let ghost k = key@;
                let ghost v = value@;
                self.entries.insert(key, value);
                assert(self@ =~= old(self)@.insert(k, v));
                let ok = "OK".to_string();
                proof {
                    reveal_strlit("OK");
                }
                assert(ok@ =~= ok_text());
                ReplyFrame::Simple(ok)
            },
            Command::Get { key } => {
                match self.entries.get(key.as_str()) {
                    Some(value) => ReplyFrame::Bulk(value.clone()),
                    None => ReplyFrame::Null,
                }
            },
        }
    }

    /// Answers what parsing a frame gave: a command is applied, anything
    /// else leaves the store as it is and comes back as an error.
    pub fn respond_to(&mut self, parsed: Parsed) -> (outcome: Result<ReplyFrame, ProcessError>)
        ensures
            handled(old(self)@, parsed, final(self)@, outcome),
    {
        match parsed {
            Parsed::Command(cmd) => Ok(self.apply(cmd)),
            Parsed::Unsupported(text) => Err(ProcessError::Unimplemented(text)),
            Parsed::Invalid(text) => Err(ProcessError::Invalid(text)),
        }
    }

    /// Parses a received frame and answers it.  A frame that is no command,
    /// or a command other than `GET` and `SET`, leaves the store as it is and
    /// comes back as the error; what is received cannot be known to be a
    /// command before it is parsed.
    pub fn process_frame(&mut self, frame: mini_redis::Frame) -> (outcome: Result<ReplyFrame, ProcessError>)
        ensures
            handled(old(self)@, parsed_of(frame), final(self)@, outcome),
    {
        let parsed = parse_command(frame);
        self.respond_to(parsed)
    }
}

} // verus!
