use vstd::prelude::*;
use vstd::utf8::encode_utf8;
use crate::crypto::{base64_encode, base64_of, sha256_of, sha_256};
use crate::msg::{Env, HandleAnswer, HandleMsg, InitMsg, QueryAnswer, QueryMsg};
use crate::state::{KeyedStore, Reminder, State};
use crate::viewing_key::{
    issued_key, key_digest, key_material, ViewingKey, VIEWING_KEY_SIZE,
};

verus! {

/// The single failure of a call; business outcomes are answers, not errors.
#[derive(Clone, Copy, Debug, PartialEq, Eq, Structural)]
pub enum ContractError {
    /// `InitMsg::max_size` lies outside 1..=65535.
    InvalidMaxSize,
    /// The presented key opened none of the implicated identities, whatever the cause.
    Unauthorized,
}

/// The whole state of a deployment, as the contracts speak of it.
pub struct Model {
    pub max_size: nat,
    pub count: nat,
    pub seed: Seq<u8>,
    /// Digest of the current key of each identity that ever generated one.
    pub credentials: Map<Seq<u8>, Seq<u8>>,
    /// Message and timestamp of each identity that ever recorded one.
    pub records: Map<Seq<u8>, (Seq<char>, u64)>,
}

/// A deployment: its configuration, credential table and record table.
pub struct Contract {
    config: State,
    viewing_keys: KeyedStore<Vec<u8>>,
    reminders: KeyedStore<Reminder>,
}

impl View for Contract {
    type V = Model;

    closed spec fn view(&self) -> Model {
        Model {
            max_size: self.config.max_size as nat,
            count: self.config.reminder_count as nat,
            seed: self.config.prng_seed@,
            credentials: self.viewing_keys@,
            records: self.reminders@,
        }
    }
}

/// Size in bytes of a message as stored: its UTF-8 encoding.
pub open spec fn msg_len(content: Seq<char>) -> nat {
    encode_utf8(content).len()
}

/// The seed derived from the deployment's seed text.
pub open spec fn derived_seed(material: Seq<char>) -> Seq<u8> {
    sha256_of(encode_utf8(base64_of(encode_utf8(material))))
}

/// The state after `who` asks to record `content` at time `now`: a message over the ceiling
/// changes nothing; any other replaces `who`'s record and counts one write.
pub open spec fn record_spec(m: Model, who: Seq<u8>, content: Seq<char>, now: u64) -> Model {
    if msg_len(content) > m.max_size {
        m
    } else {
        Model { records: m.records.insert(who, (content, now)), count: m.count + 1, ..m }
    }
}

/// The state after `key` is issued to `who`: its digest replaces any earlier credential.
pub open spec fn issue_spec(m: Model, who: Seq<u8>, key: Seq<char>) -> Model {
    Model { credentials: m.credentials.insert(who, key_digest(key)), ..m }
}

/// The state after a run of record calls, each `(who, content, now)`, in order.
pub open spec fn record_all(m: Model, calls: Seq<(Seq<u8>, Seq<char>, u64)>) -> Model
    decreases calls.len(),
{
    if calls.len() == 0 {
        m
    } else {
        record_all(record_spec(m, calls[0].0, calls[0].1, calls[0].2), calls.drop_first())
    }
}

/// How many of `calls` carry a message within the ceiling `max_size`.
pub open spec fn accepted_count(max_size: nat, calls: Seq<(Seq<u8>, Seq<char>, u64)>) -> nat
    decreases calls.len(),
{
    if calls.len() == 0 {
        0
    } else {
        (if msg_len(calls[0].1) > max_size { 0nat } else { 1nat }) + accepted_count(
            max_size,
            calls.drop_first(),
        )
    }
}

/// What a read of `who`'s record finds.
pub open spec fn read_spec(m: Model, who: Seq<u8>) -> Option<(Seq<char>, u64)> {
    if m.records.contains_key(who) {
        Some(m.records[who])
    } else {
        None
    }
}

/// `key` is the current key of `who`.
pub open spec fn key_matches(m: Model, who: Seq<u8>, key: Seq<char>) -> bool {
    m.credentials.contains_key(who) && m.credentials[who] == key_digest(key)
}

/// `key` opens one of `candidates`.
pub open spec fn authorized(m: Model, candidates: Seq<Seq<u8>>, key: Seq<char>) -> bool {
    exists|i: int| 0 <= i < candidates.len() && key_matches(m, #[trigger] candidates[i], key)
}

/// The text of an optional message.
pub open spec fn opt_view(o: Option<String>) -> Option<Seq<char>> {
    match o {
        Some(s) => Some(s@),
        None => None,
    }
}

/// The status, message and timestamp of a read answer for `who`. `missing` is the status
/// reported when there is no record.
pub open spec fn read_fields(
    m: Model,
    who: Seq<u8>,
    missing: Seq<char>,
    status: String,
    reminder: Option<String>,
    timestamp: Option<u64>,
) -> bool {
    match read_spec(m, who) {
        Some((c, t)) => status@ == "Reminder found."@ && opt_view(reminder) == Some(c)
            && timestamp == Some(t),
        None => status@ == missing && reminder is None && timestamp is None,
    }
}

/// `val` is an allowed message ceiling.
pub open spec fn valid_max_size_spec(val: i32) -> bool {
    1 <= val <= 65535
}

impl Contract {
    /// The tables agree with their contents, and every stored credential is a full digest.
    pub closed spec fn wf(&self) -> bool {
        &&& self.viewing_keys.wf()
        &&& self.reminders.wf()
        &&& forall|k: Seq<u8>| #[trigger] self@.credentials.contains_key(k)
            ==> self@.credentials[k].len() == VIEWING_KEY_SIZE
    }
}

/// The ceiling, if `val` is an allowed one.
pub fn valid_max_size(val: i32) -> (r: Option<u16>)
    ensures
        r == (if valid_max_size_spec(val) { Some(val as u16) } else { None::<u16> }),
{
    if val < 1 || val > 65535 {
        None
    } else {
        Some(val as u16)
    }
}

/// Sets up a deployment with no records, no credentials and a count of zero.
pub fn init(msg: InitMsg) -> (r: Result<Contract, ContractError>)
    ensures
        valid_max_size_spec(msg.max_size) <==> r is Ok,
        !valid_max_size_spec(msg.max_size) ==> r == Err::<Contract, ContractError>(ContractError::InvalidMaxSize),
        r matches Ok(c) ==> {
            &&& c.wf()
            &&& c@.max_size == msg.max_size as nat
            &&& c@.count == 0
            &&& c@.seed == derived_seed(msg.prng_seed@)
            &&& c@.credentials == Map::<Seq<u8>, Seq<u8>>::empty()
            &&& c@.records == Map::<Seq<u8>, (Seq<char>, u64)>::empty()
        },
{
    let max_size = match valid_max_size(msg.max_size) {
        Some(v) => v,
        None => return Err(ContractError::InvalidMaxSize),
    };
    let encoded = base64_encode(msg.prng_seed.as_str().as_bytes());
    let prng_seed = sha_256(encoded.as_str().as_bytes());
    let c = Contract {
        config: State { max_size, reminder_count: 0, prng_seed },
        viewing_keys: KeyedStore::new(),
        reminders: KeyedStore::new(),
    };
    Ok(c)
}

/// Issues a fresh key to the caller and keeps its digest as the caller's only credential.
pub fn try_generate_viewing_key(contract: &mut Contract, env: &Env, entropy: String) -> (r: HandleAnswer)
    requires
        old(contract).wf(),
    ensures
        final(contract).wf(),
        r matches HandleAnswer::GenerateViewingKey { key } && {
            &&& key.0@ == issued_key(
                old(contract)@.seed,
                key_material(env.height, env.time, env.sender@, encode_utf8(entropy@)),
            )
            &&& final(contract)@ == issue_spec(old(contract)@, env.sender@, key.0@)
        },
{
    let key = ViewingKey::new(env, contract.config.prng_seed.as_slice(), entropy.as_str().as_bytes());
    let hashed = key.to_hashed();
    contract.viewing_keys.insert(env.sender.clone(), hashed);
    proof {
        assert(contract@ =~= issue_spec(old(contract)@, env.sender@, key.0@));
    }
    HandleAnswer::GenerateViewingKey { key }
}

/// Records the caller's message unless it is over the ceiling.
fn try_record(contract: &mut Contract, env: &Env, reminder: String) -> (r: HandleAnswer)
    requires
        old(contract).wf(),
        old(contract)@.count < u64::MAX,
    ensures
        final(contract).wf(),
        final(contract)@ == record_spec(old(contract)@, env.sender@, reminder@, env.time),
        r matches HandleAnswer::Record { status } && status@ == (if msg_len(reminder@)
            > old(contract)@.max_size {
            "Message is too long. Reminder not recorded"@
        } else {
            "Reminder recorded!"@
        }),
{
    let ghost content = reminder@;
    let len = reminder.as_str().as_bytes().len();
    if len > contract.config.max_size as usize {
        HandleAnswer::Record { status: String::from_str("Message is too long. Reminder not recorded") }
    } else {
        let stored = Reminder { content: reminder, timestamp: env.time };
        contract.reminders.insert(env.sender.clone(), stored);
        contract.config.reminder_count = contract.config.reminder_count + 1;
        proof {
            assert(contract@ =~= record_spec(old(contract)@, env.sender@, content, env.time));
        }
        HandleAnswer::Record { status: String::from_str("Reminder recorded!") }
    }
}

/// The message, status and timestamp kept for `who`.
fn read_record(contract: &Contract, who: &[u8], missing: &str) -> (r: (String, Option<String>, Option<u64>))
    requires
        contract.wf(),
    ensures
        read_fields(contract@, who@, missing@, r.0, r.1, r.2),
{
    match contract.reminders.get(who) {
        Some(stored) => (String::from_str("Reminder found."), Some(stored.content.clone()), Some(stored.timestamp)),
        None => (missing.to_owned(), None, None),
    }
}

/// The caller's own record; no key is asked for.
fn try_read(contract: &Contract, env: &Env) -> (r: HandleAnswer)
    requires
        contract.wf(),
    ensures
        r matches HandleAnswer::Read { status, reminder, timestamp }
            && read_fields(contract@, env.sender@, "Reminder not found"@, status, reminder, timestamp),
{
    let (status, reminder, timestamp) = read_record(contract, env.sender.as_slice(), "Reminder not found");
    HandleAnswer::Read { status, reminder, timestamp }
}

/// Runs one call that changes state, on behalf of `env.sender`.
pub fn handle(contract: &mut Contract, env: &Env, msg: HandleMsg) -> (r: HandleAnswer)
    requires
        old(contract).wf(),
        msg is Record ==> old(contract)@.count < u64::MAX,
    ensures
        final(contract).wf(),
        match msg {
            HandleMsg::Record { reminder } => {
                &&& final(contract)@ == record_spec(old(contract)@, env.sender@, reminder@, env.time)
                &&& r matches HandleAnswer::Record { status } && status@ == (if msg_len(reminder@)
                    > old(contract)@.max_size {
                    "Message is too long. Reminder not recorded"@
                } else {
                    "Reminder recorded!"@
                })
            },
            HandleMsg::Read {} => {
                &&& final(contract)@ == old(contract)@
                &&& r matches HandleAnswer::Read { status, reminder, timestamp } && read_fields(
                    old(contract)@, env.sender@, "Reminder not found"@, status, reminder, timestamp)
            },
            HandleMsg::GenerateViewingKey { entropy, .. } => {
                r matches HandleAnswer::GenerateViewingKey { key } && {
                    &&& key.0@ == issued_key(
                        old(contract)@.seed,
                        key_material(env.height, env.time, env.sender@, encode_utf8(entropy@)),
                    )
                    &&& final(contract)@ == issue_spec(old(contract)@, env.sender@, key.0@)
                }
            },
        },
{
    match msg {
        HandleMsg::Record { reminder } => try_record(contract, env, reminder),
        HandleMsg::Read {} => try_read(contract, env),
        HandleMsg::GenerateViewingKey { entropy, .. } => try_generate_viewing_key(contract, env, entropy),
    }
}

/// A buffer of the length of a real credential, checked against when an identity has none.
fn decoy_digest() -> (r: Vec<u8>)
    ensures
        r@.len() == VIEWING_KEY_SIZE,
{
    let mut v: Vec<u8> = Vec::new();
    let mut i: usize = 0;
    while i < VIEWING_KEY_SIZE
        invariant
            i <= VIEWING_KEY_SIZE,
            v@.len() == i,
        decreases VIEWING_KEY_SIZE - i,
    {
        v.push(0u8);
        i = i + 1;
    }
    v
}

/// Checks `key` against each candidate in order, and answers with the position of the first
/// one it opens, with the number of byte pairs examined. A candidate without a credential costs
/// the same comparison as one with a wrong key, and never matches.
pub fn authenticate(contract: &Contract, candidates: &Vec<Vec<u8>>, key: &ViewingKey) -> (r: (Option<usize>, usize))
    requires
        contract.wf(),
        candidates@.len() <= usize::MAX / VIEWING_KEY_SIZE,
    ensures
        match r.0 {
            Some(i) => {
                &&& i < candidates@.len()
                &&& key_matches(contract@, candidates@[i as int]@, key.0@)
                &&& forall|j: int| 0 <= j < i ==> !key_matches(contract@, #[trigger] candidates@[j]@, key.0@)
                &&& r.1 == VIEWING_KEY_SIZE * (i + 1)
            },
            None => {
                &&& forall|j: int| 0 <= j < candidates@.len() ==> !key_matches(contract@, #[trigger] candidates@[j]@, key.0@)
                &&& r.1 == VIEWING_KEY_SIZE * candidates@.len()
            },
        },
{
    let decoy = decoy_digest();
    let mut steps: usize = 0;
    let mut i: usize = 0;
    while i < candidates.len()
        invariant
            contract.wf(),
            decoy@.len() == VIEWING_KEY_SIZE,
            candidates@.len() <= usize::MAX / VIEWING_KEY_SIZE,
            i <= candidates@.len(),
            steps == VIEWING_KEY_SIZE * i,
            forall|j: int| 0 <= j < i ==> !key_matches(contract@, #[trigger] candidates@[j]@, key.0@),
        decreases candidates@.len() - i,
    {
        proof {
            assert(VIEWING_KEY_SIZE * (i + 1) == VIEWING_KEY_SIZE * i + VIEWING_KEY_SIZE) by (nonlinear_arith);
            assert(VIEWING_KEY_SIZE * (i + 1) <= VIEWING_KEY_SIZE * candidates@.len()) by (nonlinear_arith)
                requires i + 1 <= candidates@.len();
            assert(VIEWING_KEY_SIZE * candidates@.len() <= usize::MAX) by (nonlinear_arith)
                requires candidates@.len() <= usize::MAX / VIEWING_KEY_SIZE;
        }
        match contract.viewing_keys.get(candidates[i].as_slice()) {
            None => {
                let cmp = key.check_viewing_key(decoy.as_slice());
                steps = steps + cmp.steps;
            },
            Some(expected) => {
                assert(contract@.credentials.contains_key(candidates@[i as int]@));
                let cmp = key.check_viewing_key(expected.as_slice());
                steps = steps + cmp.steps;
                if cmp.equal {
                    return (Some(i), steps);
                }
            },
        }
        i = i + 1;
    }
    (None, steps)
}

/// The record of `address`, as a query answers it.
fn query_read(contract: &Contract, address: &[u8]) -> (r: QueryAnswer)
    requires
        contract.wf(),
    ensures
        r matches QueryAnswer::Read { status, reminder, timestamp }
            && read_fields(contract@, address@, "Reminder not found."@, status, reminder, timestamp),
{
    let (status, reminder, timestamp) = read_record(contract, address, "Reminder not found.");
    QueryAnswer::Read { status, reminder, timestamp }
}

/// Answers a query that needs a key: the record, if the key opens an implicated identity.
fn authenticated_queries(contract: &Contract, msg: QueryMsg) -> (r: Result<QueryAnswer, ContractError>)
    requires
        contract.wf(),
        msg is Read,
    ensures
        authorized(contract@, seq![msg->address@], msg->key@) <==> r is Ok,
        r matches Ok(a) ==> a matches QueryAnswer::Read { status, reminder, timestamp }
            && read_fields(contract@, msg->address@, "Reminder not found."@, status, reminder, timestamp),
        r matches Err(e) ==> e == ContractError::Unauthorized,
{
    let (addresses, key) = msg.get_validation_params();
    let (found, _steps) = authenticate(contract, &addresses, &key);
    proof {
        let cands = seq![msg->address@];
        assert(cands[0] == addresses@[0]@);
        if found is None {
            assert(!authorized(contract@, cands, msg->key@)) by {
                assert forall|i: int| 0 <= i < cands.len() implies !key_matches(contract@, #[trigger] cands[i], msg->key@) by {
                    assert(!key_matches(contract@, addresses@[0]@, key.0@));
                }
            }
        } else {
            assert(key_matches(contract@, cands[0], msg->key@));
        }
    }
    match found {
        Some(_) => match msg {
            QueryMsg::Read { address, .. } => Ok(query_read(contract, address.as_slice())),
            QueryMsg::Stats {} => Err(ContractError::Unauthorized),
        },
        None => Err(ContractError::Unauthorized),
    }
}

/// The number of accepted writes so far.
fn query_stats(contract: &Contract) -> (r: QueryAnswer)
    ensures
        r == (QueryAnswer::Stats { reminder_count: contract.config.reminder_count }),
        contract@.count == contract.config.reminder_count as nat,
{
    QueryAnswer::Stats { reminder_count: contract.config.reminder_count }
}

/// Runs one read-only call.
pub fn query(contract: &Contract, msg: QueryMsg) -> (r: Result<QueryAnswer, ContractError>)
    requires
        contract.wf(),
    ensures
        match msg {
            QueryMsg::Stats {} => r matches Ok(QueryAnswer::Stats { reminder_count }) && reminder_count as nat == contract@.count,
            QueryMsg::Read { address, key } => {
                &&& authorized(contract@, seq![address@], key@) <==> r is Ok
                &&& r matches Ok(a) ==> a matches QueryAnswer::Read { status, reminder, timestamp }
                    && read_fields(contract@, address@, "Reminder not found."@, status, reminder, timestamp)
                &&& r matches Err(e) ==> e == ContractError::Unauthorized
            },
        },
{
    match msg {
        QueryMsg::Stats {} => Ok(query_stats(contract)),
        _ => authenticated_queries(contract, msg),
    }
}

} // verus!
