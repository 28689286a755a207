use vstd::prelude::*;
use crate::viewing_key::ViewingKey;

verus! {

/// The context of one call: the caller's canonical identity and the block it runs in.
pub struct Env {
    pub sender: Vec<u8>,
    pub height: u64,
    pub time: u64,
}

/// Deployment parameters: the message ceiling and the text the secret seed is derived from.
pub struct InitMsg {
    pub max_size: i32,
    pub prng_seed: String,
}

/// Calls that change state, made by the caller in `Env::sender`.
pub enum HandleMsg {
    Record { reminder: String },
    Read {},
    GenerateViewingKey { entropy: String, padding: Option<String> },
}

/// Calls that only read state. `Read` names the canonical identity whose record is asked for.
pub enum QueryMsg {
    Stats {},
    Read { address: Vec<u8>, key: String },
}

/// Answers to `HandleMsg`.
pub enum HandleAnswer {
    Record { status: String },
    Read { status: String, reminder: Option<String>, timestamp: Option<u64> },
    GenerateViewingKey { key: ViewingKey },
}

/// Answers to `QueryMsg`.
pub enum QueryAnswer {
    Stats { reminder_count: u64 },
    Read { status: String, reminder: Option<String>, timestamp: Option<u64> },
}

impl QueryMsg {
    /// The identities a query implicates, in the order they are checked, and the key presented.
    pub fn get_validation_params(&self) -> (r: (Vec<Vec<u8>>, ViewingKey))
        requires
            self is Read,
        ensures
            r.0@.len() == 1,
            r.0@[0]@ == self->address@,
            r.1.0@ == self->key@,
    {
        match self {
            QueryMsg::Read { address, key } => {
                let mut addresses: Vec<Vec<u8>> = Vec::new();
                addresses.push(address.clone());
                (addresses, ViewingKey(key.clone()))
            },
            QueryMsg::Stats {} => {
                proof {
                    assert(false);
                }
                (Vec::new(), ViewingKey(String::new()))
            },
        }
    }
}

} // verus!
