pub mod crypto;
pub mod msg;
pub mod viewing_key;
pub mod state;
pub mod contract;
pub mod lemmas;
