use reminder::contract::{authenticate, handle, init, query, valid_max_size, Contract, ContractError};
use reminder::msg::{Env, HandleAnswer, HandleMsg, InitMsg, QueryAnswer, QueryMsg};
use reminder::viewing_key::{build_key_material, ct_slice_compare, ViewingKey, VIEWING_KEY_SIZE};

fn env_of(sender: &str, time: u64) -> Env {
    Env { sender: sender.as_bytes().to_vec(), height: 12345, time }
}

fn deploy(max_size: i32, seed: &str) -> Contract {
    init(InitMsg { max_size, prng_seed: seed.to_string() }).unwrap()
}

fn record(c: &mut Contract, sender: &str, text: &str) -> String {
    match handle(c, &env_of(sender, 1571797419), HandleMsg::Record { reminder: text.to_string() }) {
        HandleAnswer::Record { status } => status,
        _ => panic!("Unexpected result from handle"),
    }
}

fn new_key(c: &mut Contract, sender: &str, entropy: &str, time: u64) -> String {
    let msg = HandleMsg::GenerateViewingKey { entropy: entropy.to_string(), padding: None };
    match handle(c, &env_of(sender, time), msg) {
        HandleAnswer::GenerateViewingKey { key } => key.0,
        _ => panic!("Unexpected result from handle"),
    }
}

fn stats(c: &Contract) -> u64 {
    match query(c, QueryMsg::Stats {}) {
        Ok(QueryAnswer::Stats { reminder_count }) => reminder_count,
        _ => panic!("Unexpected result from query"),
    }
}

fn auth_read(c: &Contract, address: &str, key: &str) -> Result<QueryAnswer, ContractError> {
    query(c, QueryMsg::Read { address: address.as_bytes().to_vec(), key: key.to_string() })
}

#[test]
fn test_record() {
    let mut deps = deploy(690, "lets init bro");

    record(&mut deps, "anyone", "drink more water");
    record(&mut deps, "anyone", "deposit to pepe credit union");

    let vk = new_key(&mut deps, "anyone", "supbro", 1571797419);
    println!("viewing key here: {}", vk);

    let query_answer = auth_read(&deps, "anyone", &vk).unwrap();
    match query_answer {
        QueryAnswer::Read { status, reminder, timestamp } => {
            assert_eq!(status, "Reminder found.");
            assert_eq!(reminder, Some("deposit to pepe credit union".to_string()));
            assert_eq!(timestamp, Some(1571797419));
        }
        _ => panic!("Unexpected result from query"),
    }
}

#[test]
fn scenario_drink_water() {
    let mut c = deploy(690, "s");
    assert_eq!(record(&mut c, "x", "drink water"), "Reminder recorded!");
    assert_eq!(stats(&c), 1);
    let k = new_key(&mut c, "x", "e", 10);
    match auth_read(&c, "x", &k) {
        Ok(QueryAnswer::Read { status, reminder, .. }) => {
            assert_eq!(status, "Reminder found.");
            assert_eq!(reminder, Some("drink water".to_string()));
        }
        _ => panic!("expected a found record"),
    }
    assert!(matches!(auth_read(&c, "x", "wrong"), Err(ContractError::Unauthorized)));
}

#[test]
fn length_boundary() {
    let mut c = deploy(690, "s");
    let exact = "a".repeat(690);
    assert_eq!(record(&mut c, "x", &exact), "Reminder recorded!");
    assert_eq!(stats(&c), 1);
    let over = "a".repeat(691);
    assert_eq!(record(&mut c, "x", &over), "Message is too long. Reminder not recorded");
    assert_eq!(stats(&c), 1);
    match handle(&mut c, &env_of("x", 1), HandleMsg::Read {}) {
        HandleAnswer::Read { reminder, .. } => assert_eq!(reminder, Some(exact)),
        _ => panic!("expected a read answer"),
    }
}

#[test]
fn length_counts_utf8_bytes() {
    let mut c = deploy(3, "s");
    assert_eq!(record(&mut c, "x", "\u{e9}a"), "Reminder recorded!");
    assert_eq!(record(&mut c, "x", "\u{e9}\u{e9}"), "Message is too long. Reminder not recorded");
    assert_eq!(stats(&c), 1);
}

#[test]
fn counter_counts_accepted_writes() {
    let mut c = deploy(5, "s");
    assert_eq!(stats(&c), 0);
    record(&mut c, "x", "one");
    record(&mut c, "x", "two");
    record(&mut c, "y", "three");
    record(&mut c, "y", "too long");
    assert_eq!(stats(&c), 3);
}

#[test]
fn self_read_without_key() {
    let mut c = deploy(100, "s");
    record(&mut c, "a", "mine");
    record(&mut c, "b", "theirs");
    match handle(&mut c, &env_of("a", 7), HandleMsg::Read {}) {
        HandleAnswer::Read { status, reminder, timestamp } => {
            assert_eq!(status, "Reminder found.");
            assert_eq!(reminder, Some("mine".to_string()));
            assert_eq!(timestamp, Some(1571797419));
        }
        _ => panic!("expected a read answer"),
    }
    new_key(&mut c, "a", "e", 9);
    match handle(&mut c, &env_of("a", 7), HandleMsg::Read {}) {
        HandleAnswer::Read { reminder, .. } => assert_eq!(reminder, Some("mine".to_string())),
        _ => panic!("expected a read answer"),
    }
}

#[test]
fn self_read_not_found() {
    let mut c = deploy(100, "s");
    match handle(&mut c, &env_of("a", 7), HandleMsg::Read {}) {
        HandleAnswer::Read { status, reminder, timestamp } => {
            assert_eq!(status, "Reminder not found");
            assert_eq!(reminder, None);
            assert_eq!(timestamp, None);
        }
        _ => panic!("expected a read answer"),
    }
}

#[test]
fn authenticated_read_not_found() {
    let mut c = deploy(100, "s");
    let k = new_key(&mut c, "a", "e", 1);
    match auth_read(&c, "a", &k) {
        Ok(QueryAnswer::Read { status, reminder, timestamp }) => {
            assert_eq!(status, "Reminder not found.");
            assert_eq!(reminder, None);
            assert_eq!(timestamp, None);
        }
        _ => panic!("expected a read answer"),
    }
}

#[test]
fn no_credential_is_unauthorized() {
    let mut c = deploy(100, "s");
    record(&mut c, "a", "mine");
    assert!(matches!(auth_read(&c, "a", ""), Err(ContractError::Unauthorized)));
    assert!(matches!(auth_read(&c, "a", "anything"), Err(ContractError::Unauthorized)));
}

#[test]
fn key_of_another_identity_is_unauthorized() {
    let mut c = deploy(100, "s");
    record(&mut c, "a", "mine");
    let kb = new_key(&mut c, "b", "e", 1);
    assert!(matches!(auth_read(&c, "a", &kb), Err(ContractError::Unauthorized)));
    assert!(auth_read(&c, "b", &kb).is_ok());
}

#[test]
fn regenerated_key_retires_old() {
    let mut c = deploy(100, "s");
    record(&mut c, "a", "mine");
    let k1 = new_key(&mut c, "a", "e", 1);
    assert!(auth_read(&c, "a", &k1).is_ok());
    let k2 = new_key(&mut c, "a", "e", 2);
    assert_ne!(k1, k2);
    assert!(matches!(auth_read(&c, "a", &k1), Err(ContractError::Unauthorized)));
    assert!(auth_read(&c, "a", &k2).is_ok());
}

#[test]
fn key_generation_is_deterministic() {
    let mut c1 = deploy(100, "s");
    let mut c2 = deploy(100, "s");
    let mut c3 = deploy(100, "t");
    let k1 = new_key(&mut c1, "a", "e", 1);
    let k2 = new_key(&mut c2, "a", "e", 1);
    let k3 = new_key(&mut c3, "a", "e", 1);
    let k4 = new_key(&mut c1, "a", "f", 1);
    assert_eq!(k1, k2);
    assert_ne!(k1, k3);
    assert_ne!(k1, k4);
    assert_eq!(k1.len(), 44);
    assert!(k1.ends_with('='));
}

#[test]
fn init_rejects_bad_sizes() {
    for bad in [0, -1, 65536, i32::MIN, i32::MAX] {
        assert!(matches!(
            init(InitMsg { max_size: bad, prng_seed: "s".to_string() }),
            Err(ContractError::InvalidMaxSize)
        ));
    }
    assert!(init(InitMsg { max_size: 1, prng_seed: "s".to_string() }).is_ok());
    assert!(init(InitMsg { max_size: 65535, prng_seed: "s".to_string() }).is_ok());
}

#[test]
fn valid_max_size_bounds() {
    assert_eq!(valid_max_size(0), None);
    assert_eq!(valid_max_size(1), Some(1));
    assert_eq!(valid_max_size(690), Some(690));
    assert_eq!(valid_max_size(65535), Some(65535));
    assert_eq!(valid_max_size(65536), None);
    assert_eq!(valid_max_size(-5), None);
}

#[test]
fn stored_digest_is_sha256() {
    let key = ViewingKey("test".to_string());
    let expected: Vec<u8> = vec![
        159, 134, 208, 129, 136, 76, 125, 101, 154, 47, 234, 160, 197, 90, 208, 21, 163, 191,
        79, 27, 43, 11, 130, 44, 209, 93, 108, 21, 176, 240, 10, 8,
    ];
    assert_eq!(key.to_hashed(), expected);
    assert!(key.check_viewing_key(&expected).equal);
    assert!(!ViewingKey("tesT".to_string()).check_viewing_key(&expected).equal);
}

#[test]
fn key_material_layout() {
    let m = build_key_material(1, 258, b"ab", b"z");
    let expected: Vec<u8> = vec![
        0, 0, 0, 0, 0, 0, 0, 1, 0, 0, 0, 0, 0, 0, 1, 2, 0, 0, 0, 0, 0, 0, 0, 2, b'a', b'b', b'z',
    ];
    assert_eq!(m, expected);
}

#[test]
fn compare_cost_is_uniform() {
    let stored = vec![7u8; VIEWING_KEY_SIZE];
    let decoy = vec![0u8; VIEWING_KEY_SIZE];
    let mut early = stored.clone();
    early[0] = 8;
    let mut late = stored.clone();
    late[VIEWING_KEY_SIZE - 1] = 8;
    let a = ct_slice_compare(&early, &stored);
    let b = ct_slice_compare(&late, &stored);
    let c = ct_slice_compare(&stored, &stored);
    let d = ct_slice_compare(&early, &decoy);
    assert!(!a.equal && !b.equal && c.equal && !d.equal);
    assert_eq!(a.steps, VIEWING_KEY_SIZE);
    assert_eq!(b.steps, VIEWING_KEY_SIZE);
    assert_eq!(c.steps, VIEWING_KEY_SIZE);
    assert_eq!(d.steps, VIEWING_KEY_SIZE);
    assert_eq!(ct_slice_compare(&[1, 2], &[1, 2, 3]).steps, 0);
}

#[test]
fn absent_and_wrong_cost_the_same() {
    let mut c = deploy(100, "s");
    new_key(&mut c, "a", "e", 1);
    let wrong = ViewingKey("wrong".to_string());
    let with_key = authenticate(&c, &vec![b"a".to_vec()], &wrong);
    let without_key = authenticate(&c, &vec![b"nobody".to_vec()], &wrong);
    assert_eq!(with_key, (None, VIEWING_KEY_SIZE));
    assert_eq!(without_key, (None, VIEWING_KEY_SIZE));
}

#[test]
fn gate_stops_at_first_match() {
    let mut c = deploy(100, "s");
    let kb = new_key(&mut c, "b", "e", 1);
    let key = ViewingKey(kb);
    let cands = vec![b"a".to_vec(), b"b".to_vec(), b"c".to_vec()];
    assert_eq!(authenticate(&c, &cands, &key), (Some(1), 2 * VIEWING_KEY_SIZE));
}

#[test]
fn validation_params_of_read() {
    let msg = QueryMsg::Read { address: b"who".to_vec(), key: "k".to_string() };
    let (addresses, key) = msg.get_validation_params();
    assert_eq!(addresses, vec![b"who".to_vec()]);
    assert_eq!(key.0, "k");
}
