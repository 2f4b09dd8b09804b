use lp_bot::logs::{extract_token_id_from_logs, find_token_id, EventLog, TokenIdError, INCREASE_LIQUIDITY_EVENT};

fn event_topic() -> [u8; 32] {
    alloy_primitives::keccak256(INCREASE_LIQUIDITY_EVENT.as_bytes()).0
}

fn id_topic(id: u64) -> [u8; 32] {
    let mut t = [0u8; 32];
    t[24..].copy_from_slice(&id.to_be_bytes());
    t
}

#[test]
fn extract_token_id_reads_first_increase_liquidity_event() {
    let other = [7u8; 32];
    let logs = vec![
        EventLog { topics: vec![other, id_topic(1)] },
        EventLog { topics: vec![] },
        EventLog { topics: vec![event_topic(), id_topic(0x012345)] },
        EventLog { topics: vec![event_topic(), id_topic(99)] },
    ];
    let id = extract_token_id_from_logs(logs).unwrap();
    assert_eq!(id.limbs, [0x012345, 0, 0, 0]);
}

#[test]
fn extract_token_id_hashes_the_signature() {
    let raw: Vec<u8> = INCREASE_LIQUIDITY_EVENT.as_bytes().to_vec();
    let mut not_hashed = [0u8; 32];
    not_hashed.copy_from_slice(&raw[..32]);
    let logs = vec![EventLog { topics: vec![not_hashed, id_topic(5)] }];
    assert_eq!(extract_token_id_from_logs(logs).unwrap_err(), TokenIdError::EventNotFound);
    assert_eq!(
        hex_of(&event_topic()),
        "3067048beee31b25b2f1681f88dac838c8bba36af25bfb2b7cf7473a5847e35f"
    );
}

fn hex_of(b: &[u8]) -> String {
    b.iter().map(|x| format!("{:02x}", x)).collect()
}

#[test]
fn extract_token_id_reads_the_whole_topic() {
    let logs = vec![EventLog { topics: vec![event_topic(), id_topic(16777221)] }];
    assert_eq!(extract_token_id_from_logs(logs).unwrap().limbs, [16777221, 0, 0, 0]);
    let mut topic = [0u8; 32];
    topic[0] = 0x80;
    topic[23] = 1;
    topic[31] = 9;
    let logs = vec![EventLog { topics: vec![event_topic(), topic] }];
    assert_eq!(
        extract_token_id_from_logs(logs).unwrap().limbs,
        [9, 1, 0, 0x8000_0000_0000_0000]
    );
}

#[test]
fn extract_token_id_without_event() {
    let logs = vec![EventLog { topics: vec![[1u8; 32]] }];
    assert_eq!(extract_token_id_from_logs(logs).unwrap_err(), TokenIdError::EventNotFound);
    assert_eq!(extract_token_id_from_logs(vec![]).unwrap_err(), TokenIdError::EventNotFound);
}

#[test]
fn extract_token_id_without_token_topic() {
    let logs = vec![
        EventLog { topics: vec![event_topic()] },
        EventLog { topics: vec![event_topic(), id_topic(3)] },
    ];
    assert_eq!(extract_token_id_from_logs(logs).unwrap_err(), TokenIdError::MissingTokenTopic);
}

#[test]
fn find_token_id_with_given_topic() {
    let sig = [3u8; 32];
    let logs = vec![EventLog { topics: vec![sig, id_topic(0xfffffe)] }];
    assert_eq!(find_token_id(&logs, &sig).unwrap().limbs, [0xfffffe, 0, 0, 0]);
    assert_eq!(find_token_id(&logs, &[4u8; 32]).unwrap_err(), TokenIdError::EventNotFound);
}
