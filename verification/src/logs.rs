use vstd::prelude::*;

use crate::uint256::{from_be_bytes_spec, U256};
use vstd::string::StringSliceAdditionalSpecFns;

verus! {

/// A log of a transaction receipt, reduced to its topics.
pub struct EventLog {
    pub topics: Vec<[u8; 32]>,
}

/// The signature of the position manager's `IncreaseLiquidity` event.
pub const INCREASE_LIQUIDITY_EVENT: &'static str = "IncreaseLiquidity(uint256,uint128,uint256,uint256)";

/// The Keccak-256 digest of `data`, as `alloy_primitives::keccak256` computes it.
pub uninterp spec fn keccak256_digest(data: Seq<u8>) -> Seq<u8>;

/// `alloy_primitives::keccak256`: the 32-byte Keccak-256 digest of `data`.
/// Nothing is claimed of the digest beyond its being determined by `data`.
#[verifier::external_body]
fn keccak256(data: &[u8]) -> (hash: [u8; 32])
    ensures
        hash@ == keccak256_digest(data@),
{
    alloy_primitives::keccak256(data).0
}

/// Whether the first topic of `log` is `signature`.
pub open spec fn is_event(log: EventLog, signature: Seq<u8>) -> bool {
    log.topics@.len() > 0 && log.topics@[0]@ == signature
}

/// `logs[i]` is the first log whose first topic is `signature`.
pub open spec fn is_first_event(logs: Seq<EventLog>, signature: Seq<u8>, i: int) -> bool {
    &&& 0 <= i < logs.len()
    &&& is_event(logs[i], signature)
    &&& forall|j: int| 0 <= j < i ==> !is_event(#[trigger] logs[j], signature)
}

/// The token ID that a topic holds: its 32 bytes read as a big-endian
/// 256-bit number.
pub open spec fn token_id_of_topic(topic: Seq<u8>) -> nat {
    from_be_bytes_spec(topic)@
}

/// Why no token ID could be read from the logs.
#[derive(Clone, Copy, Debug, PartialEq, Eq)]
pub enum TokenIdError {
    /// No log carries the event.
    EventNotFound,
    /// The first log with the event has no second topic.
    MissingTokenTopic,
}

/// Whether two 32-byte words are equal.
fn words_equal(a: &[u8; 32], b: &[u8; 32]) -> (res: bool)
    ensures
        res == (a@ == b@),
{
    let mut i: usize = 0;
    while i < 32
        invariant
            i <= 32,
            forall|k: int| 0 <= k < i ==> a@[k] == b@[k],
        decreases 32 - i,
    {
        if a[i] != b[i] {
            return false;
        }
        i = i + 1;
    }
    assert(a@ =~= b@);
    true
}

/// Finds the token ID in the first log whose first topic is
/// `event_topic`: its second topic, the event's first parameter, read as a
/// big-endian number.
pub fn find_token_id(logs: &Vec<EventLog>, event_topic: &[u8; 32]) -> (res: Result<
    U256,
    TokenIdError,
>)
    ensures
        res matches Ok(id) ==> exists|i: int|
            #[trigger] is_first_event(logs@, event_topic@, i) && logs@[i].topics@.len() >= 2
                && id@ == token_id_of_topic(logs@[i].topics@[1]@),
        res == Err::<U256, TokenIdError>(TokenIdError::EventNotFound) <==> forall|i: int|
            0 <= i < logs@.len() ==> !is_event(#[trigger] logs@[i], event_topic@),
        res == Err::<U256, TokenIdError>(TokenIdError::MissingTokenTopic) <==> exists|i: int|
            #[trigger] is_first_event(logs@, event_topic@, i) && logs@[i].topics@.len() < 2,
{
    let n = logs.len();
    for i in 0..n
        invariant
            n == logs@.len(),
            forall|j: int| 0 <= j < i ==> !is_event(#[trigger] logs@[j], event_topic@),
    {
        let log = &logs[i];
        if log.topics.len() > 0 && words_equal(&log.topics[0], event_topic) {
            assert(is_first_event(logs@, event_topic@, i as int));
            if log.topics.len() < 2 {
                return Err(TokenIdError::MissingTokenTopic);
            }
            let id = U256::from_be_bytes(&log.topics[1]);
            proof {
                assert forall|k: int| #[trigger] is_first_event(logs@, event_topic@, k) implies k
                    == i by {
                    if k < i {
                    } else if k > i {
                        assert(!is_event(logs@[i as int], event_topic@));
                    }
                }
            }
            return Ok(id);
        }
    }
    Err(TokenIdError::EventNotFound)
}

/// The topic that marks an `IncreaseLiquidity` event: the Keccak-256 digest
/// of the event's signature.
pub open spec fn increase_liquidity_topic() -> Seq<u8> {
    keccak256_digest(INCREASE_LIQUIDITY_EVENT.spec_bytes())
}

/// Reads the ID of a newly minted position from the logs of the mint
/// transaction: the first parameter of its first `IncreaseLiquidity` event.
pub fn extract_token_id_from_logs(logs: Vec<EventLog>) -> (res: Result<U256, TokenIdError>)
    ensures
        res matches Ok(id) ==> exists|i: int|
            #[trigger] is_first_event(logs@, increase_liquidity_topic(), i)
                && logs@[i].topics@.len() >= 2 && id@ == token_id_of_topic(
                logs@[i].topics@[1]@,
            ),
        res == Err::<U256, TokenIdError>(TokenIdError::EventNotFound) <==> forall|i: int|
            0 <= i < logs@.len() ==> !is_event(#[trigger] logs@[i], increase_liquidity_topic()),
        res == Err::<U256, TokenIdError>(TokenIdError::MissingTokenTopic) <==> exists|i: int|
            #[trigger] is_first_event(logs@, increase_liquidity_topic(), i)
                && logs@[i].topics@.len() < 2,
{
    let event_sig_hashed = keccak256(INCREASE_LIQUIDITY_EVENT.as_bytes());
    assert(event_sig_hashed@ == increase_liquidity_topic());
    find_token_id(&logs, &event_sig_hashed)
}

} // verus!
