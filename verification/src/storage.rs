//! The streams and nonces that the contract keeps in persistent storage.
use vstd::prelude::*;

use crate::error::ContractError;

verus! {

/// An account or a contract, identified by its strkey.
#[derive(Debug)]
pub struct Address {
    pub strkey: String,
}

impl View for Address {
    type V = Seq<char>;

    open spec fn view(&self) -> Seq<char> {
        self.strkey@
    }
}

/// A stored stream, as far as delegation depends on it.
#[derive(Debug)]
pub struct Stream {
    pub stream_id: u64,
    pub recipient: Address,
}

/// The nonce that was stored for a recipient.
struct DelegatedNonce {
    recipient: Address,
    nonce: u64,
}

/// What is stored: the recipient of each stream, and the nonces of the recipients that have one.
#[verifier::ext_equal]
pub struct StorageView {
    pub streams: Map<u64, Seq<char>>,
    pub nonces: Map<Seq<char>, u64>,
}

impl StorageView {
    /// The nonce that a recipient's next delegated withdrawal has to carry. It starts at zero.
    pub open spec fn current_nonce(self, recipient: Seq<char>) -> u64 {
        if self.nonces.contains_key(recipient) {
            self.nonces[recipient]
        } else {
            0
        }
    }
}

/// The recipients that a sequence of stored streams leaves: the last one of each id counts.
spec fn stream_map(streams: Seq<Stream>) -> Map<u64, Seq<char>>
    decreases streams.len(),
{
    if streams.len() == 0 {
        Map::empty()
    } else {
        stream_map(streams.drop_last()).insert(streams.last().stream_id, streams.last().recipient@)
    }
}

/// The nonces that a sequence of stored nonces leaves: the last one of each recipient counts.
spec fn nonce_map(nonces: Seq<DelegatedNonce>) -> Map<Seq<char>, u64>
    decreases nonces.len(),
{
    if nonces.len() == 0 {
        Map::empty()
    } else {
        nonce_map(nonces.drop_last()).insert(nonces.last().recipient@, nonces.last().nonce)
    }
}

/// The contract's persistent storage. A later entry under a key replaces the earlier ones.
pub struct ContractStorage {
    streams: Vec<Stream>,
    nonces: Vec<DelegatedNonce>,
}

impl View for ContractStorage {
    type V = StorageView;

    closed spec fn view(&self) -> StorageView {
        StorageView { streams: stream_map(self.streams@), nonces: nonce_map(self.nonces@) }
    }
}

impl ContractStorage {
    /// Storage without any entry.
    pub fn new() -> (storage: Self)
        ensures
            storage@.streams == Map::<u64, Seq<char>>::empty(),
            storage@.nonces == Map::<Seq<char>, u64>::empty(),
    {
        ContractStorage { streams: Vec::new(), nonces: Vec::new() }
    }

    /// Stores `stream` under its id.
    pub fn save_stream(&mut self, stream: Stream)
        ensures
            final(self)@ == (StorageView {
                streams: old(self)@.streams.insert(stream.stream_id, stream.recipient.strkey@),
                ..old(self)@
            }),
    {
        self.streams.push(stream);
        proof {
            assert(self.streams@.drop_last() =~= old(self).streams@);
        }
    }

    /// Stores `nonce` as the current nonce of `recipient`.
    pub fn save_delegated_nonce(&mut self, recipient: Address, nonce: u64)
        ensures
            final(self)@ == (StorageView {
                nonces: old(self)@.nonces.insert(recipient.strkey@, nonce),
                ..old(self)@
            }),
    {
        self.nonces.push(DelegatedNonce { recipient, nonce });
        proof {
            assert(self.nonces@.drop_last() =~= old(self).nonces@);
        }
    }

    /// Returns the stream stored under `stream_id`, or `StreamNotFound` if there is none.
    pub fn load_stream(&self, stream_id: u64) -> (found: Result<&Stream, ContractError>)
        ensures
            found is Ok <==> self@.streams.contains_key(stream_id),
            found matches Ok(stream) ==> {
                &&& stream.stream_id == stream_id
                &&& stream.recipient.strkey@ == self@.streams[stream_id]
            },
            found matches Err(error) ==> error == ContractError::StreamNotFound,
    {
        let mut end: usize = self.streams.len();
        proof {
            assert(self.streams@.take(end as int) =~= self.streams@);
        }
        while end > 0
            invariant
                end <= self.streams@.len(),
                stream_map(self.streams@.take(end as int)).contains_key(stream_id)
                    == self@.streams.contains_key(stream_id),
                stream_map(self.streams@.take(end as int)).contains_key(stream_id) ==> stream_map(
                    self.streams@.take(end as int),
                )[stream_id] == self@.streams[stream_id],
            decreases end,
        {
            proof {
                assert(self.streams@.take(end as int).drop_last() =~= self.streams@.take(end - 1));
            }
            end = end - 1;
            if self.streams[end].stream_id == stream_id {
                return Ok(&self.streams[end]);
            }
        }
        Err(ContractError::StreamNotFound)
    }

    /// Returns the current nonce of `recipient`, which is zero until one is stored.
    pub fn load_delegated_nonce(&self, recipient: &Address) -> (nonce: u64)
        ensures
            nonce == self@.current_nonce(recipient.strkey@),
            self@.nonces.contains_key(recipient.strkey@) ==> nonce
                == self@.nonces[recipient.strkey@],
            !self@.nonces.contains_key(recipient.strkey@) ==> nonce == 0,
    {
        let mut end: usize = self.nonces.len();
        proof {
            assert(self.nonces@.take(end as int) =~= self.nonces@);
        }
        while end > 0
            invariant
                end <= self.nonces@.len(),
                nonce_map(self.nonces@.take(end as int)).contains_key(recipient@)
                    == self@.nonces.contains_key(recipient@),
                nonce_map(self.nonces@.take(end as int)).contains_key(recipient@) ==> nonce_map(
                    self.nonces@.take(end as int),
                )[recipient@] == self@.nonces[recipient@],
            decreases end,
        {
            proof {
                assert(self.nonces@.take(end as int).drop_last() =~= self.nonces@.take(end - 1));
            }
            end = end - 1;
            if self.nonces[end].recipient.strkey == recipient.strkey {
                return self.nonces[end].nonce;
            }
        }
        0
    }
}

} // verus!
