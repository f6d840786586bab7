use vstd::prelude::*;

use crate::bytes::{le_bytes, lemma_le_bytes_len, push_all, push_le_bytes};

verus! {

/// Number of message slots in every inbox.
pub const MAX_MESSAGES: usize = 100;

/// Largest `sol_name`, in bytes, that a profile account has room for.
pub const MAX_NAME_LEN: usize = 200;

/// Size of a stored message, in bytes.
pub const ENCRYPTED_MESSAGE_LEN: usize = 88;

/// A 32-byte ledger identity or account address.
pub type Address = [u8; 32];

/// A message sealed for its recipient, as stored in an inbox slot.
#[derive(Clone, Copy, Debug)]
pub struct EncryptedMessage {
    pub ciphertext: [u8; 32],
    pub nonce: [u8; 16],
    pub sender: Address,
    pub timestamp: i64,
}

impl EncryptedMessage {
    /// True when every byte and the timestamp are zero.
    pub open spec fn is_zeroed(&self) -> bool {
        &&& forall|i: int| 0 <= i < 32 ==> self.ciphertext[i] == 0u8
        &&& forall|i: int| 0 <= i < 16 ==> self.nonce[i] == 0u8
        &&& forall|i: int| 0 <= i < 32 ==> self.sender[i] == 0u8
        &&& self.timestamp == 0
    }

    /// The stored layout: ciphertext, nonce, sender, then the timestamp as
    /// eight little-endian two's-complement bytes.
    pub open spec fn layout(&self) -> Seq<u8> {
        self.ciphertext@.add(self.nonce@).add(self.sender@).add(
            le_bytes((self.timestamp as u64) as nat, 8),
        )
    }

    /// The stored layout of this message, `ENCRYPTED_MESSAGE_LEN` bytes.
    pub fn to_bytes(&self) -> (r: Vec<u8>)
        ensures
            r@ == self.layout(),
            r@.len() == ENCRYPTED_MESSAGE_LEN,
    {
        let mut r: Vec<u8> = Vec::new();
        push_all(&mut r, self.ciphertext.as_slice());
        push_all(&mut r, self.nonce.as_slice());
        push_all(&mut r, self.sender.as_slice());
        push_le_bytes(&mut r, (self.timestamp as u64) as u128, 8);
        proof {
            lemma_le_bytes_len((self.timestamp as u64) as nat, 8);
        }
        r
    }

    /// An unused slot.
    pub fn zeroed() -> (r: EncryptedMessage)
        ensures
            r.is_zeroed(),
    {
        EncryptedMessage { ciphertext: [0u8; 32], nonce: [0u8; 16], sender: [0u8; 32], timestamp: 0 }
    }
}

/// A user's public profile.
#[derive(Clone, Debug)]
pub struct UserProfile {
    pub sol_name: String,
    pub arcium_pubkey: [u8; 32],
    pub spam_stake_amount: u64,
    pub owner: Address,
}

/// A user's bounded, append-only inbox.
#[derive(Clone, Debug)]
pub struct Inbox {
    pub messages: Vec<EncryptedMessage>,
    pub message_count: u64,
    pub owner: Address,
}

impl Inbox {
    /// All slots are present and the count stays within them.
    pub open spec fn wf(&self) -> bool {
        &&& self.messages@.len() == MAX_MESSAGES
        &&& self.message_count <= MAX_MESSAGES
    }

    /// The delivered messages, oldest first.
    pub open spec fn live(&self) -> Seq<EncryptedMessage> {
        self.messages@.take(self.message_count as int)
    }

    /// An empty inbox owned by `owner`, with every slot zeroed.
    pub fn empty(owner: Address) -> (r: Inbox)
        ensures
            r.wf(),
            r.message_count == 0,
            r.owner == owner,
            r.live() == Seq::<EncryptedMessage>::empty(),
            forall|i: int| 0 <= i < MAX_MESSAGES ==> (#[trigger] r.messages@[i]).is_zeroed(),
    {
        let mut messages: Vec<EncryptedMessage> = Vec::new();
        let mut i: usize = 0;
        while i < MAX_MESSAGES
            invariant
                i <= MAX_MESSAGES,
                messages@.len() == i,
                forall|j: int| 0 <= j < i ==> (#[trigger] messages@[j]).is_zeroed(),
            decreases MAX_MESSAGES - i,
        {
            messages.push(EncryptedMessage::zeroed());
            i = i + 1;
        }
        let r = Inbox { messages, message_count: 0, owner };
        assert(r.live() =~= Seq::<EncryptedMessage>::empty());
        r
    }
}

/// The live messages after one delivery: appended while there is room,
/// dropped once the inbox is full.
pub open spec fn deliver(live: Seq<EncryptedMessage>, m: EncryptedMessage) -> Seq<EncryptedMessage> {
    if live.len() < MAX_MESSAGES {
        live.push(m)
    } else {
        live
    }
}

/// The live messages after delivering each of `ms` in turn.
pub open spec fn deliver_all(live: Seq<EncryptedMessage>, ms: Seq<EncryptedMessage>) -> Seq<
    EncryptedMessage,
>
    decreases ms.len(),
{
    if ms.len() == 0 {
        live
    } else {
        deliver(deliver_all(live, ms.drop_last()), ms.last())
    }
}

} // verus!
