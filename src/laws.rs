//! Properties that hold across calls and of every reachable state.
use vstd::prelude::*;

use crate::error::ProgramError;
use crate::instructions::{
    init_inbox_post, init_profile_post, is_delivery_of, send_bindings_hold, InitInbox,
    InitProfile, SendMessage, SharedEncryptedStruct,
};
use crate::message::{is_sealed_copy, layout, padded, MessageInput, MessageOutput, BODY_LEN,
    PLAINTEXT_LEN, SUBJECT_LEN,
};
use crate::state::{deliver_all, EncryptedMessage, UserProfile, MAX_MESSAGES};

verus! {

/// An inbox never holds more than `MAX_MESSAGES` messages, whatever is
/// delivered to it.
pub proof fn lemma_inbox_count_bounded(live: Seq<EncryptedMessage>, ms: Seq<EncryptedMessage>)
    requires
        live.len() <= MAX_MESSAGES,
    ensures
        deliver_all(live, ms).len() <= MAX_MESSAGES,
    decreases ms.len(),
{
    if ms.len() > 0 {
        lemma_inbox_count_bounded(live, ms.drop_last());
    }
}

/// Deliveries only append: a delivered message keeps its slot and its
/// bytes for good.
pub proof fn lemma_append_only(live: Seq<EncryptedMessage>, ms: Seq<EncryptedMessage>, k: int)
    requires
        0 <= k < live.len(),
    ensures
        deliver_all(live, ms).len() >= live.len(),
        deliver_all(live, ms)[k] == live[k],
    decreases ms.len(),
{
    if ms.len() > 0 {
        lemma_append_only(live, ms.drop_last(), k);
    }
}

/// Delivering `ms` to an empty inbox keeps the first `MAX_MESSAGES` of
/// them, in order, and drops the rest.
pub proof fn lemma_deliver_into_empty(ms: Seq<EncryptedMessage>)
    ensures
        ms.len() <= MAX_MESSAGES ==> deliver_all(Seq::empty(), ms) == ms,
        ms.len() >= MAX_MESSAGES ==> deliver_all(Seq::empty(), ms) == ms.take(
            MAX_MESSAGES as int,
        ),
    decreases ms.len(),
{
    if ms.len() > 0 {
        let prev = ms.drop_last();
        lemma_deliver_into_empty(prev);
        if ms.len() <= MAX_MESSAGES {
            assert(prev.push(ms.last()) =~= ms);
        } else {
            assert(prev.take(MAX_MESSAGES as int) =~= ms.take(MAX_MESSAGES as int));
        }
    }
}

/// Of 101 successful deliveries to an empty inbox, exactly the first 100
/// are kept and the last is lost.
pub proof fn lemma_silent_saturation(ms: Seq<EncryptedMessage>)
    requires
        ms.len() == MAX_MESSAGES + 1,
    ensures
        deliver_all(Seq::empty(), ms) == ms.take(MAX_MESSAGES as int),
        deliver_all(Seq::empty(), ms) == deliver_all(Seq::empty(), ms.drop_last()),
{
    lemma_deliver_into_empty(ms);
    lemma_deliver_into_empty(ms.drop_last());
    assert(ms.drop_last() =~= ms.take(MAX_MESSAGES as int));
}

/// Once a profile was created, creating it again fails and leaves the first
/// profile as it was.
pub proof fn lemma_init_profile_twice(
    c0: InitProfile,
    c1: InitProfile,
    c2: InitProfile,
    name1: String,
    key1: [u8; 32],
    stake1: u64,
    r1: Result<(), ProgramError>,
    name2: String,
    key2: [u8; 32],
    stake2: u64,
    r2: Result<(), ProgramError>,
)
    requires
        init_profile_post(c0, c1, name1, key1, stake1, r1),
        init_profile_post(c1, c2, name2, key2, stake2, r2),
        r1 is Ok,
    ensures
        r2 == Err::<(), ProgramError>(ProgramError::AccountAlreadyInUse),
        c2 == c1,
        c2.user_profile == Some(
            UserProfile { sol_name: name1, arcium_pubkey: key1, spam_stake_amount: stake1, owner: c0.user },
        ),
{
}

/// Once an inbox was created, creating it again fails and leaves the first
/// inbox as it was.
pub proof fn lemma_init_inbox_twice(
    c0: InitInbox,
    c1: InitInbox,
    c2: InitInbox,
    r1: Result<(), ProgramError>,
    r2: Result<(), ProgramError>,
)
    requires
        init_inbox_post(c0, c1, r1),
        init_inbox_post(c1, c2, r2),
        r1 is Ok,
    ensures
        r2 == Err::<(), ProgramError>(ProgramError::AccountAlreadyInUse),
        c2 == c1,
{
}

/// A message delivered for an accepted send names as sender the owner of
/// the sender profile the send referenced, who is the payer that signed it.
pub proof fn lemma_sender_is_bound(
    send: SendMessage,
    callback_sender: UserProfile,
    sealed: SharedEncryptedStruct,
    unix_timestamp: i64,
    m: EncryptedMessage,
)
    requires
        send_bindings_hold(send),
        callback_sender == send.sender_profile,
        is_delivery_of(m, sealed, callback_sender.owner, unix_timestamp),
    ensures
        m.sender == send.sender_profile.owner,
        m.sender == send.payer,
{
}

/// The plaintext side of sealing round-trips: the layout of what is sealed
/// for the recipient is the layout the sender encrypted, and a subject and
/// body that fit their fields are read back from it ahead of their padding.
pub proof fn lemma_plaintext_round_trip(
    subject: Seq<u8>,
    body: Seq<u8>,
    input: MessageInput,
    output: MessageOutput,
)
    requires
        subject.len() <= SUBJECT_LEN,
        body.len() <= BODY_LEN,
        input.subject@ == padded(subject, SUBJECT_LEN as nat),
        input.body@ == padded(body, BODY_LEN as nat),
        is_sealed_copy(input, output),
    ensures
        layout(output.subject@, output.body@) == layout(input.subject@, input.body@),
        layout(output.subject@, output.body@).len() == PLAINTEXT_LEN,
        layout(output.subject@, output.body@).subrange(0, subject.len() as int) == subject,
        layout(output.subject@, output.body@).subrange(
            SUBJECT_LEN as int,
            SUBJECT_LEN + body.len(),
        ) == body,
{
    let p = layout(output.subject@, output.body@);
    assert(p.subrange(0, subject.len() as int) =~= subject);
    assert(p.subrange(SUBJECT_LEN as int, SUBJECT_LEN + body.len()) =~= body);
}

} // verus!
