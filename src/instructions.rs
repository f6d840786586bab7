use vstd::prelude::*;
use vstd::slice::slice_to_vec;
use vstd::utf8::encode_utf8;

use crate::bytes::{le_bytes, u128_to_le_bytes};
use crate::error::{ErrorCode, ProgramError};
use crate::state::{
    deliver, Address, EncryptedMessage, Inbox, UserProfile, MAX_MESSAGES, MAX_NAME_LEN,
};

verus! {

/// The registration offset of a computation, as a function of its name.
pub uninterp spec fn comp_def_offset_of(name: Seq<char>) -> u32;

/// Relies on arcium_anchor::comp_def_offset: the offset under which a
/// computation definition is registered, a hash of the computation's name.
#[verifier::external_body]
fn comp_def_offset(name: &str) -> (r: u32)
    ensures
        r == comp_def_offset_of(name@),
{
    arcium_anchor::comp_def_offset(name)
}

// ---------------------------------------------------------------- profiles

/// The accounts of `init_profile`: the slot at the user's profile address
/// (`None` while unallocated) and the signing user.
#[derive(Clone, Debug)]
pub struct InitProfile {
    pub user_profile: Option<UserProfile>,
    pub user: Address,
}

/// Outcome of `init_profile` on a slot, for a name of `name_len` bytes.
pub open spec fn init_profile_result(slot: Option<UserProfile>, name_len: nat) -> Result<(), ProgramError> {
    if slot is Some {
        Err(ProgramError::AccountAlreadyInUse)
    } else if name_len > MAX_NAME_LEN {
        Err(ProgramError::AccountDidNotSerialize)
    } else {
        Ok(())
    }
}

/// `init_profile` took `before` to `after` with result `r`.
pub open spec fn init_profile_post(
    before: InitProfile,
    after: InitProfile,
    sol_name: String,
    arcium_pubkey: [u8; 32],
    spam_stake_amount: u64,
    r: Result<(), ProgramError>,
) -> bool {
    &&& r == init_profile_result(before.user_profile, encode_utf8(sol_name@).len())
    &&& r is Err ==> after == before
    &&& r is Ok ==> after == (InitProfile {
        user_profile: Some(
            UserProfile { sol_name, arcium_pubkey, spam_stake_amount, owner: before.user },
        ),
        user: before.user,
    })
}

/// Creates the caller's profile. Fails when the profile already exists or
/// when `sol_name` is longer than `MAX_NAME_LEN` bytes; nothing changes then.
pub fn init_profile(
    ctx: &mut InitProfile,
    sol_name: String,
    arcium_pubkey: [u8; 32],
    spam_stake_amount: u64,
) -> (r: Result<(), ProgramError>)
    ensures
        init_profile_post(*old(ctx), *final(ctx), sol_name, arcium_pubkey, spam_stake_amount, r),
{
    if ctx.user_profile.is_some() {
        return Err(ProgramError::AccountAlreadyInUse);
    }
    if sol_name.as_str().as_bytes().len() > MAX_NAME_LEN {
        return Err(ProgramError::AccountDidNotSerialize);
    }
    let owner = ctx.user;
    ctx.user_profile = Some(UserProfile { sol_name, arcium_pubkey, spam_stake_amount, owner });
    Ok(())
}

// ----------------------------------------------------------------- inboxes

/// The accounts of `init_inbox`: the slot at the user's inbox address
/// (`None` while unallocated) and the signing user.
#[derive(Clone, Debug)]
pub struct InitInbox {
    pub inbox: Option<Inbox>,
    pub user: Address,
}

/// `init_inbox` took `before` to `after` with result `r`.
pub open spec fn init_inbox_post(before: InitInbox, after: InitInbox, r: Result<(), ProgramError>) -> bool {
    &&& r is Err <==> before.inbox is Some
    &&& r is Err ==> r == Err::<(), ProgramError>(ProgramError::AccountAlreadyInUse) && after == before
    &&& r is Ok ==> {
        &&& after.user == before.user
        &&& after.inbox matches Some(i) && {
            &&& i.wf()
            &&& i.message_count == 0
            &&& i.owner == before.user
            &&& forall|k: int| 0 <= k < MAX_MESSAGES ==> (#[trigger] i.messages@[k]).is_zeroed()
        }
    }
}

/// Creates the caller's empty inbox. Fails when it already exists; nothing
/// changes then.
pub fn init_inbox(ctx: &mut InitInbox) -> (r: Result<(), ProgramError>)
    ensures
        init_inbox_post(*old(ctx), *final(ctx), r),
{
    if ctx.inbox.is_some() {
        return Err(ProgramError::AccountAlreadyInUse);
    }
    ctx.inbox = Some(Inbox::empty(ctx.user));
    Ok(())
}

// ---------------------------------------------------------------- sending

/// Holds the bump of the program's signer address.
#[derive(Clone, Copy, Debug)]
pub struct SignerAccount {
    pub bump: u8,
}

/// The accounts of `send_message` that the program reads or writes, with
/// the addresses it hands to the callback.
#[derive(Clone, Debug)]
pub struct SendMessage {
    pub payer: Address,
    pub sender_profile_key: Address,
    pub sender_profile: UserProfile,
    pub recipient_inbox_key: Address,
    pub recipient_inbox: Inbox,
    pub recipient_profile: UserProfile,
    pub sign_pda_account: SignerAccount,
    /// The canonical bump of the signer address.
    pub sign_pda_bump: u8,
}

/// An argument of a computation, in the order the circuit declares them.
#[derive(Clone, Debug)]
pub enum Argument {
    PlaintextU128(u128),
    EncryptedBytes(Vec<u8>),
    ArcisPubkey([u8; 32]),
}

/// An account the callback is invoked with.
#[derive(Clone, Copy, Debug)]
pub struct CallbackAccount {
    pub pubkey: Address,
    pub is_writable: bool,
}

/// A sealing request, ready to be queued with the computation cluster.
#[derive(Clone, Debug)]
pub struct QueuedComputation {
    /// Which registered computation runs.
    pub comp_def_offset: u32,
    /// Names the pending computation; chosen by the sender.
    pub computation_offset: u64,
    pub args: Vec<Argument>,
    /// The accounts bound to the callback, in order.
    pub callback_accounts: Vec<CallbackAccount>,
}

/// The sender's profile belongs to the payer, and the recipient's inbox to
/// the recipient's profile owner: the accounts sit at the addresses derived
/// from those identities.
pub open spec fn send_bindings_hold(ctx: SendMessage) -> bool {
    &&& ctx.sender_profile.owner == ctx.payer
    &&& ctx.recipient_inbox.owner == ctx.recipient_profile.owner
}

/// Whether two addresses are equal.
fn same_address(a: &Address, b: &Address) -> (r: bool)
    ensures
        r == (*a == *b),
{
    let mut i: usize = 0;
    while i < 32
        invariant
            i <= 32,
            forall|j: int| 0 <= j < i ==> a[j] == b[j],
        decreases 32 - i,
    {
        if a[i] != b[i] {
            return false;
        }
        i = i + 1;
    }
    assert(*a =~= *b);
    true
}

/// Checks the address bindings of a send, records the signer bump and
/// builds the sealing request: the nonce, the enclave ciphertext and the
/// recipient key as arguments, and the recipient inbox (writable) then the
/// sender profile (read-only) as callback accounts. Nothing else changes.
/// Whether `recipient_arcium_pubkey` is the recipient profile's key is not
/// checked.
pub fn send_message(
    ctx: &mut SendMessage,
    computation_offset: u64,
    encrypted_message_input: Vec<u8>,
    recipient_arcium_pubkey: [u8; 32],
    nonce: u128,
) -> (r: Result<QueuedComputation, ProgramError>)
    ensures
        r is Ok <==> send_bindings_hold(*old(ctx)),
        r is Err ==> r == Err::<QueuedComputation, ProgramError>(ProgramError::ConstraintSeeds)
            && *final(ctx) == *old(ctx),
        r matches Ok(q) ==> {
            &&& q.comp_def_offset == comp_def_offset_of("seal_message_for_recipient"@)
            &&& q.computation_offset == computation_offset
            &&& q.args@ == seq![
                Argument::PlaintextU128(nonce),
                Argument::EncryptedBytes(encrypted_message_input),
                Argument::ArcisPubkey(recipient_arcium_pubkey),
            ]
            &&& q.callback_accounts@ == seq![
                (CallbackAccount { pubkey: old(ctx).recipient_inbox_key, is_writable: true }),
                (CallbackAccount { pubkey: old(ctx).sender_profile_key, is_writable: false }),
            ]
            &&& *final(ctx) == (SendMessage {
                sign_pda_account: SignerAccount { bump: old(ctx).sign_pda_bump },
                ..*old(ctx)
            })
        },
{
    if !same_address(&ctx.sender_profile.owner, &ctx.payer) || !same_address(
        &ctx.recipient_inbox.owner,
        &ctx.recipient_profile.owner,
    ) {
        return Err(ProgramError::ConstraintSeeds);
    }
    let args = vec![
        Argument::PlaintextU128(nonce),
        Argument::EncryptedBytes(encrypted_message_input),
        Argument::ArcisPubkey(recipient_arcium_pubkey),
    ];
    ctx.sign_pda_account.bump = ctx.sign_pda_bump;
    let callback_accounts = vec![
        CallbackAccount { pubkey: ctx.recipient_inbox_key, is_writable: true },
        CallbackAccount { pubkey: ctx.sender_profile_key, is_writable: false },
    ];
    Ok(
        QueuedComputation {
            comp_def_offset: comp_def_offset("seal_message_for_recipient"),
            computation_offset,
            args,
            callback_accounts,
        },
    )
}

// ---------------------------------------------------------------- callback

/// A value sealed for a shared key: the key, the nonce and the ciphertext
/// chunks.
#[derive(Clone, Copy, Debug)]
pub struct SharedEncryptedStruct {
    pub encryption_key: [u8; 32],
    pub nonce: u128,
    pub ciphertexts: [[u8; 32]; 1],
}

/// What the sealing computation returns.
#[derive(Clone, Copy, Debug)]
pub struct SealMessageForRecipientOutput {
    pub field_0: SharedEncryptedStruct,
}

/// How a computation ended.
#[derive(Clone, Copy, Debug)]
pub enum ComputationOutputs<O> {
    Success(O),
    Failure,
}

/// The accounts bound to the callback at submission.
#[derive(Clone, Debug)]
pub struct SendMessageCallback {
    pub recipient_inbox: Inbox,
    pub sender_profile: UserProfile,
}

/// `m` is the message built from a sealed result, its sender and the
/// ledger time.
pub open spec fn is_delivery_of(
    m: EncryptedMessage,
    sealed: SharedEncryptedStruct,
    sender: Address,
    unix_timestamp: i64,
) -> bool {
    &&& m.ciphertext == sealed.ciphertexts[0]
    &&& m.nonce@ == le_bytes(sealed.nonce as nat, 16)
    &&& m.sender == sender
    &&& m.timestamp == unix_timestamp
}

/// Builds the stored form of a sealed result.
pub fn new_message(sealed: &SharedEncryptedStruct, sender: Address, unix_timestamp: i64) -> (r:
    EncryptedMessage)
    ensures
        is_delivery_of(r, *sealed, sender, unix_timestamp),
{
    EncryptedMessage {
        ciphertext: sealed.ciphertexts[0],
        nonce: u128_to_le_bytes(sealed.nonce),
        sender,
        timestamp: unix_timestamp,
    }
}

/// Delivers the outcome of a sealing computation. A failed computation
/// leaves everything unchanged and reports `AbortedComputation`. A
/// successful one is stored in the next free slot with the sender profile's
/// owner as sender and `unix_timestamp` as time; when the inbox is full it is
/// dropped and the call still succeeds.
pub fn send_message_callback(
    ctx: &mut SendMessageCallback,
    output: ComputationOutputs<SealMessageForRecipientOutput>,
    unix_timestamp: i64,
) -> (r: Result<(), ProgramError>)
    requires
        old(ctx).recipient_inbox.wf(),
    ensures
        final(ctx).recipient_inbox.wf(),
        final(ctx).sender_profile == old(ctx).sender_profile,
        final(ctx).recipient_inbox.owner == old(ctx).recipient_inbox.owner,
        output is Failure ==> r == Err::<(), ProgramError>(
            ProgramError::Custom(ErrorCode::AbortedComputation),
        ) && *final(ctx) == *old(ctx),
        output matches ComputationOutputs::Success(o) ==> {
            let before = old(ctx).recipient_inbox;
            let after = final(ctx).recipient_inbox;
            let c = before.message_count as int;
            &&& r is Ok
            &&& c < MAX_MESSAGES ==> {
                &&& after.message_count == c + 1
                &&& after.messages@ == before.messages@.update(c, after.messages@[c])
                &&& is_delivery_of(
                    after.messages@[c],
                    o.field_0,
                    old(ctx).sender_profile.owner,
                    unix_timestamp,
                )
            }
            &&& c >= MAX_MESSAGES ==> after == before
            &&& exists|m: EncryptedMessage|
                is_delivery_of(m, o.field_0, old(ctx).sender_profile.owner, unix_timestamp)
                    && #[trigger] after.live() == deliver(before.live(), m)
        },
{
    let result = match output {
        ComputationOutputs::Success(SealMessageForRecipientOutput { field_0 }) => field_0,
        ComputationOutputs::Failure => {
            return Err(ProgramError::Custom(ErrorCode::AbortedComputation));
        },
    };
    let m = new_message(&result, ctx.sender_profile.owner, unix_timestamp);
    let ghost before = ctx.recipient_inbox;
    let count = ctx.recipient_inbox.message_count;
    if (count as usize) < MAX_MESSAGES {
        ctx.recipient_inbox.messages.set(count as usize, m);
        ctx.recipient_inbox.message_count = count + 1;
        assert(ctx.recipient_inbox.live() =~= before.live().push(m));
    }
    assert(ctx.recipient_inbox.live() == deliver(before.live(), m));
    Ok(())
}

// -------------------------------------------------------------- delegation

/// The accounts of `delegate_inbox`: the signing payer and any accounts
/// passed after the named ones.
#[derive(Clone, Debug)]
pub struct DelegateInput {
    pub payer: Address,
    pub remaining_accounts: Vec<Address>,
}

/// A hand-off of an inbox account to the secondary execution lane.
#[derive(Clone, Debug)]
pub struct DelegateRequest {
    /// The seeds of the delegated account's address.
    pub pda_seeds: Vec<Vec<u8>>,
    /// The validator to delegate to; `None` keeps the lane's default.
    pub validator: Option<Address>,
}

/// The seed of inbox addresses: the bytes of `"inbox"`.
pub open spec fn inbox_seed() -> Seq<u8> {
    seq![105u8, 110u8, 98u8, 111u8, 120u8]
}

/// The seeds of the inbox address of `owner`.
pub fn inbox_seeds(owner: &Address) -> (r: Vec<Vec<u8>>)
    ensures
        r@.len() == 2,
        r@[0]@ == inbox_seed(),
        r@[1]@ == owner@,
{
    let seed: Vec<u8> = vec![105u8, 110u8, 98u8, 111u8, 120u8];
    let key: Vec<u8> = slice_to_vec(owner.as_slice());
    assert(seed@ =~= inbox_seed());
    vec![seed, key]
}

/// Hands the payer's inbox to the secondary execution lane: the account is
/// named by the payer's inbox seeds, and the first remaining account, if
/// any, is the validator.
pub fn delegate_inbox(ctx: &DelegateInput) -> (r: DelegateRequest)
    ensures
        r.pda_seeds@.len() == 2,
        r.pda_seeds@[0]@ == inbox_seed(),
        r.pda_seeds@[1]@ == ctx.payer@,
        r.validator == (if ctx.remaining_accounts@.len() > 0 {
            Some(ctx.remaining_accounts@[0])
        } else {
            None
        }),
{
    let validator = if ctx.remaining_accounts.len() > 0 {
        Some(ctx.remaining_accounts[0])
    } else {
        None
    };
    DelegateRequest { pda_seeds: inbox_seeds(&ctx.payer), validator }
}

} // verus!
