use blockend::error::{ErrorCode, ProgramError};
use blockend::instructions::{
    delegate_inbox, init_inbox, init_profile, send_message, send_message_callback, Argument,
    ComputationOutputs, DelegateInput, InitInbox, InitProfile, SealMessageForRecipientOutput,
    SendMessage, SendMessageCallback, SharedEncryptedStruct, SignerAccount,
};
use blockend::message::{seal_message_for_recipient, MessageInput, MessageOutput};
use blockend::state::{Inbox, UserProfile, MAX_MESSAGES};

const ALICE: [u8; 32] = [0xA1; 32];
const BOB: [u8; 32] = [0xB0; 32];
const CAROL: [u8; 32] = [0xC4; 32];

fn profile(name: &str, key: u8, owner: [u8; 32]) -> UserProfile {
    let mut ctx = InitProfile { user_profile: None, user: owner };
    init_profile(&mut ctx, name.to_string(), [key; 32], 0).unwrap();
    ctx.user_profile.unwrap()
}

fn inbox(owner: [u8; 32]) -> Inbox {
    let mut ctx = InitInbox { inbox: None, user: owner };
    init_inbox(&mut ctx).unwrap();
    ctx.inbox.unwrap()
}

fn success(ciphertext: [u8; 32], nonce: u128) -> ComputationOutputs<SealMessageForRecipientOutput> {
    ComputationOutputs::Success(SealMessageForRecipientOutput {
        field_0: SharedEncryptedStruct {
            encryption_key: [7; 32],
            nonce,
            ciphertexts: [ciphertext],
        },
    })
}

fn send_ctx(sender: &UserProfile, recipient: &UserProfile, recipient_inbox: &Inbox) -> SendMessage {
    SendMessage {
        payer: sender.owner,
        sender_profile_key: [0x51; 32],
        sender_profile: sender.clone(),
        recipient_inbox_key: [0x52; 32],
        recipient_inbox: recipient_inbox.clone(),
        recipient_profile: recipient.clone(),
        sign_pda_account: SignerAccount { bump: 0 },
        sign_pda_bump: 254,
    }
}

#[test]
fn alice_sends_hi_to_bob() {
    let alice = profile("alice", 0x11, ALICE);
    let bob = profile("bob", 0x22, BOB);
    assert_eq!(alice.arcium_pubkey, [0x11; 32]);
    assert_eq!(bob.sol_name, "bob");
    let bob_inbox = inbox(BOB);

    let input = MessageInput::new(b"hi", b"test").unwrap();
    let mut ctx = send_ctx(&alice, &bob, &bob_inbox);
    let q = send_message(&mut ctx, 1, input.to_bytes(), bob.arcium_pubkey, 1).unwrap();
    assert_eq!(ctx.sign_pda_account.bump, 254);
    assert_eq!(q.computation_offset, 1);
    assert_eq!(q.args.len(), 3);
    assert!(matches!(q.args[0], Argument::PlaintextU128(1)));
    match &q.args[1] {
        Argument::EncryptedBytes(b) => assert_eq!(b, &input.to_bytes()),
        _ => panic!("second argument is not the ciphertext"),
    }
    assert!(matches!(q.args[2], Argument::ArcisPubkey(k) if k == [0x22; 32]));
    assert_eq!(q.callback_accounts.len(), 2);
    assert_eq!(q.callback_accounts[0].pubkey, [0x52; 32]);
    assert!(q.callback_accounts[0].is_writable);
    assert_eq!(q.callback_accounts[1].pubkey, [0x51; 32]);
    assert!(!q.callback_accounts[1].is_writable);

    // What the cluster computes on the plaintext.
    let sealed: MessageOutput = seal_message_for_recipient(input);
    let plain = sealed.to_bytes();
    assert_eq!(plain.len(), 320);
    assert_eq!(&plain[..2], b"hi");
    assert!(plain[2..64].iter().all(|b| *b == 0));
    assert_eq!(&plain[64..68], b"test");
    assert!(plain[68..].iter().all(|b| *b == 0));

    let mut cb = SendMessageCallback { recipient_inbox: ctx.recipient_inbox, sender_profile: alice };
    let out_nonce: u128 = 0x0102_0304_0506_0708_090a_0b0c_0d0e_0f10;
    send_message_callback(&mut cb, success([9; 32], out_nonce), 1_700_000_000).unwrap();
    let m = cb.recipient_inbox.messages[0];
    assert_eq!(cb.recipient_inbox.message_count, 1);
    assert_eq!(m.sender, ALICE);
    assert_eq!(m.nonce, out_nonce.to_le_bytes());
    assert_eq!(m.ciphertext, [9; 32]);
    assert_eq!(m.timestamp, 1_700_000_000);
}

#[test]
fn hundred_messages_fill_the_inbox_and_the_next_is_dropped() {
    let alice = profile("alice", 0x11, ALICE);
    let mut cb = SendMessageCallback { recipient_inbox: inbox(BOB), sender_profile: alice };
    for i in 0..100u8 {
        assert_eq!(send_message_callback(&mut cb, success([i; 32], i as u128), i as i64), Ok(()));
    }
    assert_eq!(cb.recipient_inbox.message_count, 100);
    for i in 0..100usize {
        assert_eq!(cb.recipient_inbox.messages[i].ciphertext, [i as u8; 32]);
        assert_eq!(cb.recipient_inbox.messages[i].timestamp, i as i64);
    }
    let before: Vec<[u8; 32]> = cb.recipient_inbox.messages.iter().map(|m| m.ciphertext).collect();
    assert_eq!(send_message_callback(&mut cb, success([0xFF; 32], 100), 100), Ok(()));
    assert_eq!(cb.recipient_inbox.message_count, MAX_MESSAGES as u64);
    let after: Vec<[u8; 32]> = cb.recipient_inbox.messages.iter().map(|m| m.ciphertext).collect();
    assert_eq!(before, after);
}

#[test]
fn failed_computation_aborts_and_leaves_inbox() {
    let alice = profile("alice", 0x11, ALICE);
    let mut cb = SendMessageCallback { recipient_inbox: inbox(BOB), sender_profile: alice };
    let r = send_message_callback(&mut cb, ComputationOutputs::Failure, 5);
    assert_eq!(r, Err(ProgramError::Custom(ErrorCode::AbortedComputation)));
    assert_eq!(cb.recipient_inbox.message_count, 0);
    assert_eq!(cb.recipient_inbox.messages[0].ciphertext, [0; 32]);
}

#[test]
fn two_senders_land_in_callback_order() {
    let alice = profile("alice", 0x11, ALICE);
    let carol = profile("carol", 0x33, CAROL);
    let bob = profile("bob", 0x22, BOB);
    let bob_inbox = inbox(BOB);
    let mut from_alice = send_ctx(&alice, &bob, &bob_inbox);
    let mut from_carol = send_ctx(&carol, &bob, &bob_inbox);
    assert!(send_message(&mut from_alice, 10, vec![1], bob.arcium_pubkey, 1).is_ok());
    assert!(send_message(&mut from_carol, 11, vec![2], bob.arcium_pubkey, 2).is_ok());
    // Carol's computation completes first.
    let mut cb = SendMessageCallback { recipient_inbox: bob_inbox, sender_profile: carol };
    send_message_callback(&mut cb, success([2; 32], 2), 20).unwrap();
    let mut cb = SendMessageCallback { recipient_inbox: cb.recipient_inbox, sender_profile: alice };
    send_message_callback(&mut cb, success([1; 32], 1), 21).unwrap();
    assert_eq!(cb.recipient_inbox.message_count, 2);
    assert_eq!(cb.recipient_inbox.messages[0].sender, CAROL);
    assert_eq!(cb.recipient_inbox.messages[1].sender, ALICE);
}

#[test]
fn name_of_201_bytes_is_rejected() {
    let mut ctx = InitProfile { user_profile: None, user: ALICE };
    let r = init_profile(&mut ctx, "a".repeat(201), [1; 32], 5);
    assert_eq!(r, Err(ProgramError::AccountDidNotSerialize));
    assert!(ctx.user_profile.is_none());
    let r = init_profile(&mut ctx, "a".repeat(200), [1; 32], 5);
    assert_eq!(r, Ok(()));
    assert_eq!(ctx.user_profile.unwrap().sol_name.len(), 200);
}

#[test]
fn name_length_counts_bytes() {
    let mut ctx = InitProfile { user_profile: None, user: ALICE };
    // 101 two-byte characters: 202 bytes.
    let r = init_profile(&mut ctx, "é".repeat(101), [1; 32], 5);
    assert_eq!(r, Err(ProgramError::AccountDidNotSerialize));
    assert!(ctx.user_profile.is_none());
}

#[test]
fn delegated_inbox_keeps_receiving() {
    let d = delegate_inbox(&DelegateInput { payer: BOB, remaining_accounts: vec![] });
    assert_eq!(d.pda_seeds, vec![b"inbox".to_vec(), BOB.to_vec()]);
    assert_eq!(d.validator, None);
    let d = delegate_inbox(&DelegateInput { payer: BOB, remaining_accounts: vec![[3; 32], [4; 32]] });
    assert_eq!(d.validator, Some([3; 32]));

    let alice = profile("alice", 0x11, ALICE);
    let mut cb = SendMessageCallback { recipient_inbox: inbox(BOB), sender_profile: alice };
    send_message_callback(&mut cb, success([1; 32], 1), 1).unwrap();
    send_message_callback(&mut cb, success([2; 32], 2), 2).unwrap();
    assert_eq!(cb.recipient_inbox.message_count, 2);
    assert_eq!(cb.recipient_inbox.messages[1].ciphertext, [2; 32]);
}

#[test]
fn init_profile_twice_fails_and_keeps_first() {
    let mut ctx = InitProfile { user_profile: None, user: ALICE };
    assert_eq!(init_profile(&mut ctx, "alice".to_string(), [0x11; 32], 7), Ok(()));
    let r = init_profile(&mut ctx, "mallory".to_string(), [0x99; 32], 8);
    assert_eq!(r, Err(ProgramError::AccountAlreadyInUse));
    let p = ctx.user_profile.unwrap();
    assert_eq!(p.sol_name, "alice");
    assert_eq!(p.arcium_pubkey, [0x11; 32]);
    assert_eq!(p.spam_stake_amount, 7);
    assert_eq!(p.owner, ALICE);
}

#[test]
fn init_inbox_twice_fails_and_keeps_first() {
    let mut ctx = InitInbox { inbox: None, user: BOB };
    assert_eq!(init_inbox(&mut ctx), Ok(()));
    let first = ctx.inbox.clone().unwrap();
    assert_eq!(first.messages.len(), 100);
    assert_eq!(first.message_count, 0);
    assert_eq!(first.owner, BOB);
    assert_eq!(init_inbox(&mut ctx), Err(ProgramError::AccountAlreadyInUse));
    assert_eq!(ctx.inbox.unwrap().message_count, 0);
}

#[test]
fn send_from_foreign_profile_is_refused() {
    let alice = profile("alice", 0x11, ALICE);
    let bob = profile("bob", 0x22, BOB);
    let mut ctx = send_ctx(&alice, &bob, &inbox(BOB));
    ctx.payer = CAROL;
    let r = send_message(&mut ctx, 3, vec![1, 2, 3], bob.arcium_pubkey, 9);
    assert_eq!(r.err(), Some(ProgramError::ConstraintSeeds));
    assert_eq!(ctx.sign_pda_account.bump, 0);

    let mut ctx = send_ctx(&alice, &bob, &inbox(CAROL));
    let r = send_message(&mut ctx, 3, vec![1, 2, 3], bob.arcium_pubkey, 9);
    assert_eq!(r.err(), Some(ProgramError::ConstraintSeeds));
}

#[test]
fn request_names_the_sealing_computation() {
    let alice = profile("alice", 0x11, ALICE);
    let bob = profile("bob", 0x22, BOB);
    let mut ctx = send_ctx(&alice, &bob, &inbox(BOB));
    let q = send_message(&mut ctx, 3, vec![1], [0; 32], 9).unwrap();
    assert_eq!(q.comp_def_offset, arcium_anchor::comp_def_offset("seal_message_for_recipient"));
    assert_ne!(q.comp_def_offset, arcium_anchor::comp_def_offset("another_circuit"));
}

#[test]
fn key_mismatch_is_not_checked() {
    let alice = profile("alice", 0x11, ALICE);
    let bob = profile("bob", 0x22, BOB);
    let mut ctx = send_ctx(&alice, &bob, &inbox(BOB));
    assert!(send_message(&mut ctx, 4, vec![1], [0x77; 32], 9).is_ok());
}
