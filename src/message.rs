use vstd::prelude::*;

verus! {

/// Width of the subject field, in bytes.
pub const SUBJECT_LEN: usize = 64;

/// Width of the body field, in bytes.
pub const BODY_LEN: usize = 256;

/// Width of a whole plaintext: subject then body.
pub const PLAINTEXT_LEN: usize = 320;

/// The plaintext a sender encrypts for the computation cluster.
#[derive(Clone, Copy, Debug)]
pub struct MessageInput {
    pub subject: [u8; 64],
    pub body: [u8; 256],
}

/// The plaintext the computation cluster re-encrypts for the recipient.
#[derive(Clone, Copy, Debug)]
pub struct MessageOutput {
    pub subject: [u8; 64],
    pub body: [u8; 256],
}

/// `text` right-padded with zero bytes to `width`.
pub open spec fn padded(text: Seq<u8>, width: nat) -> Seq<u8> {
    text.add(Seq::new((width - text.len()) as nat, |i: int| 0u8))
}

/// The fixed-width layout of a plaintext: subject, then body.
pub open spec fn layout(subject: Seq<u8>, body: Seq<u8>) -> Seq<u8> {
    subject.add(body)
}

/// `text` right-padded with zero bytes to a field of `N` bytes, or `None`
/// when it does not fit.
pub fn pad_field<const N: usize>(text: &[u8]) -> (r: Option<[u8; N]>)
    ensures
        r is Some <==> text@.len() <= N,
        r matches Some(f) ==> f@ == padded(text@, N as nat),
{
    if text.len() > N {
        return None;
    }
    let mut f: [u8; N] = [0u8; N];
    let mut i: usize = 0;
    while i < text.len()
        invariant
            text@.len() <= N,
            i <= text@.len(),
            f@.len() == N,
            forall|j: int| 0 <= j < i ==> f@[j] == text@[j],
            forall|j: int| text@.len() <= j < N ==> f@[j] == 0u8,
        decreases text@.len() - i,
    {
        f[i] = text[i];
        i = i + 1;
    }
    assert(f@ =~= padded(text@, N as nat));
    Some(f)
}

/// Copies `src[start..start + N]` into an array.
fn field_from<const N: usize>(src: &[u8], start: usize) -> (f: [u8; N])
    requires
        start + N <= src@.len(),
    ensures
        f@ == src@.subrange(start as int, start + N),
{
    let mut f: [u8; N] = [0u8; N];
    let mut i: usize = 0;
    while i < N
        invariant
            start + N <= src.len(),
            i <= N,
            f@.len() == N,
            forall|j: int| 0 <= j < i ==> f@[j] == src@[start + j],
        decreases N - i,
    {
        f[i] = src[start + i];
        i = i + 1;
    }
    assert(f@ =~= src@.subrange(start as int, start + N));
    f
}

/// The fixed-width layout of `subject` then `body`.
fn layout_bytes(subject: &[u8; 64], body: &[u8; 256]) -> (r: Vec<u8>)
    ensures
        r@ == layout(subject@, body@),
{
    let mut r: Vec<u8> = Vec::new();
    let mut i: usize = 0;
    while i < SUBJECT_LEN
        invariant
            i <= SUBJECT_LEN,
            r@ == subject@.take(i as int),
        decreases SUBJECT_LEN - i,
    {
        r.push(subject[i]);
        i = i + 1;
        assert(r@ =~= subject@.take(i as int));
    }
    let mut k: usize = 0;
    while k < BODY_LEN
        invariant
            k <= BODY_LEN,
            r@ == subject@.add(body@.take(k as int)),
        decreases BODY_LEN - k,
    {
        r.push(body[k]);
        k = k + 1;
        assert(r@ =~= subject@.add(body@.take(k as int)));
    }
    assert(r@ =~= layout(subject@, body@));
    r
}

impl MessageInput {
    /// Builds a plaintext from a subject and a body, each zero-padded to its
    /// field; `None` when either is too long for its field.
    pub fn new(subject: &[u8], body: &[u8]) -> (r: Option<MessageInput>)
        ensures
            r is Some <==> subject@.len() <= SUBJECT_LEN && body@.len() <= BODY_LEN,
            r matches Some(m) ==> m.subject@ == padded(subject@, SUBJECT_LEN as nat)
                && m.body@ == padded(body@, BODY_LEN as nat),
    {
        let s = pad_field::<64>(subject);
        let b = pad_field::<256>(body);
        match (s, b) {
            (Some(s), Some(b)) => Some(MessageInput { subject: s, body: b }),
            _ => None,
        }
    }

    /// Reads a plaintext from its fixed-width layout; `None` unless exactly
    /// `PLAINTEXT_LEN` bytes are given.
    pub fn from_bytes(b: &[u8]) -> (r: Option<MessageInput>)
        ensures
            r is Some <==> b@.len() == PLAINTEXT_LEN,
            r matches Some(m) ==> layout(m.subject@, m.body@) == b@,
    {
        if b.len() != PLAINTEXT_LEN {
            return None;
        }
        let subject = field_from::<64>(b, 0);
        let body = field_from::<256>(b, SUBJECT_LEN);
        assert(layout(subject@, body@) =~= b@);
        Some(MessageInput { subject, body })
    }

    /// The fixed-width layout of this plaintext.
    pub fn to_bytes(&self) -> (r: Vec<u8>)
        ensures
            r@ == layout(self.subject@, self.body@),
    {
        layout_bytes(&self.subject, &self.body)
    }
}

impl MessageOutput {
    /// Reads a plaintext from its fixed-width layout; `None` unless exactly
    /// `PLAINTEXT_LEN` bytes are given.
    pub fn from_bytes(b: &[u8]) -> (r: Option<MessageOutput>)
        ensures
            r is Some <==> b@.len() == PLAINTEXT_LEN,
            r matches Some(m) ==> layout(m.subject@, m.body@) == b@,
    {
        if b.len() != PLAINTEXT_LEN {
            return None;
        }
        let subject = field_from::<64>(b, 0);
        let body = field_from::<256>(b, SUBJECT_LEN);
        assert(layout(subject@, body@) =~= b@);
        Some(MessageOutput { subject, body })
    }

    /// The fixed-width layout of this plaintext.
    pub fn to_bytes(&self) -> (r: Vec<u8>)
        ensures
            r@ == layout(self.subject@, self.body@),
    {
        layout_bytes(&self.subject, &self.body)
    }
}

/// The output plaintext carries exactly the input plaintext.
pub open spec fn is_sealed_copy(input: MessageInput, output: MessageOutput) -> bool {
    output.subject == input.subject && output.body == input.body
}

/// The plaintext step of the sealing computation: what the cluster
/// re-encrypts for the recipient is the message it decrypted, unchanged.
pub fn seal_message_for_recipient(message: MessageInput) -> (r: MessageOutput)
    ensures
        is_sealed_copy(message, r),
{
    MessageOutput { subject: message.subject, body: message.body }
}

} // verus!
