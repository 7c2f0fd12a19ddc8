//! The notification bridge: decoded UDP datagrams travel from the listener
//! thread to the UI through an unbounded FIFO queue, drained one message per
//! frame.

use vstd::prelude::*;
use vstd::slice::slice_subrange;

verus! {

/// The text that lossy UTF-8 decoding yields for a byte sequence: invalid
/// sequences are replaced with the replacement character, never rejected, so
/// every datagram decodes to some text.
pub uninterp spec fn lossy_utf8(bytes: Seq<u8>) -> Seq<char>;

/// Relies on `String::from_utf8_lossy`: the decoded text is a function of
/// the bytes alone.
#[verifier::external_body]
fn utf8_lossy(bytes: &[u8]) -> (text: String)
    ensures
        text@ == lossy_utf8(bytes@),
{
    String::from_utf8_lossy(bytes).into_owned()
}

/// Decodes the filled prefix of a receive buffer: the first `amt` bytes of
/// `buf` are the datagram, the rest is stale buffer content and is ignored.
pub fn decode_datagram(buf: &[u8], amt: usize) -> (text: String)
    requires
        amt <= buf@.len(),
    ensures
        text@ == lossy_utf8(buf@.subrange(0, amt as int)),
{
    let datagram = slice_subrange(buf, 0, amt);
    utf8_lossy(datagram)
}

/// The notification channel: an unbounded FIFO of decoded datagram texts.
/// The listener thread pushes at the back; the UI drains from the front, at
/// most one message per frame, so a backlog empties over later frames in
/// receipt order.
pub struct NotificationQueue {
    messages: Vec<String>,
}

impl View for NotificationQueue {
    type V = Seq<Seq<char>>;

    closed spec fn view(&self) -> Seq<Seq<char>> {
        self.messages@.map_values(|m: String| m@)
    }
}

impl NotificationQueue {
    /// A fresh channel with nothing pending.
    pub fn new() -> (queue: Self)
        ensures
            queue@ == Seq::<Seq<char>>::empty(),
    {
        let queue = NotificationQueue { messages: Vec::new() };
        proof {
            assert(queue@ =~= Seq::<Seq<char>>::empty());
        }
        queue
    }

    /// How many messages are pending.
    pub fn len(&self) -> (n: usize)
        ensures
            n == self@.len(),
    {
        self.messages.len()
    }

    /// The producer side: a decoded text joins the back of the queue.
    pub fn push(&mut self, message: String)
        ensures
            final(self)@ == old(self)@.push(message@),
    {
        let ghost before = self@;
        let ghost text = message@;
        self.messages.push(message);
        proof {
            assert(final(self)@ =~= before.push(text));
        }
    }

    /// The consumer side: the oldest message leaves the queue, if any is
    /// pending; an empty queue is left untouched.
    pub fn pop(&mut self) -> (front: Option<String>)
        ensures
            old(self)@.len() == 0 ==> front is None && final(self)@ == old(self)@,
            old(self)@.len() > 0 ==> {
                &&& front matches Some(m) && m@ == old(self)@[0]
                &&& final(self)@ == old(self)@.skip(1)
            },
    {
        if self.messages.len() == 0 {
            None
        } else {
            let ghost before = self@;
            let front = self.messages.remove(0);
            proof {
                assert(final(self)@ =~= before.skip(1));
            }
            Some(front)
        }
    }

    /// One listener-loop turn after a successful receive: the filled prefix
    /// of the buffer is decoded and queued for the UI.
    pub fn receive_datagram(&mut self, buf: &[u8], amt: usize)
        ensures
            amt <= buf@.len() ==> final(self)@ == old(self)@.push(
                lossy_utf8(buf@.subrange(0, amt as int)),
            ),
            amt > buf@.len() ==> final(self)@ == old(self)@,
    {
        if amt <= buf.len() {
            let text = decode_datagram(buf, amt);
            self.push(text);
        }
    }
}

/// The texts a frame-by-frame drain delivers, oldest first.
pub open spec fn drained(pending: Seq<Seq<char>>) -> Seq<Seq<char>>
    decreases pending.len(),
{
    if pending.len() == 0 {
        Seq::empty()
    } else {
        seq![pending.first()] + drained(pending.skip(1))
    }
}

/// Law: draining the queue delivers every pending message exactly once, in
/// receipt order — the bridge neither reorders nor loses a text.
pub proof fn lemma_drain_preserves_order(pending: Seq<Seq<char>>)
    ensures
        drained(pending) == pending,
    decreases pending.len(),
{
    if pending.len() == 0 {
        assert(drained(pending) =~= pending);
    } else {
        lemma_drain_preserves_order(pending.skip(1));
        assert(drained(pending) =~= pending);
    }
}

/// Law: a message queued behind a backlog is delivered after all of it:
/// delivery order matches send order for a single producer.
pub proof fn lemma_backlog_delivered_first(pending: Seq<Seq<char>>, message: Seq<char>)
    ensures
        drained(pending.push(message)) == drained(pending).push(message),
{
    lemma_drain_preserves_order(pending);
    lemma_drain_preserves_order(pending.push(message));
}

} // verus!
