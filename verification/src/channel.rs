//! The last-error channel: one slot of message bytes for a host that can
//! take nothing but integers and raw memory across its boundary.
//!
//! The channel is written at the end of every raw call: a failure puts its
//! message there, a success clears it. It is meant for one caller at a time.

use vstd::prelude::*;
use vstd::string::*;

verus! {

/// How many bytes of a message the channel keeps.
pub const LAST_ERROR_CAPACITY: usize = 1024;

/// The channel: a buffer of fixed size and the number of its bytes that
/// hold the current message.
#[derive(Debug)]
pub struct LastError {
    buf: [u8; 1024],
    len: usize,
}

impl LastError {
    #[verifier::type_invariant]
    spec fn inv(self) -> bool {
        self.len <= LAST_ERROR_CAPACITY
    }

    /// The whole buffer, whatever part of it is in use.
    pub closed spec fn buffer(&self) -> Seq<u8> {
        self.buf@
    }

    /// The number of bytes of the buffer that hold the current message.
    pub closed spec fn len(&self) -> nat {
        self.len as nat
    }

    /// The bytes of the current message.
    pub open spec fn message(&self) -> Seq<u8> {
        self.buffer().subrange(0, self.len() as int)
    }

    /// Whether the current message is `bytes`, as far as the buffer has room
    /// for it.
    pub open spec fn holds(&self, bytes: Seq<u8>) -> bool {
        &&& self.len() == kept(bytes.len())
        &&& self.message() == bytes.subrange(0, kept(bytes.len()) as int)
    }

    /// Whether this is the channel `before` after `bytes` were put into it:
    /// they are the message, as far as the buffer has room for them, and the
    /// bytes of the buffer behind the message are as they were.
    pub open spec fn set_from(&self, before: &LastError, bytes: Seq<u8>) -> bool {
        &&& self.holds(bytes)
        &&& self.buffer().subrange(kept(bytes.len()) as int, LAST_ERROR_CAPACITY as int)
            == before.buffer().subrange(kept(bytes.len()) as int, LAST_ERROR_CAPACITY as int)
    }

    /// Whether this is the channel `before` after it was emptied: no byte
    /// counts as message, and the buffer is as it was.
    pub open spec fn cleared_from(&self, before: &LastError) -> bool {
        &&& self.len() == 0
        &&& self.buffer() == before.buffer()
    }

    /// A channel that holds no message, its buffer all zero.
    pub fn new() -> (channel: LastError)
        ensures
            channel.len() == 0,
            channel.buffer() == Seq::new(LAST_ERROR_CAPACITY as nat, |i: int| 0u8),
    {
        let channel = LastError { buf: [0u8; 1024], len: 0 };
        assert(channel.buf@ =~= Seq::new(LAST_ERROR_CAPACITY as nat, |i: int| 0u8));
        channel
    }
}

/// The length of what the channel keeps of a message of `n` bytes.
pub open spec fn kept(n: nat) -> nat {
    if n <= LAST_ERROR_CAPACITY {
        n
    } else {
        LAST_ERROR_CAPACITY as nat
    }
}

/// Puts a message into the channel. A message longer than the buffer is cut
/// at the buffer's size, without notice; the bytes of the buffer behind the
/// message stay as they were.
pub fn set_last_error(channel: &mut LastError, msg: &str)
    ensures
        final(channel).set_from(old(channel), msg.spec_bytes()),
{
    proof {
        use_type_invariant(&*channel);
    }
    let bytes = msg.as_bytes();
    let n: usize = if bytes.len() <= LAST_ERROR_CAPACITY {
        bytes.len()
    } else {
        LAST_ERROR_CAPACITY
    };
    let mut i: usize = 0;
    while i < n
        invariant
            i <= n <= LAST_ERROR_CAPACITY,
            n <= bytes@.len(),
            channel.buf@.len() == LAST_ERROR_CAPACITY,
            channel.len == old(channel).len,
            channel.len <= LAST_ERROR_CAPACITY,
            forall|j: int| 0 <= j < i ==> channel.buf@[j] == bytes@[j],
            forall|j: int| i <= j < LAST_ERROR_CAPACITY ==> channel.buf@[j] == old(channel).buf@[j],
        decreases n - i,
    {
        channel.buf[i] = bytes[i];
        i += 1;
    }
    channel.len = n;
    assert(channel.message() =~= msg.spec_bytes().subrange(0, n as int));
    assert(channel.buffer().subrange(n as int, LAST_ERROR_CAPACITY as int) =~= old(
        channel,
    ).buffer().subrange(n as int, LAST_ERROR_CAPACITY as int));
}

/// Empties the channel. The buffer keeps its bytes; none of them counts as
/// message any more.
pub fn clear_last_error(channel: &mut LastError)
    ensures
        final(channel).cleared_from(old(channel)),
{
    channel.len = 0;
}

/// The channel's buffer, from which a caller copies the message out.
pub fn last_error_message_ptr(channel: &LastError) -> (buffer: &[u8; 1024])
    ensures
        buffer@ == channel.buffer(),
{
    &channel.buf
}

/// The number of bytes of the buffer that hold the current message.
pub fn last_error_message_len(channel: &LastError) -> (len: usize)
    ensures
        len == channel.len(),
        len <= LAST_ERROR_CAPACITY,
{
    proof {
        use_type_invariant(channel);
    }
    channel.len
}

} // verus!
