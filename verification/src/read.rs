//! Reading a payload into a buffer of the caller.

use crate::calls::DbKey;
use crate::data::Data;
use crate::error::ErrorReport;
use crate::result::{formatted, DbResult, Kind, LastResultSlot};
use vstd::prelude::*;

verus! {

/// What is said of a buffer without room for a single byte.
pub open spec fn zero_sized_text() -> Seq<char> {
    "received a zero-sized buffer to read into"@
}

/// A payload that is read front to back, a piece at a time.
pub struct Payload {
    bytes: Vec<u8>,
    position: usize,
}

impl Payload {
    #[verifier::type_invariant]
    spec fn within(&self) -> bool {
        self.position <= self.bytes@.len()
    }

    /// The bytes that have not been read yet.
    pub closed spec fn remaining(&self) -> Seq<u8> {
        self.bytes@.skip(self.position as int)
    }

    /// A payload of which nothing has been read.
    pub fn new(value: Vec<u8>) -> (payload: Self)
        ensures
            payload.remaining() == value@,
    {
        Payload { bytes: value, position: 0 }
    }

    /// Reads as many bytes as the buffer holds or the payload has left,
    /// whichever is less, into the front of `buf`, and says how many.
    pub fn read(&mut self, buf: &mut [u8]) -> (n: usize)
        ensures
            n == if old(self).remaining().len() < old(buf)@.len() {
                old(self).remaining().len()
            } else {
                old(buf)@.len()
            },
            final(buf)@ == old(self).remaining().take(n as int) + old(buf)@.skip(n as int),
            final(self).remaining() == old(self).remaining().skip(n as int),
            old(self).remaining().len() <= usize::MAX,
    {
        proof {
            use_type_invariant(&*self);
        }
        let available = self.bytes.len() - self.position;
        let n = if available < buf.len() {
            available
        } else {
            buf.len()
        };
        let ghost before = buf@;
        let mut i: usize = 0;
        while i < n
            invariant
                i <= n,
                n <= buf@.len(),
                buf@.len() == before.len(),
                self.position + n <= self.bytes@.len() <= usize::MAX,
                buf@ == self.remaining().take(i as int) + before.skip(i as int),
            decreases n - i,
        {
            buf[i] = self.bytes[self.position + i];
            i += 1;
        }
        self.position += n;
        n
    }
}

/// Reads the payload of a record into a buffer of the caller.
///
/// The length of the payload goes to `actual_value_len`. If the payload fits,
/// the buffer starts with it, `key` gets the record's key and the result is
/// a success. If it does not, the result says that the buffer is too small,
/// the caller learns from `actual_value_len` how large it has to be, and what
/// the buffer then holds means nothing. A buffer without room for a single
/// byte is an error of its own.
pub fn into_fixed_buffer(
    data: &mut Data<Payload>,
    buf: &mut [u8],
    key: &mut DbKey,
    actual_value_len: &mut usize,
    slot: &mut LastResultSlot,
) -> (r: DbResult)
    ensures
        final(buf)@.len() == old(buf)@.len(),
        final(data).key == old(data).key,
        old(buf)@.len() == 0 ==> {
            &&& r.kind == Kind::InternalError
            &&& final(slot)@ == Some((r, Some(formatted(seq![zero_sized_text()], None))))
            &&& *final(key) == *old(key)
            &&& *final(actual_value_len) == *old(actual_value_len)
            &&& final(data).payload.remaining() == old(data).payload.remaining()
        },
        old(buf)@.len() > 0 ==> {
            let payload = old(data).payload.remaining();
            &&& final(slot)@ == old(slot)@
            &&& *final(actual_value_len) == payload.len()
            &&& final(data).payload.remaining().len() == 0
            &&& payload.len() <= old(buf)@.len() ==> {
                &&& r.kind == Kind::Success
                &&& final(key)@ == old(data).key@
                &&& final(buf)@ == payload + old(buf)@.skip(payload.len() as int)
            }
            &&& payload.len() > old(buf)@.len() ==> {
                &&& r.kind == Kind::BufferTooSmall
                &&& *final(key) == *old(key)
            }
        },
{
    // A buffer without room would never let the loop below come to an end.
    let capacity = buf.len();
    if capacity == 0 {
        let e = ErrorReport::single("received a zero-sized buffer to read into");
        return DbResult::from(&e, slot);
    }
    let ghost payload = data.payload.remaining();
    let ghost before = buf@;

    let mut written: usize = 0;
    let mut head: usize = 0;

    loop
        invariant
            capacity == before.len(),
            capacity > 0,
            buf@.len() == capacity,
            head <= capacity,
            data.key == old(data).key,
            written <= payload.len(),
            written > 0 ==> payload.len() <= usize::MAX,
            data.payload.remaining() == payload.skip(written as int),
            written < capacity ==> head == written,
            written <= capacity ==> buf@ == payload.take(written as int) + before.skip(
                written as int,
            ),
        ensures
            buf@.len() == capacity,
            data.key == old(data).key,
            written == payload.len(),
            data.payload.remaining().len() == 0,
            written <= capacity ==> buf@ == payload + before.skip(written as int),
        decreases
                payload.len() - written,
                (if head == capacity {
                    1int
                } else {
                    0int
                }),
    {
        if head == capacity {
            // The buffer is full: go on over what was read before. This finds
            // the length of the whole payload.
            head = 0;
            continue;
        }
        let (_, rest) = buf.split_at_mut(head);
        let n = data.payload.read(rest);
        if n == 0 {
            // The whole payload has been read.
            break;
        }
        written += n;
        head += n;
    }

    *actual_value_len = written;
    if written > capacity {
        // More was read than the buffer holds: the caller needs a larger one.
        DbResult::buffer_too_small()
    } else {
        *key = DbKey(data.key.to_bytes());
        DbResult::ok()
    }
}

} // verus!
