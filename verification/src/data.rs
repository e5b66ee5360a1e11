//! Keys and the records they name.

use crate::error::Error;
use crate::text::{decimal_text, push_decimal};
use vstd::prelude::*;
use vstd::string::StringExecFns;

verus! {

/// A record of the store: a key and the payload stored under it.
pub struct Data<P> {
    pub key: Key,
    pub payload: P,
}

/// The size of every key, in bytes.
pub const KEY_SIZE: usize = 16;

/// A key of the store: sixteen bytes that mean nothing to this crate.
#[derive(Clone, Copy)]
pub struct Key([u8; KEY_SIZE]);

impl View for Key {
    type V = Seq<u8>;

    closed spec fn view(&self) -> Seq<u8> {
        self.0@
    }
}

/// The bytes of a short key, filled up with zeros to the size of a key.
pub open spec fn padded(bytes: Seq<u8>) -> Seq<u8>
    recommends
        bytes.len() <= KEY_SIZE,
{
    bytes + Seq::new((KEY_SIZE - bytes.len()) as nat, |i: int| 0u8)
}

/// What the error says of a key of `len` bytes, which is too long.
pub open spec fn too_long_text(len: nat) -> Seq<char> {
    "key length `"@ + decimal_text(len) + "` is greater than the max allowed `"@ + decimal_text(
        KEY_SIZE as nat,
    ) + "`"@
}

impl Key {
    /// Every key has the size of a key.
    pub proof fn lemma_len(&self)
        ensures
            self@.len() == KEY_SIZE,
    {
    }

    /// The key of these bytes.
    pub fn from_bytes(value: [u8; KEY_SIZE]) -> (key: Self)
        ensures
            key@ == value@,
    {
        Key(value)
    }

    /// The key of at most sixteen bytes, filled up with zeros; a longer one
    /// is an error.
    pub fn from_vec(value: Vec<u8>) -> (r: Result<Self, Error>)
        ensures
            match r {
                Ok(key) => value@.len() <= KEY_SIZE && key@ == padded(value@),
                Err(e) => value@.len() > KEY_SIZE && e@ == seq![too_long_text(value@.len())],
            },
    {
        Self::from_slice(value.as_slice())
    }

    /// The key of at most sixteen bytes, filled up with zeros; a longer one
    /// is an error.
    pub fn from_slice(value: &[u8]) -> (r: Result<Self, Error>)
        ensures
            match r {
                Ok(key) => value@.len() <= KEY_SIZE && key@ == padded(value@),
                Err(e) => value@.len() > KEY_SIZE && e@ == seq![too_long_text(value@.len())],
            },
    {
        if value.len() > KEY_SIZE {
            let mut text = String::from_str("key length `");
            push_decimal(&mut text, value.len());
            text.append("` is greater than the max allowed `");
            push_decimal(&mut text, KEY_SIZE);
            text.append("`");
            return Err(Error::msg(text));
        }
        let mut bytes = [0u8; 16];
        let n = value.len();
        let mut i: usize = 0;
        while i < n
            invariant
                n == value@.len(),
                n <= KEY_SIZE,
                i <= n,
                bytes@.len() == KEY_SIZE,
                forall|j: int| 0 <= j < i ==> bytes@[j] == value@[j],
                forall|j: int| i <= j < KEY_SIZE ==> bytes@[j] == 0u8,
            decreases n - i,
        {
            bytes[i] = value[i];
            i += 1;
        }
        let key = Key(bytes);
        Ok(key)
    }

    /// The bytes of the key.
    pub fn to_bytes(self) -> (bytes: [u8; KEY_SIZE])
        ensures
            bytes@ == self@,
    {
        self.0
    }

    /// The bytes of the key, as the store takes them.
    pub fn as_ref(&self) -> (bytes: &[u8])
        ensures
            bytes@ == self@,
    {
        self.0.as_slice()
    }
}

} // verus!
