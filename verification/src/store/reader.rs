//! Reading the records of a store one after the other.

use crate::data::{padded, too_long_text, Data, Key, KEY_SIZE};
use crate::error::Error;
use crate::read::Payload;
use vstd::prelude::*;

verus! {

/// What the store's cursor gave when it was asked for the next record:
/// nothing at the end, else a key and a value, or the store's error.
pub type Fetched = Option<Result<(Vec<u8>, Vec<u8>), Error>>;

/// The record that a fetch leads to, as its key and payload; `None` at the
/// end of the store. `Err` tells that there is none to be had: the store
/// failed, or the key is longer than a key may be.
pub open spec fn fetched_record(fetched: Fetched) -> Result<Option<(Seq<u8>, Seq<u8>)>, Seq<Seq<char>>> {
    match fetched {
        None => Ok(None),
        Some(Err(e)) => Err(e@),
        Some(Ok((k, v))) => if k@.len() <= KEY_SIZE {
            Ok(Some((padded(k@), v@)))
        } else {
            Err(seq![too_long_text(k@.len())])
        },
    }
}

/// Turns what the cursor gave into a record.
pub fn next(fetched: Fetched) -> (r: Result<Option<Data<Vec<u8>>>, Error>)
    ensures
        match r {
            Ok(Some(data)) => fetched_record(fetched) == Ok::<_, Seq<Seq<char>>>(
                Some((data.key@, data.payload@)),
            ),
            Ok(None) => fetched_record(fetched) == Ok::<Option<(Seq<u8>, Seq<u8>)>, Seq<Seq<char>>>(
                None,
            ),
            Err(e) => fetched_record(fetched) == Err::<Option<(Seq<u8>, Seq<u8>)>, _>(e@),
        },
{
    match fetched {
        None => Ok(None),
        Some(Err(e)) => Err(e),
        Some(Ok((k, v))) => {
            let key = Key::from_vec(k)?;
            Ok(Some(Data { key, payload: v }))
        },
    }
}

/// A read in progress: the store's cursor, and the record it stands on.
///
/// A new reader stands before the first record. The cursor is the store's
/// own; the reader only keeps it.
pub struct Reader<I> {
    iter: I,
    current: Option<Data<Vec<u8>>>,
}

impl<I> Reader<I> {
    /// The store's cursor.
    pub closed spec fn cursor(&self) -> I {
        self.iter
    }

    /// The record that the reader stands on, as its key and payload.
    pub closed spec fn current(&self) -> Option<(Seq<u8>, Seq<u8>)> {
        match self.current {
            Some(data) => Some((data.key@, data.payload@)),
            None => None,
        }
    }

    /// A reader before the first record of the cursor `iter`.
    pub fn begin(iter: I) -> (reader: Self)
        ensures
            reader.cursor() == iter,
            reader.current() is None,
    {
        Reader { iter, current: None }
    }

    /// The store's cursor, to be moved on by whoever owns the store.
    pub fn cursor_mut(&mut self) -> (iter: &mut I)
        ensures
            *iter == old(self).cursor(),
            final(self).cursor() == *final(iter),
            final(self).current() == old(self).current(),
    {
        &mut self.iter
    }

    /// The record that the reader stands on, with a payload of which nothing
    /// has been read.
    pub fn current_data(&self) -> (data: Option<Data<Payload>>)
        ensures
            match data {
                Some(d) => self.current() == Some((d.key@, d.payload.remaining())),
                None => self.current() is None,
            },
    {
        match &self.current {
            Some(current) => Some(
                Data { key: current.key, payload: Payload::new(current.payload.clone()) },
            ),
            None => None,
        }
    }

    /// Hands the record that the reader stands on to `f`; nothing happens
    /// where it stands on none.
    pub fn with_current<R, F: FnOnce(Data<Payload>) -> R>(&mut self, f: F) -> (r: Option<R>)
        requires
            forall|d: Data<Payload>|
                old(self).current() == Some((d.key@, d.payload.remaining())) ==> f.requires((d,)),
        ensures
            final(self).cursor() == old(self).cursor(),
            final(self).current() == old(self).current(),
            match r {
                Some(given) => exists|d: Data<Payload>|
                    old(self).current() == Some((d.key@, d.payload.remaining())) && f.ensures(
                        (d,),
                        given,
                    ),
                None => old(self).current() is None,
            },
    {
        match self.current_data() {
            Some(data) => Some(f(data)),
            None => None,
        }
    }

    /// Moves on to the record that the cursor gave, and says whether there is
    /// one. Where there is none to be had the reader stays where it is.
    pub fn move_next(&mut self, fetched: Fetched) -> (r: Result<bool, Error>)
        ensures
            final(self).cursor() == old(self).cursor(),
            match fetched_record(fetched) {
                Ok(record) => r == Ok::<bool, Error>(record is Some) && final(self).current()
                    == record,
                Err(texts) => r is Err && r->Err_0@ == texts && final(self).current() == old(
                    self,
                ).current(),
            },
    {
        match next(fetched) {
            Ok(Some(record)) => {
                self.current = Some(record);
                Ok(true)
            },
            Ok(None) => {
                self.current = None;
                Ok(false)
            },
            Err(e) => Err(e),
        }
    }

    /// Ends the read.
    pub fn complete(&mut self) -> (r: Result<(), Error>)
        ensures
            r is Ok,
            final(self).cursor() == old(self).cursor(),
            final(self).current() == old(self).current(),
    {
        Ok(())
    }
}

} // verus!
