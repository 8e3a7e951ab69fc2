//! Capsule store: creation and read access for capsule records.
//!
//! A record is created exactly once. The store offers no operation that
//! mutates or removes an existing record, so every handle it hands out stays
//! valid and the record behind it never changes. A failed creation leaves
//! the store exactly as it was.

use vstd::prelude::*;
use crate::capsule::{CapsuleMetadata, CapsuleType, CapsuleView, CustomError, Pubkey, opt_text,
    opt_time};
use crate::codec::{fields_valid, first_length_error, validate_fields};

verus! {

/// The record a successful creation produces, as a mathematical value.
pub open spec fn new_record_view(
    author: Seq<u8>,
    title: Seq<char>,
    recipient: Seq<char>,
    message: Seq<char>,
    media_url: Seq<char>,
    capsule_type: CapsuleType,
    unlock_at: Option<int>,
    location: Option<Seq<char>>,
    now: int,
) -> CapsuleView {
    CapsuleView {
        author: author,
        title: title,
        recipient: recipient,
        message: message,
        media_url: media_url,
        created_at: now,
        capsule_type: capsule_type,
        unlock_at: unlock_at,
        location: location,
    }
}

/// Validates every field and populates a fresh record: `author` is the
/// creating authority, `created_at` is stamped with `now` from the caller's
/// trusted clock, never with a content field. Succeeds exactly when every
/// field fits its declared maximum; a violating input is rejected with the
/// first length error and no record comes to exist.
pub fn create_capsule(
    author: Pubkey,
    title: String,
    recipient: String,
    message: String,
    media_url: String,
    capsule_type: CapsuleType,
    unlock_at: Option<i64>,
    location: Option<String>,
    now: i64,
) -> (r: Result<CapsuleMetadata, CustomError>)
    ensures
        r is Ok <==> fields_valid(title@, recipient@, message@, media_url@, opt_text(location)),
        (match r {
            Ok(rec) => rec@ == new_record_view(
                author@,
                title@,
                recipient@,
                message@,
                media_url@,
                capsule_type,
                opt_time(unlock_at),
                opt_text(location),
                now as int,
            ),
            Err(e) => Some(e) == first_length_error(
                title@,
                recipient@,
                message@,
                media_url@,
                opt_text(location),
            ),
        }),
{
    match validate_fields(&title, &recipient, &message, &media_url, &location) {
        Ok(()) => Ok(
            CapsuleMetadata {
                author,
                title,
                recipient,
                message,
                media_url,
                created_at: now,
                capsule_type,
                unlock_at,
                location,
            },
        ),
        Err(e) => Err(e),
    }
}

/// The store itself: the sole owner of record storage. Records are only
/// ever appended; a handle is the position a record was created at.
pub struct CapsuleStore {
    records: Vec<CapsuleMetadata>,
}

impl View for CapsuleStore {
    type V = Seq<CapsuleView>;

    closed spec fn view(&self) -> Seq<CapsuleView> {
        Seq::new(self.records@.len(), |i: int| self.records@[i]@)
    }
}

impl CapsuleStore {
    /// An empty store, holding no record.
    pub fn new() -> (s: CapsuleStore)
        ensures
            s@ == Seq::<CapsuleView>::empty(),
    {
        let s = CapsuleStore { records: Vec::new() };
        proof {
            assert(s@ =~= Seq::<CapsuleView>::empty());
        }
        s
    }

    /// How many records have been created.
    pub fn len(&self) -> (n: usize)
        ensures
            n == self@.len(),
    {
        self.records.len()
    }

    /// Creates a record: validates the fields, stamps `created_at := now`,
    /// and persists atomically. On success the handle of the new record is
    /// returned and the store grows by exactly that record; on a length
    /// violation the named error is returned and the store is unchanged —
    /// a failed creation persists nothing.
    pub fn create(
        &mut self,
        author: Pubkey,
        title: String,
        recipient: String,
        message: String,
        media_url: String,
        capsule_type: CapsuleType,
        unlock_at: Option<i64>,
        location: Option<String>,
        now: i64,
    ) -> (r: Result<usize, CustomError>)
        ensures
            r is Ok <==> fields_valid(
                title@,
                recipient@,
                message@,
                media_url@,
                opt_text(location),
            ),
            (match r {
                Ok(handle) => handle == old(self)@.len() && final(self)@ == old(self)@.push(
                    new_record_view(
                        author@,
                        title@,
                        recipient@,
                        message@,
                        media_url@,
                        capsule_type,
                        opt_time(unlock_at),
                        opt_text(location),
                        now as int,
                    ),
                ),
                Err(e) => final(self)@ == old(self)@ && Some(e) == first_length_error(
                    title@,
                    recipient@,
                    message@,
                    media_url@,
                    opt_text(location),
                ),
            }),
    {
        match create_capsule(
            author,
            title,
            recipient,
            message,
            media_url,
            capsule_type,
            unlock_at,
            location,
            now,
        ) {
            Ok(rec) => {
                let handle = self.records.len();
                let ghost prev = self@;
                let ghost recv = rec@;
                self.records.push(rec);
                proof {
                    assert(self@ =~= prev.push(recv));
                }
                Ok(handle)
            },
            Err(e) => Err(e),
        }
    }

    /// Reads the record behind a handle: total for every handle `create`
    /// has returned, and always the very record that was created.
    pub fn read(&self, handle: usize) -> (r: &CapsuleMetadata)
        requires
            handle < self@.len(),
        ensures
            r@ == self@[handle as int],
    {
        &self.records[handle]
    }
}

} // verus!
