//! Record codec: the fixed storage layout of a capsule record and the
//! length validation of its variable-width fields.
//!
//! Every text field occupies a fixed maximum-width slot regardless of its
//! actual content, so a record's storage footprint is fully determined
//! before any content is known.

use vstd::prelude::*;
use crate::capsule::CustomError;

verus! {

/// Maximum encoded length, in bytes, of `title`.
pub const MAX_TITLE_LEN: usize = 64;

/// Maximum encoded length, in bytes, of `recipient`.
pub const MAX_RECIPIENT_LEN: usize = 64;

/// Maximum encoded length, in bytes, of `message`.
pub const MAX_MESSAGE_LEN: usize = 256;

/// Maximum encoded length, in bytes, of `media_url`.
pub const MAX_MEDIA_URL_LEN: usize = 256;

/// Maximum encoded length, in bytes, of `location`.
pub const MAX_LOCATION_LEN: usize = 64;

/// Bytes reserved for one record: an 8-byte account header, the 32-byte
/// author key, four length-prefixed text slots at their declared maxima,
/// the creation timestamp, a one-byte type tag, and the presence-tagged
/// optional unlock time and location slots.
pub const RECORD_SPACE: usize = 8 + 32 + (4 + 64) + (4 + 64) + (4 + 256) + (4 + 256) + 8 + 1 + (1
    + 8) + (1 + 4 + 64);

/// The length, in bytes, of a text's UTF-8 encoding.
pub open spec fn encoded_len(s: Seq<char>) -> nat {
    vstd::utf8::encode_utf8(s).len()
}

/// All field lengths are within their declared maxima.
pub open spec fn fields_valid(
    title: Seq<char>,
    recipient: Seq<char>,
    message: Seq<char>,
    media_url: Seq<char>,
    location: Option<Seq<char>>,
) -> bool {
    &&& encoded_len(title) <= MAX_TITLE_LEN as nat
    &&& encoded_len(recipient) <= MAX_RECIPIENT_LEN as nat
    &&& encoded_len(message) <= MAX_MESSAGE_LEN as nat
    &&& encoded_len(media_url) <= MAX_MEDIA_URL_LEN as nat
    &&& match location {
        Some(l) => encoded_len(l) <= MAX_LOCATION_LEN as nat,
        None => true,
    }
}

/// The error a violating input is rejected with: fields are checked in the
/// order title, message, media_url, recipient, location, and the first
/// violation found is reported.
pub open spec fn first_length_error(
    title: Seq<char>,
    recipient: Seq<char>,
    message: Seq<char>,
    media_url: Seq<char>,
    location: Option<Seq<char>>,
) -> Option<CustomError> {
    if encoded_len(title) > MAX_TITLE_LEN as nat {
        Some(CustomError::TitleTooLong)
    } else if encoded_len(message) > MAX_MESSAGE_LEN as nat {
        Some(CustomError::MessageTooLong)
    } else if encoded_len(media_url) > MAX_MEDIA_URL_LEN as nat {
        Some(CustomError::MediaUrlTooLong)
    } else if encoded_len(recipient) > MAX_RECIPIENT_LEN as nat {
        Some(CustomError::RecipientTooLong)
    } else if location matches Some(l) && encoded_len(l) > MAX_LOCATION_LEN as nat {
        Some(CustomError::LocationTooLong)
    } else {
        None
    }
}

/// The encoded length of a text, read off its UTF-8 bytes.
fn text_len(s: &String) -> (n: usize)
    ensures
        n == encoded_len(s@),
{
    s.as_str().as_bytes().len()
}

/// Validates every variable-width field against its declared maximum.
/// Accepts exactly the inputs on which every field fits; a violating input
/// is rejected with the error `first_length_error` names, and nothing is
/// ever truncated.
pub fn validate_fields(
    title: &String,
    recipient: &String,
    message: &String,
    media_url: &String,
    location: &Option<String>,
) -> (r: Result<(), CustomError>)
    ensures
        r is Ok <==> fields_valid(
            title@,
            recipient@,
            message@,
            media_url@,
            crate::capsule::opt_text(*location),
        ),
        (match r {
            Ok(()) => first_length_error(
                title@,
                recipient@,
                message@,
                media_url@,
                crate::capsule::opt_text(*location),
            ) is None,
            Err(e) => Some(e) == first_length_error(
                title@,
                recipient@,
                message@,
                media_url@,
                crate::capsule::opt_text(*location),
            ),
        }),
{
    if text_len(title) > MAX_TITLE_LEN {
        return Err(CustomError::TitleTooLong);
    }
    if text_len(message) > MAX_MESSAGE_LEN {
        return Err(CustomError::MessageTooLong);
    }
    if text_len(media_url) > MAX_MEDIA_URL_LEN {
        return Err(CustomError::MediaUrlTooLong);
    }
    if text_len(recipient) > MAX_RECIPIENT_LEN {
        return Err(CustomError::RecipientTooLong);
    }
    if let Some(loc) = location {
        if text_len(loc) > MAX_LOCATION_LEN {
            return Err(CustomError::LocationTooLong);
        }
    }
    Ok(())
}

/// The exact storage size a record requires: a function of the declared
/// maxima alone, independent of the content actually stored.
pub fn required_space() -> (n: usize)
    ensures
        n == RECORD_SPACE,
{
    RECORD_SPACE
}

} // verus!
