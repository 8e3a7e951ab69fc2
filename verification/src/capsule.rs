//! The capsule record: its data model and the unlock evaluator.
//!
//! A capsule is an append-once record owned by its author. Once created it is
//! never mutated; disclosure of its contents is gated by a pure decision
//! procedure over the current time and an optionally presented location.

use vstd::prelude::*;

verus! {

/// A 32-byte public identity, as ledger account addresses are written.
#[derive(Clone, Copy, Debug)]
pub struct Pubkey(pub [u8; 32]);

impl View for Pubkey {
    type V = Seq<u8>;

    open spec fn view(&self) -> Seq<u8> {
        self.0@
    }
}

impl Pubkey {
    /// Byte-for-byte equality of two identities.
    pub fn eq_key(&self, other: &Pubkey) -> (r: bool)
        ensures
            r == (self@ == other@),
    {
        let mut i: usize = 0;
        while i < 32
            invariant
                0 <= i <= 32,
                forall|j: int| 0 <= j < i ==> self.0@[j] == other.0@[j],
            decreases 32 - i,
        {
            if self.0[i] != other.0[i] {
                assert(self@[i as int] != other@[i as int]);
                return false;
            }
            i = i + 1;
        }
        proof {
            assert(self@ =~= other@);
        }
        true
    }
}

/// Disclosure mode of a capsule: unconditional, or gated on time.
#[derive(Clone, Copy, Debug, PartialEq, Eq, Structural)]
pub enum CapsuleType {
    General,
    TimeLocked,
}

/// Every negative outcome a capsule operation can report.
#[derive(Clone, Copy, Debug, PartialEq, Eq, Structural)]
pub enum CustomError {
    /// The invoker is not the record's author holding the mint authority.
    InvalidMintAuthority,
    /// The capsule's time gate has not opened yet.
    CapsuleLocked,
    /// The stored and the presented location both exist and differ.
    LocationMismatch,
    /// `title` exceeds its maximum encoded length.
    TitleTooLong,
    /// `message` exceeds its maximum encoded length.
    MessageTooLong,
    /// `media_url` exceeds its maximum encoded length.
    MediaUrlTooLong,
    /// `recipient` exceeds its maximum encoded length.
    RecipientTooLong,
    /// `location` exceeds its maximum encoded length.
    LocationTooLong,
}

/// The capsule record itself. Created once, then read-only.
pub struct CapsuleMetadata {
    pub author: Pubkey,
    pub title: String,
    pub recipient: String,
    pub message: String,
    pub media_url: String,
    pub created_at: i64,
    pub capsule_type: CapsuleType,
    pub unlock_at: Option<i64>,
    pub location: Option<String>,
}

/// Mathematical image of a record: every field as a plain value.
pub ghost struct CapsuleView {
    pub author: Seq<u8>,
    pub title: Seq<char>,
    pub recipient: Seq<char>,
    pub message: Seq<char>,
    pub media_url: Seq<char>,
    pub created_at: int,
    pub capsule_type: CapsuleType,
    pub unlock_at: Option<int>,
    pub location: Option<Seq<char>>,
}

/// The text of an optional field, as a sequence of characters.
pub open spec fn opt_text(o: Option<String>) -> Option<Seq<char>> {
    match o {
        Some(s) => Some(s@),
        None => None,
    }
}

/// An optional timestamp, as a mathematical integer.
pub open spec fn opt_time(o: Option<i64>) -> Option<int> {
    match o {
        Some(t) => Some(t as int),
        None => None,
    }
}

impl View for CapsuleMetadata {
    type V = CapsuleView;

    open spec fn view(&self) -> CapsuleView {
        CapsuleView {
            author: self.author@,
            title: self.title@,
            recipient: self.recipient@,
            message: self.message@,
            media_url: self.media_url@,
            created_at: self.created_at as int,
            capsule_type: self.capsule_type,
            unlock_at: opt_time(self.unlock_at),
            location: opt_text(self.location),
        }
    }
}

impl Clone for CapsuleMetadata {
    fn clone(&self) -> (res: Self)
        ensures
            res == *self,
    {
        CapsuleMetadata {
            author: self.author,
            title: self.title.clone(),
            recipient: self.recipient.clone(),
            message: self.message.clone(),
            media_url: self.media_url.clone(),
            created_at: self.created_at,
            capsule_type: self.capsule_type,
            unlock_at: self.unlock_at,
            location: match &self.location {
                Some(l) => Some(l.clone()),
                None => None,
            },
        }
    }
}

/// The time gate: open iff an unlock time is set and `now` has reached it.
/// A time-locked capsule without an unlock time never opens.
pub open spec fn time_gate_open(c: CapsuleView, now: int) -> bool {
    match c.unlock_at {
        Some(t) => now >= t,
        None => false,
    }
}

/// Whether the capsule may be unlocked at `now`, by time alone.
pub open spec fn spec_is_unlockable(c: CapsuleView, now: int) -> bool {
    match c.capsule_type {
        CapsuleType::General => true,
        CapsuleType::TimeLocked => time_gate_open(c, now),
    }
}

/// The location gate: enforced only when both a stored and a presented
/// location exist; then they must be exactly equal.
pub open spec fn location_gate_open(c: CapsuleView, presented: Option<Seq<char>>) -> bool {
    match (c.location, presented) {
        (Some(stored), Some(given)) => stored == given,
        _ => true,
    }
}

/// A `General` capsule is unlockable at any time whatsoever.
pub proof fn lemma_general_always_unlockable(c: CapsuleView, now: int)
    requires
        c.capsule_type == CapsuleType::General,
    ensures
        spec_is_unlockable(c, now),
{
}

/// A `TimeLocked` capsule without an unlock time is unlockable at no time:
/// it is permanently locked.
pub proof fn lemma_absent_unlock_time_never_unlockable(c: CapsuleView, now: int)
    requires
        c.capsule_type == CapsuleType::TimeLocked,
        c.unlock_at is None,
    ensures
        !spec_is_unlockable(c, now),
{
}

/// A `TimeLocked` capsule with unlock time `t` is unlockable exactly from
/// `t` on: at every `now`, unlockable iff `now >= t`.
pub proof fn lemma_unlock_time_reached_iff_unlockable(c: CapsuleView, now: int, t: int)
    requires
        c.capsule_type == CapsuleType::TimeLocked,
        c.unlock_at == Some(t),
    ensures
        spec_is_unlockable(c, now) <==> now >= t,
{
}

/// Disclosure never outruns the time gate: whenever the full gate chain of
/// a view permits returning the record, the capsule is unlockable at that
/// time.
pub proof fn lemma_disclosure_implies_unlockable(
    c: CapsuleView,
    now: int,
    presented: Option<Seq<char>>,
)
    requires
        c.capsule_type == CapsuleType::General || (time_gate_open(c, now) && location_gate_open(
            c,
            presented,
        )),
    ensures
        spec_is_unlockable(c, now),
{
}

/// Evaluates the time gate alone: `true` for every `General` capsule, and for
/// a `TimeLocked` one exactly when its unlock time is set and has passed.
pub fn is_unlockable(capsule: &CapsuleMetadata, now: i64) -> (r: bool)
    ensures
        r == spec_is_unlockable(capsule@, now as int),
{
    match capsule.capsule_type {
        CapsuleType::General => true,
        CapsuleType::TimeLocked => match capsule.unlock_at {
            Some(unlock_at) => now >= unlock_at,
            None => false,
        },
    }
}

/// Full gate chain over a record: a `General` capsule is returned
/// unconditionally; a `TimeLocked` one is returned iff its time gate is open
/// and the location gate holds, else it reports `CapsuleLocked` (time gate
/// shut) or `LocationMismatch` (time gate open, locations differ).
pub fn view_capsule(capsule: &CapsuleMetadata, now: i64, current_location: Option<String>) -> (r:
    Result<CapsuleMetadata, CustomError>)
    ensures
        r is Ok <==> capsule@.capsule_type == CapsuleType::General || (time_gate_open(
            capsule@,
            now as int,
        ) && location_gate_open(capsule@, opt_text(current_location))),
        r == Err::<CapsuleMetadata, CustomError>(CustomError::CapsuleLocked) <==> capsule@.capsule_type
            == CapsuleType::TimeLocked && !time_gate_open(capsule@, now as int),
        r == Err::<CapsuleMetadata, CustomError>(CustomError::LocationMismatch)
            <==> capsule@.capsule_type == CapsuleType::TimeLocked && time_gate_open(
            capsule@,
            now as int,
        ) && !location_gate_open(capsule@, opt_text(current_location)),
        (match r {
            Ok(rec) => rec@ == capsule@ && spec_is_unlockable(capsule@, now as int) && (
            capsule@.capsule_type == CapsuleType::General || location_gate_open(
                capsule@,
                opt_text(current_location),
            )),
            Err(e) => capsule@.capsule_type == CapsuleType::TimeLocked && ((e
                == CustomError::CapsuleLocked && !time_gate_open(capsule@, now as int)) || (e
                == CustomError::LocationMismatch && time_gate_open(capsule@, now as int)
                && !location_gate_open(capsule@, opt_text(current_location)))),
        }),
{
    if capsule.capsule_type == CapsuleType::General {
        return Ok(capsule.clone());
    }
    let time_condition_met: bool = match capsule.unlock_at {
        Some(unlock_at) => now >= unlock_at,
        None => false,
    };
    let location_condition_met: bool = if let Some(stored_loc) = &capsule.location {
        if let Some(input_loc) = &current_location {
            *stored_loc == *input_loc
        } else {
            true
        }
    } else {
        true
    };
    if !time_condition_met {
        return Err(CustomError::CapsuleLocked);
    }
    if !location_condition_met {
        return Err(CustomError::LocationMismatch);
    }
    Ok(capsule.clone())
}

} // verus!
