//! The cached feature database: one file, trusted only while it is young
//! enough and decodes cleanly, and removed on any other outcome.
//!
//! [`ArtifactSlot`] holds what the file is known to be. Its methods decide
//! what a read yields and what the file must become; the caller mirrors a
//! change of [`ArtifactSlot::entry`] onto the disk (writing the new bytes, or
//! deleting the file where the entry became [`Stored::Missing`]).

use vstd::prelude::*;

use crate::clock::{Timestamp, NANOS_PER_SEC};
use crate::codec::{compress, decompress, zstd_decoded};

verus! {

/// How long a cached artifact stays valid: four hours.
pub const MAX_AGE_SECS: u64 = 14400;

/// What the backing file holds, as far as a read could tell.
pub enum Stored {
    /// No file: nothing has been cached yet, or it was removed.
    Missing,
    /// A file exists but could not be read, or its metadata could not.
    Unreadable,
    /// The file's bytes and the instant it was created.
    Present { bytes: Vec<u8>, created: Timestamp },
}

/// The single cache slot of the artifact.
pub struct ArtifactSlot {
    pub entry: Stored,
}

/// A file created at `created` may still be trusted at `now`: at most four
/// hours separate its creation from `now`. A creation time after `now` is
/// no reason for distrust.
pub open spec fn is_fresh(created: Timestamp, now: Timestamp) -> bool {
    now.total_nanos() - created.total_nanos() <= MAX_AGE_SECS as int * NANOS_PER_SEC as int
}

/// The value a read of `entry` at `now` yields, if any.
pub open spec fn load_value(entry: Stored, now: Timestamp) -> Option<Seq<u8>> {
    match entry {
        Stored::Present { bytes, created } => if is_fresh(created, now) {
            zstd_decoded(bytes@)
        } else {
            None
        },
        _ => None,
    }
}

/// A read of `entry` at `now` leaves the file in place: there was none, or
/// it yielded a value. Every other outcome removes it.
pub open spec fn survives_load(entry: Stored, now: Timestamp) -> bool {
    entry is Missing || load_value(entry, now) is Some
}

/// `entry` is what writing `payload` at `at` leaves behind: a file created
/// at `at` whose bytes decode to `payload`.
pub open spec fn written(entry: Stored, payload: Seq<u8>, at: Timestamp) -> bool {
    entry matches Stored::Present { bytes, created } && created == at && zstd_decoded(bytes@)
        == Some(payload)
}

impl ArtifactSlot {
    /// A slot over a file in the state `entry`.
    pub fn new(entry: Stored) -> (r: ArtifactSlot)
        ensures
            r.entry == entry,
    {
        ArtifactSlot { entry }
    }

    /// Reads the cached value at `now`.
    ///
    /// Returns the decompressed bytes of a fresh, well-formed file. A missing
    /// file yields `None` and changes nothing. An unreadable, stale or
    /// malformed file yields `None` and is removed.
    pub fn load(&mut self, now: &Timestamp) -> (r: Option<Vec<u8>>)
        ensures
            r is Some <==> load_value(old(self).entry, *now) is Some,
            r matches Some(v) ==> load_value(old(self).entry, *now) == Some(v@),
            final(self).entry == (if survives_load(old(self).entry, *now) {
                old(self).entry
            } else {
                Stored::Missing
            }),
    {
        let decoded = match &self.entry {
            Stored::Missing => {
                return None;
            },
            Stored::Unreadable => None,
            Stored::Present { bytes, created } => {
                if !now.exceeds(created, MAX_AGE_SECS) {
                    decompress(bytes)
                } else {
                    None
                }
            },
        };
        if decoded.is_none() {
            self.discard();
        }
        decoded
    }

    /// Removes the file, whatever it held.
    pub fn discard(&mut self)
        ensures
            final(self).entry is Missing,
    {
        self.entry = Stored::Missing;
    }

    /// Settles a read whose bytes the caller went on to decode into a value:
    /// where that decoding failed (`decoded` is `None`) the file is removed,
    /// as for any other unusable file; otherwise nothing changes. Returns
    /// `decoded`.
    pub fn settle<T>(&mut self, decoded: Option<T>) -> (r: Option<T>)
        ensures
            r == decoded,
            decoded is None ==> final(self).entry is Missing,
            decoded is Some ==> final(self).entry == old(self).entry,
    {
        if decoded.is_none() {
            self.discard();
        }
        decoded
    }

    /// Records the outcome of a write at `now`: the compressed bytes where
    /// compression succeeded (a new file, created at `now`), else no file.
    pub fn place(&mut self, frame: Option<Vec<u8>>, now: &Timestamp)
        ensures
            final(self).entry == (match frame {
                Some(bytes) => Stored::Present { bytes, created: *now },
                None => Stored::Missing,
            }),
    {
        match frame {
            Some(bytes) => {
                self.entry = Stored::Present { bytes, created: *now };
            },
            None => {
                self.discard();
            },
        }
    }

    /// Writes `payload` at `now`, replacing whatever the slot held: the slot
    /// then holds a new file, created at `now`, whose bytes decompress to
    /// `payload`.
    pub fn store(&mut self, payload: &Vec<u8>, now: &Timestamp)
        ensures
            written(final(self).entry, payload@, *now),
    {
        let frame = compress(payload);
        self.place(frame, now);
    }
}

/// A file written with `payload` at `written_at` yields `payload` at any
/// `now` up to four hours after `written_at`; at any later `now` it yields
/// nothing and the read removes the file.
pub proof fn lemma_ttl_boundary(entry: Stored, payload: Seq<u8>, written_at: Timestamp, now: Timestamp)
    requires
        written(entry, payload, written_at),
    ensures
        now.total_nanos() - written_at.total_nanos() <= MAX_AGE_SECS as int * NANOS_PER_SEC as int
            ==> load_value(
            entry,
            now,
        ) == Some(payload) && survives_load(entry, now),
        now.total_nanos() - written_at.total_nanos() > MAX_AGE_SECS as int * NANOS_PER_SEC as int
            ==> load_value(entry, now) is None && !survives_load(entry, now),
{
}

/// A file whose bytes are not a well-formed compressed stream yields nothing
/// and is removed by the read; reading again yields nothing and changes
/// nothing. Bytes that decompress but do not decode into a value are removed
/// by [`ArtifactSlot::settle`].
pub proof fn lemma_corruption_self_heal(bytes: Vec<u8>, created: Timestamp, now: Timestamp, later: Timestamp)
    requires
        zstd_decoded(bytes@) is None,
    ensures
        load_value(Stored::Present { bytes, created }, now) is None,
        !survives_load(Stored::Present { bytes, created }, now),
        load_value(Stored::Missing, later) is None,
        survives_load(Stored::Missing, later),
{
}

/// A value written at `at` and read back at that same instant is the value
/// that was written.
pub proof fn lemma_round_trip(entry: Stored, payload: Seq<u8>, at: Timestamp)
    requires
        written(entry, payload, at),
    ensures
        load_value(entry, at) == Some(payload),
        survives_load(entry, at),
{
}

/// Writing again over a file that has gone stale makes an immediate read
/// succeed: the new file's age counts from the new write.
pub proof fn lemma_replace_resets_freshness(
    old_entry: Stored,
    new_entry: Stored,
    payload: Seq<u8>,
    at: Timestamp,
)
    requires
        load_value(old_entry, at) is None,
        written(new_entry, payload, at),
    ensures
        load_value(new_entry, at) == Some(payload),
{
}

} // verus!
