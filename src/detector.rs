//! Change detection on the watched file: the comparison of two fingerprints
//! taken one poll interval apart.
use vstd::prelude::*;

verus! {

/// A snapshot of the watched file at one poll instant.
#[derive(Clone, Copy, Debug, PartialEq, Eq, Structural)]
pub enum Fingerprint {
    /// The file does not exist.
    Absent,
    /// The file exists; the whole seconds elapsed since it was created.
    Present(u64),
    /// Its metadata could not be read for another reason than absence.
    Unreadable,
}

/// What one poll tick concludes.
#[derive(Clone, Copy, Debug, PartialEq, Eq, Structural)]
pub enum PollVerdict {
    /// The file was replaced: a reload is requested.
    Changed,
    /// The file is present at both samples and was not replaced.
    Unchanged,
    /// The file is absent at a sample; it is assumed to be rewritten.
    InTransition,
    /// Its metadata could not be read: detection stops with an error.
    Failed,
}

/// The verdict on two fingerprints taken one poll interval apart. The first
/// sample that is not present decides; a change of the inferred creation age
/// is taken as a replacement of the file.
pub open spec fn verdict_of(first: Fingerprint, second: Fingerprint) -> PollVerdict {
    match (first, second) {
        (Fingerprint::Present(a), Fingerprint::Present(b)) => if a != b {
            PollVerdict::Changed
        } else {
            PollVerdict::Unchanged
        },
        (Fingerprint::Absent, _) => PollVerdict::InTransition,
        (Fingerprint::Unreadable, _) => PollVerdict::Failed,
        (Fingerprint::Present(_), Fingerprint::Absent) => PollVerdict::InTransition,
        (Fingerprint::Present(_), Fingerprint::Unreadable) => PollVerdict::Failed,
    }
}

/// Compares two fingerprints of the watched file taken one poll interval apart.
pub fn compare_fingerprints(first: Fingerprint, second: Fingerprint) -> (r: PollVerdict)
    ensures
        r == verdict_of(first, second),
        r == PollVerdict::Changed <==> (first is Present && second is Present && first
            != second),
        (first is Absent || second is Absent) ==> r != PollVerdict::Changed,
{
    match first {
        Fingerprint::Absent => PollVerdict::InTransition,
        Fingerprint::Unreadable => PollVerdict::Failed,
        Fingerprint::Present(a) => match second {
            Fingerprint::Present(b) => {
                if a != b {
                    PollVerdict::Changed
                } else {
                    PollVerdict::Unchanged
                }
            },
            Fingerprint::Absent => PollVerdict::InTransition,
            Fingerprint::Unreadable => PollVerdict::Failed,
        },
    }
}

/// The watched file being absent at either sample or both requests no reload;
/// and unless the first sample could not be read, no error is raised either.
pub proof fn lemma_absence_tolerated(first: Fingerprint, second: Fingerprint)
    requires
        first is Absent || second is Absent,
    ensures
        verdict_of(first, second) != PollVerdict::Changed,
        first != Fingerprint::Unreadable ==> verdict_of(first, second)
            == PollVerdict::InTransition,
{
}

} // verus!
