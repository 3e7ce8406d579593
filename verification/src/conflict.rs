//! Conflicts between the records of two editing sessions, and the list of
//! writes that settling them produces.

use crate::error::FanlingError;
use crate::yaml::yaml_text;
use vstd::prelude::*;

verus! {

/// One side of a conflict: the record that a session left, and the number
/// of the revision that wrote it. Of two revisions the one with the higher
/// number is the later.
#[derive(Clone, Debug, PartialEq, Eq)]
pub struct Side {
    /// The number of the revision.
    pub revision: u64,
    /// The record, as the text that was persisted.
    pub record: Vec<u8>,
}

/// What a [`Side`] holds.
pub struct SideView {
    /// The number of the revision.
    pub revision: u64,
    /// The record.
    pub record: Seq<u8>,
}

impl View for Side {
    type V = SideView;

    open spec fn view(&self) -> SideView {
        SideView { revision: self.revision, record: self.record@ }
    }
}

/// Two records of one item that diverged, with the record that both
/// started from where it is known. A conflict is found by a merge and lives
/// only while the merge settles it.
#[derive(Clone, Debug, PartialEq, Eq)]
pub struct Conflict {
    /// The identifier of the item.
    pub ident: String,
    /// The tag of the item's kind.
    pub kind: String,
    /// The record of this session.
    pub ours: Side,
    /// The record of the other session.
    pub theirs: Side,
    /// The record that both sessions started from, if it is known.
    pub ancestor: Option<Vec<u8>>,
}

/// What a [`Conflict`] holds.
pub struct ConflictView {
    /// The identifier of the item.
    pub ident: Seq<char>,
    /// The tag of the item's kind.
    pub kind: Seq<char>,
    /// The record of this session.
    pub ours: SideView,
    /// The record of the other session.
    pub theirs: SideView,
    /// The record that both sessions started from, if it is known.
    pub ancestor: Option<Seq<u8>>,
}

impl View for Conflict {
    type V = ConflictView;

    open spec fn view(&self) -> ConflictView {
        ConflictView {
            ident: self.ident@,
            kind: self.kind@,
            ours: self.ours@,
            theirs: self.theirs@,
            ancestor: match self.ancestor {
                Some(record) => Some(record@),
                None => None,
            },
        }
    }
}

/// How a kind settles a field that both sessions changed, each in its own
/// way.
#[derive(Clone, Copy, Debug, PartialEq, Eq, Structural)]
pub enum TieBreak {
    /// Never pick a side: hand the conflict to a person.
    Escalate,
    /// The later revision wins; two revisions of one number are handed to a
    /// person.
    LastWriteWins,
}

/// The side that a tie-break prefers.
#[derive(Clone, Copy, Debug, PartialEq, Eq, Structural)]
pub enum Preference {
    /// This session's value.
    Ours,
    /// The other session's value.
    Theirs,
    /// Neither: the conflict is escalated.
    Neither,
}

impl TieBreak {
    /// The side that the tie-break prefers, given the revision numbers of
    /// the two sides.
    pub open spec fn spec_preference(self, ours: u64, theirs: u64) -> Preference {
        match self {
            TieBreak::Escalate => Preference::Neither,
            TieBreak::LastWriteWins => if ours > theirs {
                Preference::Ours
            } else if theirs > ours {
                Preference::Theirs
            } else {
                Preference::Neither
            },
        }
    }

    /// The side that the tie-break prefers, given the revision numbers of
    /// the two sides.
    pub fn preference(self, ours: u64, theirs: u64) -> (res: Preference)
        ensures
            res == self.spec_preference(ours, theirs),
    {
        match self {
            TieBreak::Escalate => Preference::Neither,
            TieBreak::LastWriteWins => if ours > theirs {
                Preference::Ours
            } else if theirs > ours {
                Preference::Theirs
            } else {
                Preference::Neither
            },
        }
    }
}

/// The value of one field after a merge, or nothing where the conflict
/// must be escalated. A value that both sides agree on stands. Where only
/// one side changed what both started from, the change stands. Where both
/// changed it, or the start is unknown, the preferred side gives the value.
pub open spec fn spec_merge_field(
    ours: Seq<char>,
    theirs: Seq<char>,
    ancestor: Option<Seq<char>>,
    pick: Preference,
) -> Option<Seq<char>> {
    if ours == theirs {
        Some(ours)
    } else if ancestor == Some(ours) {
        Some(theirs)
    } else if ancestor == Some(theirs) {
        Some(ours)
    } else {
        match pick {
            Preference::Ours => Some(ours),
            Preference::Theirs => Some(theirs),
            Preference::Neither => None,
        }
    }
}

/// Merges one field: see [`spec_merge_field`].
pub fn merge_field(
    ours: &String,
    theirs: &String,
    ancestor: Option<&String>,
    pick: Preference,
) -> (res: Option<String>)
    ensures
        res is Some <==> spec_merge_field(
            ours@,
            theirs@,
            match ancestor {
                Some(a) => Some(a@),
                None => None,
            },
            pick,
        ) is Some,
        res matches Some(value) ==> Some(value@) == spec_merge_field(
            ours@,
            theirs@,
            match ancestor {
                Some(a) => Some(a@),
                None => None,
            },
            pick,
        ),
{
    if *ours == *theirs {
        return Some(ours.clone());
    }
    match ancestor {
        Some(a) => {
            if *a == *ours {
                return Some(theirs.clone());
            }
            if *a == *theirs {
                return Some(ours.clone());
            }
        },
        None => {},
    }
    match pick {
        Preference::Ours => Some(ours.clone()),
        Preference::Theirs => Some(theirs.clone()),
        Preference::Neither => None,
    }
}

/// What a kind's policy makes of a conflict.
pub enum Resolution {
    /// One of the records cannot be read: what is wrong with the first
    /// that cannot.
    Malformed(Seq<char>),
    /// No safe merge exists: a person must choose.
    Escalated,
    /// The records merge into the record with these fields.
    Merged(Seq<(Seq<char>, Seq<char>)>),
}

/// What settling `conflict` does, given what the policy makes of it: a
/// merged record is written at the end of the list, and the call succeeds;
/// in every other case the call fails and the list stays as it was. A
/// record that cannot be read fails as malformed, and the failure says what
/// is wrong with it. An escalation hands back both records as they were
/// found. There is no other outcome.
pub open spec fn settled(
    conflict: ConflictView,
    resolution: Resolution,
    before: Seq<ChangeView>,
    after: Seq<ChangeView>,
    res: Result<(), FanlingError>,
) -> bool {
    match resolution {
        Resolution::Malformed(words) => {
            &&& res matches Err(FanlingError::Deserialize(m))
            &&& m@ == words
            &&& after == before
        },
        Resolution::Escalated => {
            &&& res matches Err(FanlingError::ConflictUnresolvable(e))
            &&& e.ident@ == conflict.ident
            &&& e.ours@ == conflict.ours.record
            &&& e.theirs@ == conflict.theirs.record
            &&& after == before
        },
        Resolution::Merged(record) => res is Ok && after == before.push(
            ChangeView { ident: conflict.ident, record: yaml_text(record) },
        ),
    }
}

/// One pending write: the record that an item is to have.
#[derive(Clone, Debug, PartialEq, Eq)]
pub struct Change {
    /// The identifier of the item.
    pub ident: String,
    /// The record to persist.
    pub record: Vec<u8>,
}

/// What a [`Change`] holds.
pub struct ChangeView {
    /// The identifier of the item.
    pub ident: Seq<char>,
    /// The record to persist.
    pub record: Seq<u8>,
}

impl View for Change {
    type V = ChangeView;

    open spec fn view(&self) -> ChangeView {
        ChangeView { ident: self.ident@, record: self.record@ }
    }
}

/// The views of the changes in `s`, in order.
pub open spec fn changes_view(s: Seq<Change>) -> Seq<ChangeView> {
    Seq::new(s.len(), |i: int| s[i]@)
}

/// The writes that settling the conflicts of one merge has produced so
/// far. The list only grows: nothing that was written to it is removed or
/// overwritten. It is handed over as a whole, once, to be persisted.
#[derive(Debug)]
pub struct ChangeList {
    changes: Vec<Change>,
}

impl View for ChangeList {
    type V = Seq<ChangeView>;

    closed spec fn view(&self) -> Seq<ChangeView> {
        changes_view(self.changes@)
    }
}

impl ChangeList {
    /// The list without any write.
    pub fn new() -> (res: Self)
        ensures
            res@ == Seq::<ChangeView>::empty(),
    {
        let res = ChangeList { changes: Vec::new() };
        assert(changes_view(res.changes@) =~= Seq::empty());
        res
    }

    /// Adds `change` at the end of the list.
    pub fn push(&mut self, change: Change)
        ensures
            final(self)@ == old(self)@.push(change@),
    {
        let ghost before = self.changes@;
        self.changes.push(change);
        assert(changes_view(self.changes@) =~= changes_view(before).push(change@));
    }

    /// Adds the write of a record for the item `ident`, given what became
    /// of the attempt to write the record out: the text is added at the end
    /// of the list; a failure is handed on and leaves the list as it was.
    pub fn record(&mut self, ident: &str, written: Result<Vec<u8>, FanlingError>) -> (res: Result<
        (),
        FanlingError,
    >)
        ensures
            match written {
                Ok(bytes) => res is Ok && final(self)@ == old(self)@.push(
                    ChangeView { ident: ident@, record: bytes@ },
                ),
                Err(e) => res == Err::<(), FanlingError>(e) && final(self)@ == old(self)@,
            },
    {
        match written {
            Ok(record) => {
                self.push(Change { ident: ident.to_owned(), record });
                Ok(())
            },
            Err(e) => Err(e),
        }
    }

    /// The number of writes in the list.
    pub fn len(&self) -> (res: usize)
        ensures
            res == self@.len(),
    {
        self.changes.len()
    }

    /// The writes, in the order in which they were added.
    pub fn changes(&self) -> (res: &Vec<Change>)
        ensures
            changes_view(res@) == self@,
    {
        &self.changes
    }

    /// Hands the writes over to be persisted, and ends the list with that.
    pub fn into_changes(self) -> (res: Vec<Change>)
        ensures
            changes_view(res@) == self@,
    {
        self.changes
    }
}

} // verus!
