use vstd::prelude::*;

use crate::record::{opt_view, RecordView, StatusRecord};
use crate::segment::Segment;

verus! {

/// The status records of the three segments, one each. Publishing replaces
/// a segment's record whole; the others are left alone.
pub struct Repository {
    family: StatusRecord,
    friend: StatusRecord,
    random: StatusRecord,
}

/// The records of all three segments.
pub struct ShelfView {
    pub family: RecordView,
    pub friend: RecordView,
    pub random: RecordView,
}

impl ShelfView {
    /// Every segment cleared.
    pub open spec fn fresh() -> ShelfView {
        ShelfView {
            family: RecordView::cleared(),
            friend: RecordView::cleared(),
            random: RecordView::cleared(),
        }
    }

    pub open spec fn get(self, s: Segment) -> RecordView {
        match s {
            Segment::Family => self.family,
            Segment::Friend => self.friend,
            Segment::Random => self.random,
        }
    }

    /// The shelf after `r` has replaced the record of `s`.
    pub open spec fn put(self, s: Segment, r: RecordView) -> ShelfView {
        match s {
            Segment::Family => ShelfView { family: r, ..self },
            Segment::Friend => ShelfView { friend: r, ..self },
            Segment::Random => ShelfView { random: r, ..self },
        }
    }

    /// What a reader of `s` gets: nothing when its record is cleared.
    pub open spec fn load(self, s: Segment) -> Option<RecordView> {
        self.get(s).loaded()
    }
}

impl View for Repository {
    type V = ShelfView;

    closed spec fn view(&self) -> ShelfView {
        ShelfView { family: self.family@, friend: self.friend@, random: self.random@ }
    }
}

fn copy_record(r: &StatusRecord) -> (c: StatusRecord)
    ensures
        c@ == r@,
{
    StatusRecord { title: r.title.clone(), text: r.text.clone(), image: r.image.clone() }
}

impl Repository {
    /// A repository in which no segment has a status.
    pub fn new() -> (r: Repository)
        ensures
            r@ == ShelfView::fresh(),
    {
        Repository {
            family: StatusRecord::empty(),
            friend: StatusRecord::empty(),
            random: StatusRecord::empty(),
        }
    }

    /// A repository holding the given records, as read back from storage.
    pub fn from_records(family: StatusRecord, friend: StatusRecord, random: StatusRecord) -> (r:
        Repository)
        ensures
            r@ == (ShelfView { family: family@, friend: friend@, random: random@ }),
    {
        Repository { family, friend, random }
    }

    /// The record that `s` holds now, cleared or not.
    pub fn record(&self, s: Segment) -> (r: &StatusRecord)
        ensures
            r@ == self@.get(s),
    {
        match s {
            Segment::Family => &self.family,
            Segment::Friend => &self.friend,
            Segment::Random => &self.random,
        }
    }

    /// Replaces the record of `s` with `r`, all three fields at once.
    pub fn publish(&mut self, s: Segment, r: StatusRecord)
        ensures
            final(self)@ == old(self)@.put(s, r@),
    {
        match s {
            Segment::Family => self.family = r,
            Segment::Friend => self.friend = r,
            Segment::Random => self.random = r,
        }
    }

    /// The status of `s`, or `None` when it has none.
    pub fn load(&self, s: Segment) -> (r: Option<StatusRecord>)
        ensures
            opt_view(r) == self@.load(s),
    {
        let rec = self.record(s);
        if rec.is_cleared() {
            None
        } else {
            Some(copy_record(rec))
        }
    }
}

} // verus!
