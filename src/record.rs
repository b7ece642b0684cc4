use vstd::prelude::*;

verus! {

/// Longest title accepted, in characters.
pub const TITLE_LIMIT: usize = 50;

/// Longest text accepted, in characters.
pub const TEXT_LIMIT: usize = 500;

/// Longest encoded image accepted, in characters.
pub const IMAGE_LIMIT: usize = 14000000;

/// A status as published for one segment: a title, a text and a
/// base64-encoded image, any of which may be empty.
#[derive(Debug)]
pub struct StatusRecord {
    pub title: String,
    pub text: String,
    pub image: String,
}

/// The contents of a record.
pub struct RecordView {
    pub title: Seq<char>,
    pub text: Seq<char>,
    pub image: Seq<char>,
}

impl RecordView {
    /// The cleared record: all three fields empty, which stands for "no status".
    pub open spec fn cleared() -> RecordView {
        RecordView { title: Seq::empty(), text: Seq::empty(), image: Seq::empty() }
    }

    pub open spec fn is_cleared(self) -> bool {
        self.title.len() == 0 && self.text.len() == 0 && self.image.len() == 0
    }

    pub open spec fn within_limits(self) -> bool {
        self.title.len() <= TITLE_LIMIT && self.text.len() <= TEXT_LIMIT && self.image.len()
            <= IMAGE_LIMIT
    }

    /// What a reader gets from a segment holding this record: nothing when it
    /// is cleared, the record itself otherwise.
    pub open spec fn loaded(self) -> Option<RecordView> {
        if self.is_cleared() {
            None
        } else {
            Some(self)
        }
    }
}

impl View for StatusRecord {
    type V = RecordView;

    open spec fn view(&self) -> RecordView {
        RecordView { title: self.title@, text: self.text@, image: self.image@ }
    }
}

/// The view of an optional record.
pub open spec fn opt_view(r: Option<StatusRecord>) -> Option<RecordView> {
    match r {
        Some(x) => Some(x@),
        None => None,
    }
}

impl StatusRecord {
    pub fn new(title: String, text: String, image: String) -> (r: StatusRecord)
        ensures
            r@ == (RecordView { title: title@, text: text@, image: image@ }),
    {
        StatusRecord { title, text, image }
    }

    /// The cleared record.
    pub fn empty() -> (r: StatusRecord)
        ensures
            r@ == RecordView::cleared(),
    {
        StatusRecord { title: String::new(), text: String::new(), image: String::new() }
    }

    pub fn is_cleared(&self) -> (r: bool)
        ensures
            r == self@.is_cleared(),
    {
        self.title.as_str().unicode_len() == 0 && self.text.as_str().unicode_len() == 0
            && self.image.as_str().unicode_len() == 0
    }

    /// Whether each field keeps to its size bound.
    pub fn within_limits(&self) -> (r: bool)
        ensures
            r == self@.within_limits(),
    {
        self.title.as_str().unicode_len() <= TITLE_LIMIT && self.text.as_str().unicode_len()
            <= TEXT_LIMIT && self.image.as_str().unicode_len() <= IMAGE_LIMIT
    }

    /// A record read back from storage: `None` when all three fields are empty.
    pub fn from_fields(title: String, text: String, image: String) -> (r: Option<StatusRecord>)
        ensures
            opt_view(r) == (RecordView { title: title@, text: text@, image: image@ }).loaded(),
    {
        let rec = StatusRecord::new(title, text, image);
        if rec.is_cleared() {
            None
        } else {
            Some(rec)
        }
    }
}

} // verus!
