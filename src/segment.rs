use vstd::prelude::*;

use crate::text::same_text;

verus! {

/// An audience segment. `Random` is the public one; the other two are
/// privileged and need a secret to be read.
#[derive(Debug, Clone, Copy, PartialEq, Eq, Structural)]
pub enum Segment {
    Family,
    Friend,
    Random,
}

/// The wire name of a segment, as it appears in requests.
pub open spec fn wire_name(s: Segment) -> Seq<char> {
    match s {
        Segment::Family => "family"@,
        Segment::Friend => "friend"@,
        Segment::Random => "random"@,
    }
}

/// The label a rendered page shows for a segment.
pub open spec fn label_of(s: Segment) -> Seq<char> {
    match s {
        Segment::Family => "Family"@,
        Segment::Friend => "Friend"@,
        Segment::Random => "Random"@,
    }
}

/// The segment whose wire name is `t`, if any.
pub open spec fn parse_spec(t: Seq<char>) -> Option<Segment> {
    if t == wire_name(Segment::Family) {
        Some(Segment::Family)
    } else if t == wire_name(Segment::Friend) {
        Some(Segment::Friend)
    } else if t == wire_name(Segment::Random) {
        Some(Segment::Random)
    } else {
        None
    }
}

/// The segment a view request asks for: a missing or unknown name means `Random`.
pub open spec fn requested_spec(t: Option<Seq<char>>) -> Segment {
    match t {
        Some(t) => match parse_spec(t) {
            Some(s) => s,
            None => Segment::Random,
        },
        None => Segment::Random,
    }
}

impl Segment {
    pub const ALL: [Segment; 3] = [Segment::Family, Segment::Friend, Segment::Random];

    pub fn name(&self) -> (r: &'static str)
        ensures
            r@ == wire_name(*self),
    {
        match self {
            Segment::Family => "family",
            Segment::Friend => "friend",
            Segment::Random => "random",
        }
    }

    pub fn label(&self) -> (r: &'static str)
        ensures
            r@ == label_of(*self),
    {
        match self {
            Segment::Family => "Family",
            Segment::Friend => "Friend",
            Segment::Random => "Random",
        }
    }

    /// Reads a wire name; anything but the three names is `None`.
    pub fn parse(t: &str) -> (r: Option<Segment>)
        ensures
            r == parse_spec(t@),
    {
        if same_text(t, "family") {
            Some(Segment::Family)
        } else if same_text(t, "friend") {
            Some(Segment::Friend)
        } else if same_text(t, "random") {
            Some(Segment::Random)
        } else {
            None
        }
    }

    /// The segment a view request names, `Random` when it names none or an unknown one.
    pub fn requested(t: Option<&str>) -> (r: Segment)
        ensures
            r == requested_spec(
                match t {
                    Some(t) => Some(t@),
                    None => None,
                },
            ),
    {
        match t {
            Some(t) => match Segment::parse(t) {
                Some(s) => s,
                None => Segment::Random,
            },
            None => Segment::Random,
        }
    }
}

} // verus!
