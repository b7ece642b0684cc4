use vstd::prelude::*;

use crate::segment::Segment;
use crate::text::same_text;

verus! {

/// The secrets the process runs with: one that authorizes publishing, and
/// one for each privileged segment that authorizes reading it. They are set
/// once and never change.
pub struct Credentials {
    admin: String,
    family: String,
    friend: String,
}

/// The secrets held by a credential store.
pub struct CredentialsView {
    pub admin: Seq<char>,
    pub family: Seq<char>,
    pub friend: Seq<char>,
}

impl View for Credentials {
    type V = CredentialsView;

    closed spec fn view(&self) -> CredentialsView {
        CredentialsView { admin: self.admin@, family: self.family@, friend: self.friend@ }
    }
}

/// Whether a claimed token authorizes publishing.
pub open spec fn may_publish(c: CredentialsView, token: Seq<char>) -> bool {
    token == c.admin
}

/// The segment a reader is served: a privileged segment only with its own
/// secret, the public one otherwise.
pub open spec fn effective_segment(
    c: CredentialsView,
    requested: Segment,
    token: Seq<char>,
) -> Segment {
    match requested {
        Segment::Family => if token == c.family {
            Segment::Family
        } else {
            Segment::Random
        },
        Segment::Friend => if token == c.friend {
            Segment::Friend
        } else {
            Segment::Random
        },
        Segment::Random => Segment::Random,
    }
}

impl Credentials {
    pub fn new(admin: String, family: String, friend: String) -> (r: Credentials)
        ensures
            r@ == (CredentialsView { admin: admin@, family: family@, friend: friend@ }),
    {
        Credentials { admin, family, friend }
    }

    pub fn admin_secret(&self) -> (r: &str)
        ensures
            r@ == self@.admin,
    {
        self.admin.as_str()
    }

    /// The secret of a privileged segment; the public segment has none.
    pub fn segment_secret(&self, s: Segment) -> (r: Option<&str>)
        ensures
            s == Segment::Family ==> (r matches Some(t) && t@ == self@.family),
            s == Segment::Friend ==> (r matches Some(t) && t@ == self@.friend),
            s == Segment::Random ==> r is None,
    {
        match s {
            Segment::Family => Some(self.family.as_str()),
            Segment::Friend => Some(self.friend.as_str()),
            Segment::Random => None,
        }
    }

    /// Decides whether a publish request carrying `token` may go ahead.
    pub fn authorize_publish(&self, token: &str) -> (r: bool)
        ensures
            r == may_publish(self@, token@),
    {
        same_text(token, self.admin_secret())
    }

    /// Decides which segment a view request for `requested` carrying `token` is served.
    pub fn resolve_view(&self, requested: Segment, token: &str) -> (r: Segment)
        ensures
            r == effective_segment(self@, requested, token@),
    {
        match self.segment_secret(requested) {
            Some(secret) => if same_text(token, secret) {
                requested
            } else {
                Segment::Random
            },
            None => Segment::Random,
        }
    }
}

} // verus!
