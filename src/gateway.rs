use vstd::prelude::*;

use crate::access::{effective_segment, may_publish, Credentials, CredentialsView};
use crate::html::{generate_html, page_spec};
use crate::record::{RecordView, StatusRecord};
use crate::repository::{Repository, ShelfView};
use crate::segment::{parse_spec, requested_spec, Segment};

verus! {

/// Why a publish request was turned down.
#[derive(Debug, Clone, Copy, PartialEq, Eq, Structural)]
pub enum PublishError {
    /// The admin token did not match.
    Unauthorized,
    /// The segment name is unknown, or a field is over its bound.
    Unprocessable,
}

impl PublishError {
    /// The HTTP status that reports this error.
    pub fn status_code(&self) -> (r: u16)
        ensures
            *self == PublishError::Unauthorized ==> r == 401,
            *self == PublishError::Unprocessable ==> r == 422,
    {
        match self {
            PublishError::Unauthorized => 401,
            PublishError::Unprocessable => 422,
        }
    }
}

/// A publish request as it arrives: the target segment's wire name, the
/// admin token, and the three fields of the new record.
#[derive(Debug, Clone)]
pub struct PublishRequest {
    pub role: String,
    pub session: String,
    pub title: String,
    pub text: String,
    pub image: String,
}

/// The contents of a publish request.
pub struct RequestView {
    pub role: Seq<char>,
    pub session: Seq<char>,
    pub title: Seq<char>,
    pub text: Seq<char>,
    pub image: Seq<char>,
}

impl View for PublishRequest {
    type V = RequestView;

    open spec fn view(&self) -> RequestView {
        RequestView {
            role: self.role@,
            session: self.session@,
            title: self.title@,
            text: self.text@,
            image: self.image@,
        }
    }
}

impl RequestView {
    /// The record that the request would publish.
    pub open spec fn record(self) -> RecordView {
        RecordView { title: self.title, text: self.text, image: self.image }
    }
}

/// What becomes of a publish request, checked in this order: the admin
/// token, then the segment name, then the size bounds. On success, the
/// segment and the record to store there.
pub open spec fn publish_decision(c: CredentialsView, q: RequestView) -> Result<
    (Segment, RecordView),
    PublishError,
> {
    if !may_publish(c, q.session) {
        Err(PublishError::Unauthorized)
    } else {
        match parse_spec(q.role) {
            None => Err(PublishError::Unprocessable),
            Some(s) => if q.record().within_limits() {
                Ok((s, q.record()))
            } else {
                Err(PublishError::Unprocessable)
            },
        }
    }
}

/// The records after a publish request: changed only when it is accepted.
pub open spec fn after_publish(v: ShelfView, c: CredentialsView, q: RequestView) -> ShelfView {
    match publish_decision(c, q) {
        Ok((s, r)) => v.put(s, r),
        Err(_) => v,
    }
}

/// The page that a view request for `requested` with `token` is answered with.
pub open spec fn view_response(
    v: ShelfView,
    c: CredentialsView,
    requested: Segment,
    token: Seq<char>,
) -> Seq<char> {
    let s = effective_segment(c, requested, token);
    page_spec(s, v.load(s))
}

/// The view of a checked publish request.
pub open spec fn decision_view(r: Result<(Segment, StatusRecord), PublishError>) -> Result<
    (Segment, RecordView),
    PublishError,
> {
    match r {
        Ok((s, rec)) => Ok((s, rec@)),
        Err(e) => Err(e),
    }
}

/// Checks a publish request and, when it passes, hands back the segment and
/// the record to store there. Nothing is stored here.
pub fn check_publish(creds: &Credentials, req: PublishRequest) -> (r: Result<
    (Segment, StatusRecord),
    PublishError,
>)
    ensures
        decision_view(r) == publish_decision(creds@, req@),
{
    if !creds.authorize_publish(req.session.as_str()) {
        return Err(PublishError::Unauthorized);
    }
    let s = match Segment::parse(req.role.as_str()) {
        Some(s) => s,
        None => {
            return Err(PublishError::Unprocessable);
        },
    };
    let rec = StatusRecord::new(req.title, req.text, req.image);
    if !rec.within_limits() {
        return Err(PublishError::Unprocessable);
    }
    Ok((s, rec))
}

/// Serves a publish request against `repo`: an accepted request replaces
/// the record of its segment, a refused one changes nothing.
pub fn handle_publish(repo: &mut Repository, creds: &Credentials, req: PublishRequest) -> (r:
    Result<(), PublishError>)
    ensures
        final(repo)@ == after_publish(old(repo)@, creds@, req@),
        r is Ok <==> publish_decision(creds@, req@) is Ok,
        publish_decision(creds@, req@) matches Err(e) ==> r == Err::<(), PublishError>(e),
{
    match check_publish(creds, req) {
        Ok((s, rec)) => {
            repo.publish(s, rec);
            Ok(())
        },
        Err(e) => Err(e),
    }
}

/// Serves a view request: `role` is the segment's wire name, if one was
/// given, and `session` the token presented (empty when none was).
pub fn handle_view(repo: &Repository, creds: &Credentials, role: Option<&str>, session: &str) -> (r:
    String)
    ensures
        r@ == view_response(
            repo@,
            creds@,
            requested_spec(
                match role {
                    Some(t) => Some(t@),
                    None => None,
                },
            ),
            session@,
        ),
{
    let requested = Segment::requested(role);
    let s = creds.resolve_view(requested, session);
    generate_html(s, repo.load(s))
}

/// Reading a segment right after publishing `r` to it gives back `r`, or
/// nothing when `r` is the cleared record.
pub proof fn lemma_load_after_publish(v: ShelfView, s: Segment, r: RecordView)
    ensures
        v.put(s, r).load(s) == r.loaded(),
        !r.is_cleared() ==> v.put(s, r).load(s) == Some(r),
{
}

/// After an accepted publish request, a reader of its segment gets the
/// record it carried, or nothing when that record is the cleared one.
pub proof fn lemma_accepted_publish_then_load(v: ShelfView, c: CredentialsView, q: RequestView)
    requires
        publish_decision(c, q) is Ok,
    ensures
        publish_decision(c, q) matches Ok((s, r)) && after_publish(v, c, q).load(s) == r.loaded(),
{
}

/// Publishing to one segment leaves the record of every other segment as it was.
pub proof fn lemma_segment_isolation(v: ShelfView, s: Segment, r: RecordView, t: Segment)
    requires
        t != s,
    ensures
        v.put(s, r).get(t) == v.get(t),
        v.put(s, r).load(t) == v.load(t),
{
}

/// Publishing to `Family` leaves `Friend` and `Random` as they were.
pub proof fn lemma_family_isolation(v: ShelfView, r: RecordView)
    ensures
        v.put(Segment::Family, r).get(Segment::Friend) == v.get(Segment::Friend),
        v.put(Segment::Family, r).get(Segment::Random) == v.get(Segment::Random),
{
}

/// A view request for `Family` without the family secret is answered
/// exactly as a request for `Random`, whatever token that one carries.
pub proof fn lemma_family_view_degrades(
    v: ShelfView,
    c: CredentialsView,
    token: Seq<char>,
    other: Seq<char>,
)
    requires
        token != c.family,
    ensures
        view_response(v, c, Segment::Family, token) == view_response(v, c, Segment::Random, other),
{
}

/// A publish request with the wrong admin token is refused as unauthorized
/// and changes no record, whatever it carries.
pub proof fn lemma_unauthorized_publish(v: ShelfView, c: CredentialsView, q: RequestView)
    requires
        q.session != c.admin,
    ensures
        publish_decision(c, q) == Err::<(Segment, RecordView), PublishError>(
            PublishError::Unauthorized,
        ),
        after_publish(v, c, q) == v,
{
}

/// An authorized request whose title, text or image is over its bound is
/// refused as unprocessable and changes no record.
pub proof fn lemma_oversize_rejected(v: ShelfView, c: CredentialsView, q: RequestView)
    requires
        may_publish(c, q.session),
        !q.record().within_limits(),
    ensures
        publish_decision(c, q) == Err::<(Segment, RecordView), PublishError>(
            PublishError::Unprocessable,
        ),
        after_publish(v, c, q) == v,
{
}

/// Serving the same publish request twice leaves the records as serving it once.
pub proof fn lemma_publish_idempotent(v: ShelfView, c: CredentialsView, q: RequestView)
    ensures
        after_publish(after_publish(v, c, q), c, q) == after_publish(v, c, q),
{
}

} // verus!
