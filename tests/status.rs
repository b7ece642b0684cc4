use now_status::access::Credentials;
use now_status::gateway::{check_publish, handle_publish, handle_view, PublishError, PublishRequest};
use now_status::html::{generate_html, NO_STATUS_PAGE};
use now_status::record::{StatusRecord, IMAGE_LIMIT, TEXT_LIMIT, TITLE_LIMIT};
use now_status::repository::Repository;
use now_status::segment::Segment;
use now_status::sender::compose_request;
use now_status::text::{append_escaped, same_text};

const ADMIN: &str = "admin-secret";
const FAMILY: &str = "family-secret";
const FRIEND: &str = "friend-secret";

fn creds() -> Credentials {
    Credentials::new(ADMIN.to_string(), FAMILY.to_string(), FRIEND.to_string())
}

fn request(role: &str, session: &str, title: &str, text: &str, image: &str) -> PublishRequest {
    PublishRequest {
        role: role.to_string(),
        session: session.to_string(),
        title: title.to_string(),
        text: text.to_string(),
        image: image.to_string(),
    }
}

fn fields(r: &StatusRecord) -> (String, String, String) {
    (r.title.clone(), r.text.clone(), r.image.clone())
}

fn snapshot(repo: &Repository) -> Vec<(String, String, String)> {
    Segment::ALL.iter().map(|s| fields(repo.record(*s))).collect()
}

#[test]
fn publish_then_view_random() {
    let c = creds();
    let mut repo = Repository::new();
    let r = handle_publish(&mut repo, &c, request("random", ADMIN, "Hi", "Hello", ""));
    assert_eq!(r, Ok(()));
    let page = handle_view(&repo, &c, Some("random"), "");
    assert!(page.contains("Hi"));
    assert!(page.contains("Hello"));
    assert!(page.contains("<img src=\"data:image/png;base64, \" alt=\"No image\"/>"));
    assert!(page.contains("Random - What random6 is doing now"));
    assert_eq!(handle_view(&repo, &c, None, ""), page);
}

#[test]
fn friend_without_record_shows_placeholder() {
    let c = creds();
    let mut repo = Repository::new();
    handle_publish(&mut repo, &c, request("random", ADMIN, "Pub", "Public", "")).unwrap();
    let page = handle_view(&repo, &c, Some("friend"), FRIEND);
    assert_eq!(page, NO_STATUS_PAGE);
    assert!(page.contains("I Don't know :("));
}

#[test]
fn load_after_publish_gives_record_back() {
    let mut repo = Repository::new();
    for s in Segment::ALL {
        let rec = StatusRecord::new("t".to_string(), "x".to_string(), "aGk=".to_string());
        repo.publish(s, rec);
        let got = repo.load(s).unwrap();
        assert_eq!(fields(&got), ("t".to_string(), "x".to_string(), "aGk=".to_string()));
    }
}

#[test]
fn cleared_publish_reads_as_absent() {
    let c = creds();
    let mut repo = Repository::new();
    handle_publish(&mut repo, &c, request("family", ADMIN, "a", "b", "c")).unwrap();
    assert!(repo.load(Segment::Family).is_some());
    handle_publish(&mut repo, &c, request("family", ADMIN, "", "", "")).unwrap();
    assert!(repo.load(Segment::Family).is_none());
    assert_eq!(handle_view(&repo, &c, Some("family"), FAMILY), NO_STATUS_PAGE);
}

#[test]
fn partly_empty_record_is_present() {
    let mut repo = Repository::new();
    repo.publish(Segment::Friend, StatusRecord::new(String::new(), "only text".to_string(), String::new()));
    assert!(repo.load(Segment::Friend).is_some());
}

#[test]
fn family_publish_leaves_other_segments() {
    let c = creds();
    let mut repo = Repository::new();
    handle_publish(&mut repo, &c, request("friend", ADMIN, "fr", "friend text", "")).unwrap();
    handle_publish(&mut repo, &c, request("random", ADMIN, "rd", "random text", "")).unwrap();
    let before = snapshot(&repo);
    handle_publish(&mut repo, &c, request("family", ADMIN, "fa", "family text", "img")).unwrap();
    let after = snapshot(&repo);
    assert_eq!(before[1], after[1]);
    assert_eq!(before[2], after[2]);
    assert_eq!(after[0], ("fa".to_string(), "family text".to_string(), "img".to_string()));
}

#[test]
fn family_view_with_wrong_token_degrades() {
    let c = creds();
    let mut repo = Repository::new();
    handle_publish(&mut repo, &c, request("family", ADMIN, "Private", "Family only", "")).unwrap();
    handle_publish(&mut repo, &c, request("random", ADMIN, "Public", "Everyone", "")).unwrap();
    let public = handle_view(&repo, &c, Some("random"), "");
    assert_eq!(handle_view(&repo, &c, Some("family"), "nope"), public);
    assert_eq!(handle_view(&repo, &c, Some("family"), ""), public);
    assert_eq!(handle_view(&repo, &c, Some("family"), FRIEND), public);
    let private = handle_view(&repo, &c, Some("family"), FAMILY);
    assert!(private.contains("Family - What random6 is doing now"));
    assert!(private.contains("Family only"));
}

#[test]
fn friend_view_with_right_token() {
    let c = creds();
    let mut repo = Repository::new();
    handle_publish(&mut repo, &c, request("friend", ADMIN, "F", "friends", "")).unwrap();
    assert!(handle_view(&repo, &c, Some("friend"), FRIEND).contains("friends"));
    assert_eq!(handle_view(&repo, &c, Some("friend"), FAMILY), NO_STATUS_PAGE);
}

#[test]
fn unknown_view_role_is_random() {
    let c = creds();
    let mut repo = Repository::new();
    handle_publish(&mut repo, &c, request("random", ADMIN, "R", "public", "")).unwrap();
    let public = handle_view(&repo, &c, Some("random"), "");
    assert_eq!(handle_view(&repo, &c, Some("Family"), FAMILY), public);
    assert_eq!(handle_view(&repo, &c, Some("boss"), ""), public);
}

#[test]
fn wrong_admin_token_is_unauthorized() {
    let c = creds();
    let mut repo = Repository::new();
    handle_publish(&mut repo, &c, request("random", ADMIN, "keep", "me", "")).unwrap();
    let before = snapshot(&repo);
    for token in ["", "admin", FAMILY, "admin-secret "] {
        let r = handle_publish(&mut repo, &c, request("random", token, "new", "text", ""));
        assert_eq!(r, Err(PublishError::Unauthorized));
        assert_eq!(snapshot(&repo), before);
    }
    let r = handle_publish(&mut repo, &c, request("bogus", "x", &"t".repeat(60), "", ""));
    assert_eq!(r, Err(PublishError::Unauthorized));
    assert_eq!(PublishError::Unauthorized.status_code(), 401);
}

#[test]
fn unknown_publish_role_is_unprocessable() {
    let c = creds();
    let mut repo = Repository::new();
    let r = handle_publish(&mut repo, &c, request("boss", ADMIN, "a", "b", ""));
    assert_eq!(r, Err(PublishError::Unprocessable));
    let r = handle_publish(&mut repo, &c, request("Random", ADMIN, "a", "b", ""));
    assert_eq!(r, Err(PublishError::Unprocessable));
    assert!(repo.load(Segment::Random).is_none());
    assert_eq!(PublishError::Unprocessable.status_code(), 422);
}

#[test]
fn title_bound() {
    let c = creds();
    let mut repo = Repository::new();
    let at = "a".repeat(TITLE_LIMIT);
    assert_eq!(handle_publish(&mut repo, &c, request("random", ADMIN, &at, "x", "")), Ok(()));
    let before = snapshot(&repo);
    let over = "b".repeat(TITLE_LIMIT + 1);
    assert_eq!(
        handle_publish(&mut repo, &c, request("random", ADMIN, &over, "x", "")),
        Err(PublishError::Unprocessable)
    );
    assert_eq!(snapshot(&repo), before);
    assert_eq!(TITLE_LIMIT, 50);
}

#[test]
fn title_bound_counts_characters() {
    let c = creds();
    let title = "é".repeat(50);
    assert!(check_publish(&c, request("random", ADMIN, &title, "", "")).is_ok());
    let title = "é".repeat(51);
    assert_eq!(
        check_publish(&c, request("random", ADMIN, &title, "", "")).err(),
        Some(PublishError::Unprocessable)
    );
}

#[test]
fn text_bound() {
    let c = creds();
    let mut repo = Repository::new();
    let at = "t".repeat(TEXT_LIMIT);
    assert_eq!(handle_publish(&mut repo, &c, request("friend", ADMIN, "x", &at, "")), Ok(()));
    let before = snapshot(&repo);
    let over = "u".repeat(TEXT_LIMIT + 1);
    assert_eq!(
        handle_publish(&mut repo, &c, request("friend", ADMIN, "x", &over, "")),
        Err(PublishError::Unprocessable)
    );
    assert_eq!(snapshot(&repo), before);
    assert_eq!(TEXT_LIMIT, 500);
}

#[test]
fn image_bound() {
    let c = creds();
    let at = "A".repeat(IMAGE_LIMIT);
    let (s, rec) = check_publish(&c, request("family", ADMIN, "x", "y", &at)).unwrap();
    assert_eq!(s, Segment::Family);
    assert_eq!(rec.image.len(), 14_000_000);
    let over = "A".repeat(IMAGE_LIMIT + 1);
    assert_eq!(
        check_publish(&c, request("family", ADMIN, "x", "y", &over)).err(),
        Some(PublishError::Unprocessable)
    );
}

#[test]
fn publishing_twice_same_as_once() {
    let c = creds();
    let mut once = Repository::new();
    let mut twice = Repository::new();
    let q = request("friend", ADMIN, "same", "payload", "aW1n");
    handle_publish(&mut once, &c, q.clone()).unwrap();
    handle_publish(&mut twice, &c, q.clone()).unwrap();
    handle_publish(&mut twice, &c, q).unwrap();
    assert_eq!(snapshot(&once), snapshot(&twice));
}

#[test]
fn page_escapes_title_and_text() {
    let rec = StatusRecord::new(
        "<b>Tom & \"Jerry\"</b>".to_string(),
        "it's <script>".to_string(),
        "aW1n".to_string(),
    );
    let page = generate_html(Segment::Friend, Some(rec));
    assert!(page.contains("&lt;b&gt;Tom &amp; &quot;Jerry&quot;&lt;/b&gt;"));
    assert!(page.contains("it&#39;s &lt;script&gt;"));
    assert!(!page.contains("<script>"));
    assert!(page.contains("Friend - What random6 is doing now"));
    assert!(page.contains("base64, aW1n\""));
}

#[test]
fn page_without_record_is_placeholder() {
    for s in Segment::ALL {
        assert_eq!(generate_html(s, None), NO_STATUS_PAGE);
    }
}

#[test]
fn escaping_keeps_plain_text() {
    let mut out = String::from("> ");
    append_escaped(&mut out, "plain ünïcode");
    assert_eq!(out, "> plain ünïcode");
}

#[test]
fn text_comparison() {
    assert!(same_text("", ""));
    assert!(same_text("abc", "abc"));
    assert!(!same_text("abc", "abd"));
    assert!(!same_text("abc", "abcd"));
    assert!(!same_text("ab", "abc"));
}

#[test]
fn segment_names() {
    assert_eq!(Segment::parse("family"), Some(Segment::Family));
    assert_eq!(Segment::parse("friend"), Some(Segment::Friend));
    assert_eq!(Segment::parse("random"), Some(Segment::Random));
    assert_eq!(Segment::parse("Family"), None);
    assert_eq!(Segment::parse(""), None);
    assert_eq!(Segment::requested(None), Segment::Random);
    assert_eq!(Segment::requested(Some("friend")), Segment::Friend);
    assert_eq!(Segment::requested(Some("x")), Segment::Random);
    for s in Segment::ALL {
        assert_eq!(Segment::parse(s.name()), Some(s));
    }
    assert_eq!(Segment::Family.label(), "Family");
}

#[test]
fn credentials_resolve() {
    let c = creds();
    assert!(c.authorize_publish(ADMIN));
    assert!(!c.authorize_publish(FAMILY));
    assert_eq!(c.segment_secret(Segment::Family), Some(FAMILY));
    assert_eq!(c.segment_secret(Segment::Friend), Some(FRIEND));
    assert_eq!(c.segment_secret(Segment::Random), None);
    assert_eq!(c.resolve_view(Segment::Random, "anything"), Segment::Random);
    assert_eq!(c.resolve_view(Segment::Friend, FRIEND), Segment::Friend);
    assert_eq!(c.resolve_view(Segment::Friend, FAMILY), Segment::Random);
    assert_eq!(c.admin_secret(), ADMIN);
}

#[test]
fn stored_fields_read_back() {
    assert!(StatusRecord::from_fields(String::new(), String::new(), String::new()).is_none());
    let r = StatusRecord::from_fields(String::new(), String::new(), "x".to_string()).unwrap();
    assert_eq!(r.image, "x");
    let repo = Repository::from_records(
        StatusRecord::empty(),
        StatusRecord::new("a".to_string(), String::new(), String::new()),
        StatusRecord::empty(),
    );
    assert!(repo.load(Segment::Friend).is_some());
    assert!(repo.load(Segment::Family).is_none());
}

#[test]
fn compose_active_encodes_image() {
    let q = compose_request(
        Segment::Friend,
        ADMIN.to_string(),
        true,
        "T".to_string(),
        "X".to_string(),
        b"Hi",
    );
    assert_eq!(q.role, "friend");
    assert_eq!(q.session, ADMIN);
    assert_eq!(q.title, "T");
    assert_eq!(q.text, "X");
    assert_eq!(q.image, "SGk=");
    let q = compose_request(Segment::Random, ADMIN.to_string(), true, String::new(), String::new(), b"");
    assert_eq!(q.image, "");
}

#[test]
fn compose_inactive_clears() {
    let q = compose_request(
        Segment::Family,
        ADMIN.to_string(),
        false,
        "T".to_string(),
        "X".to_string(),
        b"Hi",
    );
    assert_eq!(q.role, "family");
    assert_eq!((q.title.as_str(), q.text.as_str(), q.image.as_str()), ("", "", ""));
    let c = creds();
    let mut repo = Repository::new();
    handle_publish(&mut repo, &c, request("family", ADMIN, "a", "b", "")).unwrap();
    handle_publish(&mut repo, &c, q).unwrap();
    assert!(repo.load(Segment::Family).is_none());
}
