use vstd::prelude::*;

use crate::record::{opt_view, RecordView, StatusRecord};
use crate::segment::{label_of, Segment};
use crate::text::{append_escaped, escaped};

verus! {

/// The page shown when a segment has no status.
pub const NO_STATUS_PAGE: &'static str = "<!DOCTYPE html>\n<body style=\"text-align: center; font-family:'Arial'\">\n    <h1 class=\"main-title\">\n        What random6 is doing now\n    </h1>\n    <h3>\n        I Don't know :(\n    </h3>\n</body>\n";

/// The start of a status page, up to the segment label.
pub const PAGE_HEAD: &'static str = "<!DOCTYPE html>\n<body style=\"text-align: center; font-family:'Arial'\">\n    <h1 class=\"main-title\">\n        ";

/// Between the segment label and the title.
pub const PAGE_BEFORE_TITLE: &'static str = " - What random6 is doing now\n    </h1>\n    <div class=\"title\">\n        <h3>\n            ";

/// Between the title and the text.
pub const PAGE_BEFORE_TEXT: &'static str = "\n        </h3>\n    </div>\n    <div class=\"text\">\n        <p>\n            ";

/// Between the text and the image data.
pub const PAGE_BEFORE_IMAGE: &'static str = "\n        </p>\n    </div>\n    <div class=\"image\">\n        <img src=\"data:image/png;base64, ";

/// After the image data.
pub const PAGE_TAIL: &'static str = "\" alt=\"No image\"/>\n    </div>\n</body>\n";

/// The page for segment `s` showing `r`: its label, the escaped title and
/// text, and the image as inline data.
pub open spec fn status_page(s: Segment, r: RecordView) -> Seq<char> {
    PAGE_HEAD@ + label_of(s) + PAGE_BEFORE_TITLE@ + escaped(r.title) + PAGE_BEFORE_TEXT@
        + escaped(r.text) + PAGE_BEFORE_IMAGE@ + r.image + PAGE_TAIL@
}

/// The page for segment `s` when it holds `r`, or has nothing when `r` is `None`.
pub open spec fn page_spec(s: Segment, r: Option<RecordView>) -> Seq<char> {
    match r {
        Some(r) => status_page(s, r),
        None => NO_STATUS_PAGE@,
    }
}

/// Renders the page of segment `role`, given what the segment holds.
pub fn generate_html(role: Segment, record: Option<StatusRecord>) -> (r: String)
    ensures
        r@ == page_spec(role, opt_view(record)),
{
    match record {
        None => String::from_str(NO_STATUS_PAGE),
        Some(rec) => {
            let mut out = String::from_str(PAGE_HEAD);
            out.append(role.label());
            out.append(PAGE_BEFORE_TITLE);
            append_escaped(&mut out, rec.title.as_str());
            out.append(PAGE_BEFORE_TEXT);
            append_escaped(&mut out, rec.text.as_str());
            out.append(PAGE_BEFORE_IMAGE);
            out.append(rec.image.as_str());
            out.append(PAGE_TAIL);
            assert(out@ =~= status_page(role, rec@));
            out
        },
    }
}

} // verus!
