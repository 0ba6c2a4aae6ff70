//! Where book resources live: the relative paths and bucket keys under
//! which pages, assets and exercises are found.  Stored paths may be
//! percent-encoded, so they are decoded before use; the file probing and
//! downloading around these paths happens in the shell.

use vstd::prelude::*;
use vstd::string::StrSliceExecFns;
use vstd::string::StringExecFns;

use crate::metadata::BookPages;
use crate::metadata::PageInfo;
use crate::text::str_eq;

verus! {

/// What percent-decoding a path yields, where the decoded bytes are valid
/// text.
pub uninterp spec fn percent_decoded(s: Seq<char>) -> Seq<char>;

/// Relies on `urlencoding::decode`: percent-decoding is a function of the
/// input characters alone, and fails only where the decoded bytes are not
/// valid UTF-8.
#[verifier::external_body]
fn percent_decode(s: &str) -> (r: Option<String>)
    ensures
        r matches Some(d) ==> d@ == percent_decoded(s@),
{
    match urlencoding::decode(s) {
        Ok(c) => Some(c.into_owned()),
        Err(_) => None,
    }
}

/// A stored path made usable on disk and as a bucket key: percent-decoded
/// where that succeeds, kept as it stands where it does not.
pub fn decode_path(s: &str) -> (r: String)
    ensures
        r@ == percent_decoded(s@) || r@ == s@,
{
    match percent_decode(s) {
        Some(d) => d,
        None => s.to_owned(),
    }
}

/// The path of one page's background image, relative to the book
/// directory: the large-image folder entry, percent-decoded when possible.
pub fn page_image_rel_path(folder: &str, bgimage: &str) -> (r: String)
    ensures
        r@ == percent_decoded("assets/"@ + folder@ + bgimage@) || r@ == "assets/"@ + folder@
            + bgimage@,
{
    let mut raw = String::from_str("assets/");
    raw.append(folder);
    raw.append(bgimage);
    decode_path(raw.as_str())
}

/// The two places an asset may sit relative to the book directory: as
/// given, and under the assets folder.
pub fn asset_rel_path_candidates(relative_path: &str) -> (r: (String, String))
    ensures
        ({
            let decoded_or_raw = percent_decoded(relative_path@);
            (r.0@ == decoded_or_raw || r.0@ == relative_path@) && r.1@ == "assets/"@ + r.0@
        }),
{
    let direct = decode_path(relative_path);
    let mut under_assets = String::from_str("assets/");
    under_assets.append(direct.as_str());
    (direct, under_assets)
}

/// The bucket key a book-relative path lives under.
pub fn book_object_key(product_code: &str, rel_path: &str) -> (r: String)
    ensures
        r@ == "books/"@ + product_code@ + "/"@ + rel_path@,
{
    let mut s = String::from_str("books/");
    s.append(product_code);
    s.append("/");
    s.append(rel_path);
    s
}

/// The container that carries a book's exercises: the book's code with a
/// fixed suffix.
pub fn container_code(product_code: &str) -> (r: String)
    ensures
        r@ == product_code@ + "con"@,
{
    let mut s = product_code.to_owned();
    s.append("con");
    s
}

/// Where a book's definition lives in the bucket.
pub fn definition_key(product_code: &str) -> (r: String)
    ensures
        r@ == "books/"@ + product_code@ + "/meta/definition.json"@,
{
    let mut s = String::from_str("books/");
    s.append(product_code);
    s.append("/meta/definition.json");
    s
}

/// Where a book's image metadata lives in the bucket.
pub fn book_json_key(product_code: &str) -> (r: String)
    ensures
        r@ == "books/"@ + product_code@ + "/assets/imgbook-meta/book.json"@,
{
    let mut s = String::from_str("books/");
    s.append(product_code);
    s.append("/assets/imgbook-meta/book.json");
    s
}

/// Where a book's overlay configuration lives in the bucket.
pub fn overlays_key(product_code: &str) -> (r: String)
    ensures
        r@ == "books/"@ + product_code@ + "/assets/imgbook-meta/book-overlays.json"@,
{
    let mut s = String::from_str("books/");
    s.append(product_code);
    s.append("/assets/imgbook-meta/book-overlays.json");
    s
}

/// Where a container's definition lives in the bucket.
pub fn container_definition_key(container: &str) -> (r: String)
    ensures
        r@ == "courses/"@ + container@ + "/meta/definition.json"@,
{
    let mut s = String::from_str("courses/");
    s.append(container);
    s.append("/meta/definition.json");
    s
}

/// Where an exercise's entry page sits relative to its container.
pub fn exercise_index_rel_path(url: &str) -> (r: String)
    ensures
        r@ == "assets/"@ + url@ + "/index.html"@,
{
    let mut s = String::from_str("assets/");
    s.append(url);
    s.append("/index.html");
    s
}

/// The labels of every page, in page order.
pub fn page_labels(pages: &BookPages) -> (r: Vec<String>)
    ensures
        r@.len() == pages.page@.len(),
        forall|k: int| 0 <= k < r@.len() ==> (#[trigger] r@[k])@ == pages.page@[k].pagelabel@,
{
    let n = pages.page.len();
    let mut out: Vec<String> = Vec::new();
    let mut i: usize = 0;
    while i < n
        invariant
            n == pages.page@.len(),
            0 <= i <= n,
            out@.len() == i,
            forall|k: int| 0 <= k < i ==> (#[trigger] out@[k])@ == pages.page@[k].pagelabel@,
        decreases n - i,
    {
        out.push(pages.page[i].pagelabel.clone());
        i = i + 1;
    }
    out
}

/// The first page that carries a label.
pub fn find_page<'a>(pages: &'a BookPages, label: &str) -> (r: Option<&'a PageInfo>)
    ensures
        match r {
            Some(p) => exists|k: int|
                0 <= k < pages.page@.len() && (#[trigger] pages.page@[k]).pagelabel@ == label@
                    && *p == pages.page@[k],
            None => forall|k: int|
                0 <= k < pages.page@.len() ==> (#[trigger] pages.page@[k]).pagelabel@ != label@,
        },
{
    let n = pages.page.len();
    let mut i: usize = 0;
    while i < n
        invariant
            n == pages.page@.len(),
            0 <= i <= n,
            forall|k: int| 0 <= k < i ==> (#[trigger] pages.page@[k]).pagelabel@ != label@,
        decreases n - i,
    {
        if str_eq(pages.page[i].pagelabel.as_str(), label) {
            return Some(&pages.page[i]);
        }
        i = i + 1;
    }
    None
}

} // verus!
