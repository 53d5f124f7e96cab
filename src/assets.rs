//! Paths and content types of the bundled interface assets.

use vstd::prelude::*;

verus! {

/// The content type that `mime_guess` gives for a path.
pub uninterp spec fn mime_for_path(path: Seq<char>) -> Seq<char>;

/// Relies on `mime_guess::from_path(..).first_or_octet_stream()`: the first
/// MIME type known for the path's extension, as text. A path without any
/// `.` has no extension, and the crate then gives `application/octet-stream`.
#[verifier::external_body]
fn guess_content_type(path: &str) -> (r: String)
    ensures
        r@ == mime_for_path(path@),
        !path@.contains('.') ==> r@ == "application/octet-stream"@,
{
    mime_guess::from_path(path).first_or_octet_stream().to_string()
}

/// `p` without its leading `/` characters.
pub open spec fn without_leading_slashes(p: Seq<char>) -> Seq<char>
    decreases p.len(),
{
    if p.len() > 0 && p[0] == '/' {
        without_leading_slashes(p.skip(1))
    } else {
        p
    }
}

proof fn lemma_strip_step(p: Seq<char>, k: int)
    requires
        0 <= k < p.len(),
        p[k] == '/',
        without_leading_slashes(p) == without_leading_slashes(p.skip(k)),
    ensures
        without_leading_slashes(p) == without_leading_slashes(p.skip(k + 1)),
{
    assert(p.skip(k).skip(1) =~= p.skip(k + 1));
}

/// The asset path named by a request path: the path without its leading
/// slashes.
pub fn asset_path(uri_path: &str) -> (r: &str)
    ensures
        r@ == without_leading_slashes(uri_path@),
{
    let n = uri_path.unicode_len();
    let mut k: usize = 0;
    assert(uri_path@.skip(0) =~= uri_path@);
    while k < n && uri_path.get_char(k) == '/'
        invariant
            n == uri_path@.len(),
            k <= n,
            without_leading_slashes(uri_path@) == without_leading_slashes(uri_path@.skip(k as int)),
        decreases n - k,
    {
        proof {
            lemma_strip_step(uri_path@, k as int);
        }
        k = k + 1;
    }
    let r = uri_path.substring_char(k, n);
    assert(r@ =~= uri_path@.skip(k as int));
    r
}

/// The content type to serve for a request path.
pub fn static_content_type(uri_path: &str) -> (r: String)
    ensures
        r@ == mime_for_path(without_leading_slashes(uri_path@)),
{
    guess_content_type(asset_path(uri_path))
}

} // verus!
