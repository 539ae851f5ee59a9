//! Scheme URLs of the form `<scheme>://<path>` and the launch path they carry.
//!
//! Text is modelled as a sequence of characters. A URL belongs to a scheme when
//! it begins with the scheme followed by `://`; its launch path is everything
//! after that prefix, taken verbatim. Text that does not begin with the prefix
//! is not rejected: it is its own launch path.

use vstd::prelude::*;

verus! {

/// The scheme under which the shell is registered with the operating system.
pub const SCHEME: &'static str = "sourcegraph";

/// The characters `://` that part a scheme from the path behind it.
pub open spec fn separator() -> Seq<char> {
    seq![':', '/', '/']
}

/// The text `<scheme>://` with which every URL of `scheme` begins.
pub open spec fn scheme_prefix(scheme: Seq<char>) -> Seq<char> {
    scheme + separator()
}

/// Whether `url` begins with `<scheme>://`.
pub open spec fn has_scheme_prefix(url: Seq<char>, scheme: Seq<char>) -> bool {
    scheme_prefix(scheme).is_prefix_of(url)
}

/// The launch path that `url` carries for `scheme`: what follows `<scheme>://`
/// where `url` begins with it, and `url` itself where it does not.
pub open spec fn launch_path_of(url: Seq<char>, scheme: Seq<char>) -> Seq<char> {
    if has_scheme_prefix(url, scheme) {
        url.skip(scheme_prefix(scheme).len() as int)
    } else {
        url
    }
}

/// Tells whether `url` is a URL of `scheme`, that is, begins with `<scheme>://`.
pub fn is_scheme_url(url: &str, scheme: &str) -> (matches: bool)
    ensures
        matches == has_scheme_prefix(url@, scheme@),
{
    let url_len: usize = url.unicode_len();
    let scheme_len: usize = scheme.unicode_len();
    if url_len < 3 || url_len - 3 < scheme_len {
        return false;
    }
    let ghost prefix = scheme_prefix(scheme@);
    let mut i: usize = 0;
    while i < scheme_len
        invariant
            i <= scheme_len,
            scheme_len == scheme@.len(),
            url_len == url@.len(),
            scheme_len + 3 <= url_len,
            prefix == scheme_prefix(scheme@),
            forall|j: int| 0 <= j < i ==> url@[j] == scheme@[j],
        decreases scheme_len - i,
    {
        if url.get_char(i) != scheme.get_char(i) {
            assert(url@.subrange(0, prefix.len() as int)[i as int] != prefix[i as int]);
            return false;
        }
        i += 1;
    }
    let colon: char = url.get_char(scheme_len);
    let first_slash: char = url.get_char(scheme_len + 1);
    let second_slash: char = url.get_char(scheme_len + 2);
    let matches: bool = colon == ':' && first_slash == '/' && second_slash == '/';
    proof {
        let head = url@.subrange(0, prefix.len() as int);
        if matches {
            assert(prefix =~= head);
        } else {
            assert(head[scheme_len as int] == colon);
            assert(head[scheme_len + 1] == first_slash);
            assert(head[scheme_len + 2] == second_slash);
            assert(prefix[scheme_len as int] == ':');
            assert(prefix[scheme_len + 1] == '/');
            assert(prefix[scheme_len + 2] == '/');
        }
    }
    matches
}

/// Extracts the launch path from `url`: the text behind `<scheme>://`, exactly
/// as it stands and possibly empty. A `url` that does not begin with
/// `<scheme>://` is handed back unchanged.
pub fn extract_path_from_scheme_url<'a>(url: &'a str, scheme: &str) -> (path: &'a str)
    ensures
        path@ == launch_path_of(url@, scheme@),
{
    if is_scheme_url(url, scheme) {
        let url_len: usize = url.unicode_len();
        let scheme_len: usize = scheme.unicode_len();
        url.substring_char(scheme_len + 3, url_len)
    } else {
        url
    }
}

/// Extraction undoes prefixing: the launch path of `<scheme>://` followed by
/// `path` is `path`, whatever `path` holds, the empty text included.
pub proof fn lemma_extraction_yields_what_follows_the_prefix(scheme: Seq<char>, path: Seq<char>)
    ensures
        has_scheme_prefix(scheme_prefix(scheme) + path, scheme),
        launch_path_of(scheme_prefix(scheme) + path, scheme) == path,
{
    let prefix = scheme_prefix(scheme);
    let url = prefix + path;
    assert(url.subrange(0, prefix.len() as int) =~= prefix);
    assert(url.skip(prefix.len() as int) =~= path);
}

/// Text outside the scheme passes through: where `url` does not begin with
/// `<scheme>://`, its launch path is `url` itself.
pub proof fn lemma_extraction_keeps_text_outside_the_scheme(url: Seq<char>, scheme: Seq<char>)
    requires
        !has_scheme_prefix(url, scheme),
    ensures
        launch_path_of(url, scheme) == url,
{
}

/// A URL of the scheme is its prefix followed by its launch path, so nothing of
/// the URL is lost or altered by extraction.
pub proof fn lemma_scheme_url_is_prefix_then_path(url: Seq<char>, scheme: Seq<char>)
    requires
        has_scheme_prefix(url, scheme),
    ensures
        url == scheme_prefix(scheme) + launch_path_of(url, scheme),
{
    let prefix = scheme_prefix(scheme);
    assert(url =~= url.subrange(0, prefix.len() as int) + url.skip(prefix.len() as int));
}

} // verus!
