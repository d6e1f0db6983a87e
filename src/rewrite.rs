use vstd::prelude::*;
use vstd::string::StringExecFns;

verus! {

/// `s` with each match of `from` replaced by `to`, the matches taken from the
/// left and not overlapping.
pub open spec fn replace_all(s: Seq<char>, from: Seq<char>, to: Seq<char>) -> Seq<char>
    decreases s.len(),
{
    if from.len() == 0 || s.len() < from.len() {
        s
    } else if s.subrange(0, from.len() as int) == from {
        to + replace_all(s.subrange(from.len() as int, s.len() as int), from, to)
    } else {
        seq![s[0]] + replace_all(s.subrange(1, s.len() as int), from, to)
    }
}

/// The page with its root-relative references (`href="/`, `src="/`, and
/// `"/search`) pointing at `url`, substituted in that order.
pub open spec fn absolute_page(body: Seq<char>, url: Seq<char>) -> Seq<char> {
    let step1 = replace_all(body, "href=\"/"@, "href=\""@ + url);
    let step2 = replace_all(step1, "src=\"/"@, "src=\""@ + url);
    replace_all(step2, "\"/search"@, "\""@ + url + "search"@)
}

/// Relies on str::replace: every match of `from`, taken from the left without
/// overlap, is replaced by `to` (an empty `from` is ruled out).
#[verifier::external_body]
fn replace_str(s: &str, from: &str, to: &str) -> (r: String)
    requires
        from@.len() > 0,
    ensures
        r@ == replace_all(s@, from@, to@),
{
    s.replace(from, to)
}

/// Rewrites the root-relative links, sources and search actions of a page
/// fetched from `url` so that they resolve against that instance; `url`
/// is expected to end with a slash.
pub fn convert_html_urls_to_absolute(body: String, url: &str) -> (r: String)
    ensures
        r@ == absolute_page(body@, url@),
{
    proof {
        reveal_strlit("href=\"/");
        reveal_strlit("src=\"/");
        reveal_strlit("\"/search");
    }
    let mut href = String::from_str("href=\"");
    href.append(url);
    let mut src = String::from_str("src=\"");
    src.append(url);
    let mut search = String::from_str("\"");
    search.append(url);
    search.append("search");
    let step1 = replace_str(body.as_str(), "href=\"/", href.as_str());
    let step2 = replace_str(step1.as_str(), "src=\"/", src.as_str());
    replace_str(step2.as_str(), "\"/search", search.as_str())
}

} // verus!
