//! Building the request target from a caller's base URL.
use vstd::prelude::*;
use vstd::string::*;

verus! {

/// The path that every push is sent to, relative to the base URL.
pub open spec fn ingest_path() -> Seq<char> {
    seq!['/', 'i', 'n', 'g', 'e', 's', 't']
}

/// `s` without the run of `/` characters at its end.
pub open spec fn trim_trailing_slashes(s: Seq<char>) -> Seq<char>
    decreases s.len(),
{
    if s.len() > 0 && s.last() == '/' {
        trim_trailing_slashes(s.drop_last())
    } else {
        s
    }
}

/// The URL that a push to base URL `url` targets.
pub open spec fn ingest_url(url: Seq<char>) -> Seq<char> {
    trim_trailing_slashes(url) + ingest_path()
}

/// The base URL with its trailing `/` characters removed, followed by `/ingest`.
pub fn ingest_endpoint(url: &str) -> (r: String)
    ensures
        r@ == ingest_url(url@),
{
    let mut end: usize = url.unicode_len();
    assert(url@.subrange(0, end as int) =~= url@);
    while end > 0 && url.get_char(end - 1) == '/'
        invariant
            end <= url@.len(),
            trim_trailing_slashes(url@.subrange(0, end as int)) == trim_trailing_slashes(url@),
        decreases end,
    {
        assert(url@.subrange(0, end as int).drop_last() =~= url@.subrange(0, end - 1));
        end = end - 1;
    }
    assert(trim_trailing_slashes(url@.subrange(0, end as int)) == url@.subrange(0, end as int));
    let mut r = String::from_str(url.substring_char(0, end));
    let path = "/ingest";
    proof {
        reveal_strlit("/ingest");
    }
    assert(path@ =~= ingest_path());
    r.append(path);
    r
}

/// Trimming leaves no `/` at the end, and trimming again changes nothing.
pub proof fn lemma_trim_is_normal(s: Seq<char>)
    ensures
        trim_trailing_slashes(s).len() > 0 ==> trim_trailing_slashes(s).last() != '/',
        trim_trailing_slashes(trim_trailing_slashes(s)) == trim_trailing_slashes(s),
    decreases s.len(),
{
    if s.len() > 0 && s.last() == '/' {
        lemma_trim_is_normal(s.drop_last());
    }
}

/// Trailing slashes on the base URL do not change the target: `u` and `u`
/// followed by `/` give the same endpoint, as does `u` with all its trailing
/// slashes removed, and where `u` does not end in `/` that endpoint is `u`
/// followed by `/ingest`.
pub proof fn lemma_trailing_slash_same_target(u: Seq<char>)
    ensures
        ingest_url(u.push('/')) == ingest_url(u),
        ingest_url(trim_trailing_slashes(u)) == ingest_url(u),
        (u.len() == 0 || u.last() != '/') ==> ingest_url(u) == u + ingest_path(),
{
    assert(u.push('/').drop_last() =~= u);
    lemma_trim_is_normal(u);
}

} // verus!
