//! How the user names a gist: by its identifier or by a URL that ends in it.
use crate::error::CliError;
use crate::text;
use vstd::prelude::*;
use vstd::string::*;

verus! {

/// The identifier of the gist that `url` names: `url` itself where it has no slash, otherwise what
/// follows the last slash, unless that is empty.
pub open spec fn gist_id_in(url: Seq<char>) -> Option<Seq<char>> {
    if !url.contains('/') || text::behind_last(url, '/').len() > 0 {
        Some(text::behind_last(url, '/'))
    } else {
        None
    }
}

/// Where no slash stands at position `k` or later, and one just before it unless it is the start,
/// the part behind the last slash starts there.
proof fn lemma_last_segment(s: Seq<char>, k: int)
    requires
        0 <= k <= s.len(),
        forall|i: int| k <= i < s.len() ==> #[trigger] s[i] != '/',
        k == 0 || s[k - 1] == '/',
    ensures
        text::behind_last(s, '/') == s.subrange(k, s.len() as int),
    decreases s.len(),
{
    if s.len() == k {
        assert(s.subrange(k, k) =~= Seq::<char>::empty());
    } else {
        assert(s[s.len() - 1] != '/');
        lemma_last_segment(s.drop_last(), k);
        assert(s.drop_last().subrange(k, s.len() - 1).push(s.last()) =~= s.subrange(
            k,
            s.len() as int,
        ));
    }
}

/// The identifier of the gist that `url` names.
pub fn parse_gist_id(url: &str) -> (r: Result<String, CliError>)
    ensures
        match r {
            Ok(id) => gist_id_in(url@) == Some(id@),
            Err(e) => {
                &&& gist_id_in(url@) is None
                &&& e is Api
                &&& e.text() == "could not parse gist ID from: "@ + url@
                &&& e.advice() is None
            },
        },
{
    let len: usize = url.unicode_len();
    let mut count: usize = 0;
    let mut start: usize = 0;
    for c in it: url.chars()
        invariant
            it.seq() == url@,
            len == url@.len(),
            count == it.index(),
            start <= count,
            start == 0 || url@[start - 1] == '/',
            forall|i: int| start <= i < count ==> #[trigger] url@[i] != '/',
    {
        count = count + 1;
        if c == '/' {
            start = count;
        }
    }
    proof {
        lemma_last_segment(url@, start as int);
        if start > 0 {
            assert(url@.contains('/')) by {
                assert(url@[start - 1] == '/');
            }
        }
    }
    if start > 0 && start == len {
        return Err(CliError::api(text::join("could not parse gist ID from: ", url).as_str()));
    }
    Ok(url.substring_char(start, len).to_owned())
}

/// The part behind the last slash holds no slash.
proof fn lemma_segment_has_no_slash(s: Seq<char>)
    ensures
        !text::behind_last(s, '/').contains('/'),
    decreases s.len(),
{
    if s.len() > 0 && s.last() != '/' {
        lemma_segment_has_no_slash(s.drop_last());
        let rest = text::behind_last(s.drop_last(), '/');
        let all = text::behind_last(s, '/');
        assert forall|i: int| 0 <= i < all.len() implies all[i] != '/' by {
            if i < rest.len() {
                assert(rest[i] != '/');
            }
        }
    }
}

/// A text without a slash has nothing before that part.
proof fn lemma_segment_of_plain(s: Seq<char>)
    requires
        !s.contains('/'),
    ensures
        text::behind_last(s, '/') == s,
{
    assert forall|i: int| 0 <= i < s.len() implies #[trigger] s[i] != '/' by {}
    lemma_last_segment(s, 0);
    assert(s.subrange(0, s.len() as int) =~= s);
}

/// An identifier holds no slash, and names the same gist as the URL that it was taken from.
pub proof fn law_id_names_itself(url: Seq<char>)
    requires
        gist_id_in(url) is Some,
    ensures
        !gist_id_in(url).unwrap().contains('/'),
        gist_id_in(gist_id_in(url).unwrap()) == gist_id_in(url),
{
    lemma_segment_has_no_slash(url);
    lemma_segment_of_plain(text::behind_last(url, '/'));
}

/// A URL that ends in a slash and an identifier names the gist with that identifier, whatever
/// comes before.
pub proof fn law_url_names_its_id(prefix: Seq<char>, id: Seq<char>)
    requires
        id.len() > 0,
        !id.contains('/'),
    ensures
        gist_id_in(prefix.push('/') + id) == Some(id),
{
    let url = prefix.push('/') + id;
    let k = prefix.len() + 1;
    assert forall|i: int| k <= i < url.len() implies #[trigger] url[i] != '/' by {
        assert(url[i] == id[i - k]);
    }
    assert(url[k - 1] == '/');
    lemma_last_segment(url, k as int);
    assert(url.subrange(k as int, url.len() as int) =~= id);
}

/// A URL that ends in a slash names no gist.
pub proof fn law_trailing_slash_names_nothing(prefix: Seq<char>)
    ensures
        gist_id_in(prefix.push('/')) is None,
{
    assert(prefix.push('/').contains('/')) by {
        assert(prefix.push('/')[prefix.len() as int] == '/');
    }
}

/// A text without a slash is an identifier as it is.
pub proof fn law_plain_id_is_kept(id: Seq<char>)
    requires
        !id.contains('/'),
    ensures
        gist_id_in(id) == Some(id),
{
    lemma_segment_of_plain(id);
}

} // verus!
