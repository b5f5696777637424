//! URL utilities: parse an absolute URL, extract the trailing path segment
//! (the post id), reduce a URL to host-only form, and substitute or extend
//! the path.
//!
//! A parsed URL is kept as a [`PostUrl`]: the scheme, the host (with the port
//! when one is present), and the path.  Parsing a raw string is the one step
//! the `base_url` crate performs; everything after it is verified.

use vstd::prelude::*;

verus! {

use vstd::string::StrSliceExecFns;
use vstd::string::StringExecFns;
use crate::errors::ThreadError;

/// An absolute URL reduced to the parts the library reads: the scheme, the
/// host (`host:port` when a port is present), and the path.
pub struct PostUrl {
    pub scheme: String,
    pub host: String,
    pub path: String,
}

/// `p` with every trailing slash removed.
pub open spec fn trim_trailing_slashes(p: Seq<char>) -> Seq<char>
    decreases p.len(),
{
    if p.len() > 0 && p.last() == '/' {
        trim_trailing_slashes(p.drop_last())
    } else {
        p
    }
}

/// The suffix of `p` after its last slash; `p` itself when it has none.
pub open spec fn suffix_after_last_slash(p: Seq<char>) -> Seq<char>
    decreases p.len(),
{
    if p.len() == 0 {
        Seq::empty()
    } else if p.last() == '/' {
        Seq::empty()
    } else {
        suffix_after_last_slash(p.drop_last()).push(p.last())
    }
}

/// The post id carried by a URL path: its last non-empty segment, or the
/// empty sequence where the path has no non-empty segment.
pub open spec fn post_id_of(p: Seq<char>) -> Seq<char> {
    suffix_after_last_slash(trim_trailing_slashes(p))
}

impl PostUrl {
    /// What holds of every URL that was parsed from a string: its path
    /// begins with a slash.
    pub open spec fn wf(self) -> bool {
        self.path@.len() >= 1 && self.path@[0] == '/'
    }

    /// The serialization of the URL: scheme, `://`, host, path.
    pub open spec fn spec_str(self) -> Seq<char> {
        self.scheme@ + "://"@ + self.host@ + self.path@
    }

    /// Serialize the URL back to a string.
    pub fn url_string(&self) -> (r: String)
        ensures
            r@ == self.spec_str(),
    {
        let mut out = self.scheme.clone();
        out.append("://");
        out.append(self.host.as_str());
        out.append(self.path.as_str());
        out
    }

    /// The URL with the same scheme and host but the root path, used before
    /// substituting an API path so that requests always hit the origin host.
    pub fn host_only(&self) -> (r: PostUrl)
        ensures
            r.scheme@ == self.scheme@,
            r.host@ == self.host@,
            r.path@ == "/"@,
            r.wf(),
    {
        let r = PostUrl {
            scheme: self.scheme.clone(),
            host: self.host.clone(),
            path: String::from_str("/"),
        };
        proof {
            reveal_strlit("/");
        }
        r
    }

    /// The URL with its path replaced by `p`.
    pub fn with_path(&self, p: &str) -> (r: PostUrl)
        ensures
            r.scheme@ == self.scheme@,
            r.host@ == self.host@,
            r.path@ == p@,
    {
        PostUrl { scheme: self.scheme.clone(), host: self.host.clone(), path: p.to_owned() }
    }

    /// The URL with `suffix` appended to its current path.
    pub fn with_path_appended(&self, suffix: &str) -> (r: PostUrl)
        ensures
            r.scheme@ == self.scheme@,
            r.host@ == self.host@,
            r.path@ == self.path@ + suffix@,
    {
        let mut p = self.path.clone();
        p.append(suffix);
        PostUrl { scheme: self.scheme.clone(), host: self.host.clone(), path: p }
    }

    /// The id of the post the URL points at: the last non-empty segment of
    /// its path.  A URL whose path has no non-empty segment is rejected.
    pub fn post_id(&self) -> (r: Result<String, ThreadError>)
        ensures
            post_id_of(self.path@).len() > 0 ==> (r matches Ok(id) && id@ == post_id_of(
                self.path@,
            )),
            post_id_of(self.path@).len() == 0 ==> (r matches Err(e) && e is InvalidUrl),
    {
        let p = self.path.as_str();
        let n = p.unicode_len();
        let mut end = n;
        proof {
            assert(p@.take(n as int) =~= p@);
        }
        loop
            invariant
                end <= n,
                n == p@.len(),
                trim_trailing_slashes(p@) == trim_trailing_slashes(p@.take(end as int)),
            ensures
                end <= n,
                trim_trailing_slashes(p@) =~= p@.take(end as int),
            decreases end,
        {
            if end == 0 {
                proof {
                    assert(p@.take(0) =~= Seq::<char>::empty());
                }
                break ;
            }
            let c = p.get_char(end - 1);
            if c != '/' {
                break ;
            }
            proof {
                assert(p@.take(end as int).drop_last() =~= p@.take(end as int - 1));
            }
            end = end - 1;
        }
        let mut start = end;
        proof {
            assert(suffix_after_last_slash(p@.take(end as int)) =~= suffix_after_last_slash(
                p@.take(end as int),
            ) + p@.subrange(end as int, end as int));
        }
        loop
            invariant
                start <= end <= n,
                n == p@.len(),
                suffix_after_last_slash(p@.take(end as int)) == suffix_after_last_slash(
                    p@.take(start as int),
                ) + p@.subrange(start as int, end as int),
            ensures
                start <= end,
                suffix_after_last_slash(p@.take(end as int)) =~= p@.subrange(
                    start as int,
                    end as int,
                ),
            decreases start,
        {
            if start == 0 {
                proof {
                    assert(p@.take(0) =~= Seq::<char>::empty());
                }
                break ;
            }
            let c = p.get_char(start - 1);
            if c == '/' {
                break ;
            }
            proof {
                assert(p@.take(start as int).drop_last() =~= p@.take(start as int - 1));
                assert(suffix_after_last_slash(p@.take(start as int - 1)).push(
                    p@[start as int - 1],
                ) + p@.subrange(start as int, end as int) =~= suffix_after_last_slash(
                    p@.take(start as int - 1),
                ) + p@.subrange(start as int - 1, end as int));
            }
            start = start - 1;
        }
        if start == end {
            proof {
                assert(p@.subrange(end as int, end as int) =~= Seq::<char>::empty());
            }
            Err(ThreadError::InvalidUrl(String::from_str("invalid URL: no post id in path")))
        } else {
            let id = p.substring_char(start, end);
            Ok(id.to_owned())
        }
    }
}

/// What `base_url::BaseUrl::try_from` makes of a string: `None` where the
/// string is not an absolute base URL with a host, otherwise the scheme,
/// host and path of the URL it parsed.  The parse depends on the string
/// alone.
pub uninterp spec fn parsed_url(s: Seq<char>) -> Option<(Seq<char>, Seq<char>, Seq<char>)>;

/// Relies on `base_url::BaseUrl::try_from` to accept only strings that parse
/// as base URLs, and on the accessors `scheme`, `host_str`, `port` and
/// `path` of the inner `url::Url` for the parts; a URL without a host (a
/// `file` URL can be one) is rejected here.  The `url` crate documents that
/// the path of such a URL starts with a slash.
#[verifier::external_body]
fn parse_base_url(s: &str) -> (r: Option<PostUrl>)
    ensures
        r matches Some(u) ==> parsed_url(s@) == Some((u.scheme@, u.host@, u.path@)) && u.wf(),
        r is None ==> parsed_url(s@) is None,
{
    let u: base_url::Url = match base_url::BaseUrl::try_from(s) {
        Ok(b) => b.into(),
        Err(_) => return None,
    };
    let host = match (u.host_str(), u.port()) {
        (Some(h), Some(p)) => format!("{}:{}", h, p),
        (Some(h), None) => h.to_string(),
        (None, _) => return None,
    };
    Some(PostUrl { scheme: u.scheme().to_string(), host, path: u.path().to_string() })
}

/// Parse a user-supplied string as an absolute base URL; anything else is an
/// [`ThreadError::InvalidUrl`] failure.
pub fn parse_post_url(s: &str) -> (r: Result<PostUrl, ThreadError>)
    ensures
        parsed_url(s@) matches Some(parts) ==> (r matches Ok(u) && u.scheme@ == parts.0 && u.host@
            == parts.1 && u.path@ == parts.2 && u.wf()),
        parsed_url(s@) is None ==> (r matches Err(e) && e is InvalidUrl),
{
    match parse_base_url(s) {
        Some(u) => Ok(u),
        None => Err(ThreadError::InvalidUrl(String::from_str("cannot parse as base URL"))),
    }
}

/// Law: a path that ends in a slash followed by a non-empty segment without
/// slashes has exactly that segment as its post id.
pub proof fn lemma_post_id_extraction(prefix: Seq<char>, seg: Seq<char>)
    requires
        seg.len() > 0,
        forall|i: int| 0 <= i < seg.len() ==> seg[i] != '/',
    ensures
        post_id_of(prefix + seq!['/'] + seg) == seg,
    decreases seg.len(),
{
    let p = prefix + seq!['/'] + seg;
    assert(p.last() == seg.last());
    assert(trim_trailing_slashes(p) == p);
    if seg.len() == 1 {
        assert(p.drop_last() =~= prefix + seq!['/']);
        assert(suffix_after_last_slash(prefix + seq!['/']) =~= Seq::<char>::empty());
        assert(suffix_after_last_slash(p) =~= seg);
    } else {
        lemma_post_id_extraction(prefix, seg.drop_last());
        assert(trim_trailing_slashes(prefix + seq!['/'] + seg.drop_last()) == prefix + seq!['/']
            + seg.drop_last());
        assert(p.drop_last() =~= prefix + seq!['/'] + seg.drop_last());
        assert(suffix_after_last_slash(p) =~= seg);
    }
}

/// Law: substituting a path after reducing a URL to host-only form yields
/// the scheme and host followed by exactly the new path, whatever path the
/// URL carried before.
pub proof fn lemma_host_only_substitution(u: PostUrl, v: PostUrl, p: Seq<char>)
    requires
        v.scheme@ == u.scheme@,
        v.host@ == u.host@,
        v.path@ == p,
    ensures
        v.spec_str() == u.scheme@ + "://"@ + u.host@ + p,
{
}

} // verus!
