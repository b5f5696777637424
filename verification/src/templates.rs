//! The values handed to the rendering layer: one struct per page, and the
//! verified builders that fill them.  Turning these values into HTML is the
//! rendering layer's business, not the library's.

use vstd::prelude::*;

verus! {

use vstd::string::StringExecFns;
use crate::errors::RenderError;
use crate::errors::ThreadError;
use crate::errors::render_message;
use crate::mastodon::Toot;
use crate::mastodon::TootTemplate;
use crate::mastodon::embed_js_of;
use crate::mastodon::embed_url_of;
use crate::mastodon::get_toot_embed_code;
use crate::urls::parse_post_url;
use crate::urls::parsed_url;

/// The landing page.
pub struct Index {
    pub title: String,
    pub url: Option<String>,
}

/// The thread page: the root post's embed descriptor and one descriptor per
/// chained self-reply.
pub struct Thread {
    pub title: String,
    pub url: Option<String>,
    pub root_toot: TootTemplate,
    pub thread_children: Vec<TootTemplate>,
}

/// The Markdown page: the root post and the chained self-replies themselves.
pub struct Markdown {
    pub title: String,
    pub url: Option<String>,
    pub root_toot: Toot,
    pub thread_children: Vec<Toot>,
}

/// The error page.
pub struct Error {
    pub title: String,
    pub url: Option<String>,
    pub error: String,
}

/// The landing page value.
pub fn index() -> (r: Index)
    ensures
        r.title@ == "Index"@,
        r.url is None,
{
    Index { title: String::from_str("Index"), url: None }
}

/// The embed descriptors of a chain of posts, one per post whose URL parses
/// as a base URL, in order; posts whose URL does not parse are skipped.
/// Each element is the pair (embed URL, embed script URL).
pub open spec fn embeds_of(ts: Seq<Toot>) -> Seq<(Seq<char>, Seq<char>)>
    decreases ts.len(),
{
    if ts.len() == 0 {
        Seq::empty()
    } else {
        embeds_of(ts.drop_last()) + match parsed_url(ts.last().url@) {
            Some(parts) => seq![
                (embed_url_of(parts.0, parts.1, parts.2), embed_js_of(parts.0, parts.1)),
            ],
            None => Seq::empty(),
        }
    }
}

/// The embed descriptor of the root post: the user-supplied URL, parsed and
/// projected; a string that is no base URL is an
/// [`ThreadError::InvalidUrl`] failure.
pub fn thread_root(url: &str) -> (r: Result<TootTemplate, ThreadError>)
    ensures
        parsed_url(url@) matches Some(parts) ==> (r matches Ok(t) && t.embed_url@ == embed_url_of(
            parts.0,
            parts.1,
            parts.2,
        ) && t.embed_js@ == embed_js_of(parts.0, parts.1)),
        parsed_url(url@) is None ==> (r matches Err(e) && e is InvalidUrl),
{
    let u = parse_post_url(url)?;
    Ok(get_toot_embed_code(&u))
}

/// The embed descriptors of the walked chain, in chain order, skipping posts
/// whose URL does not parse.
pub fn thread_children_embeds(children: &Vec<Toot>) -> (r: Vec<TootTemplate>)
    ensures
        r@.len() == embeds_of(children@).len(),
        forall|i: int|
            0 <= i < r@.len() ==> (#[trigger] r@[i]).embed_url@ == embeds_of(children@)[i].0
                && r@[i].embed_js@ == embeds_of(children@)[i].1,
{
    let mut out: Vec<TootTemplate> = Vec::new();
    let mut i: usize = 0;
    proof {
        assert(children@.take(0) =~= Seq::<Toot>::empty());
    }
    while i < children.len()
        invariant
            i <= children@.len(),
            out@.len() == embeds_of(children@.take(i as int)).len(),
            forall|j: int|
                0 <= j < out@.len() ==> (#[trigger] out@[j]).embed_url@ == embeds_of(
                    children@.take(i as int),
                )[j].0 && out@[j].embed_js@ == embeds_of(children@.take(i as int))[j].1,
        decreases children@.len() - i,
    {
        proof {
            assert(children@.take(i as int + 1).drop_last() =~= children@.take(i as int));
            assert(children@.take(i as int + 1).last() == children@[i as int]);
        }
        match parse_post_url(children[i].url.as_str()) {
            Ok(u) => {
                out.push(get_toot_embed_code(&u));
            },
            Err(_) => {},
        }
        i = i + 1;
    }
    proof {
        assert(children@.take(children@.len() as int) =~= children@);
    }
    out
}

/// The thread page value: the fixed title, the request URL, the root embed
/// descriptor, and the descriptors of the chained self-replies.
pub fn thread_page(url: &String, root_toot: TootTemplate, children: &Vec<Toot>) -> (r: Thread)
    ensures
        r.title@ == "Thread"@,
        r.url matches Some(u) && u@ == url@,
        r.root_toot == root_toot,
        r.thread_children@.len() == embeds_of(children@).len(),
        forall|i: int|
            0 <= i < r.thread_children@.len() ==> (#[trigger] r.thread_children@[i]).embed_url@
                == embeds_of(children@)[i].0 && r.thread_children@[i].embed_js@ == embeds_of(
                children@,
            )[i].1,
{
    Thread {
        title: String::from_str("Thread"),
        url: Some(url.clone()),
        root_toot,
        thread_children: thread_children_embeds(children),
    }
}

/// The Markdown page value: the fixed title, the request URL, the root post
/// and the chained self-replies, unchanged.
pub fn markdown_page(url: &String, root_toot: Toot, thread_children: Vec<Toot>) -> (r: Markdown)
    ensures
        r.title@ == "Markdown"@,
        r.url matches Some(u) && u@ == url@,
        r.root_toot == root_toot,
        r.thread_children == thread_children,
{
    Markdown {
        title: String::from_str("Markdown"),
        url: Some(url.clone()),
        root_toot,
        thread_children,
    }
}

/// The error page value: the fixed title and the error's status line.
pub fn error_page(err: &RenderError) -> (r: Error)
    ensures
        r.title@ == "Uh-oh"@,
        r.url is None,
        r.error@ == render_message(*err),
{
    Error { title: String::from_str("Uh-oh"), url: None, error: err.describe() }
}

} // verus!
