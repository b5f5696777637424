//! The thread walker: from an arbitrary post of a conversation, assemble the
//! author's chain of self-replies.
//!
//! The walker performs no I/O.  [`walk_start`] turns the user-supplied post
//! URL into the first context request; the caller performs the GET and hands
//! the decoded [`TootContext`] to [`Walk::step`], which either asks for the
//! next context ([`WalkAction::FetchContext`]) or declares the walk complete
//! ([`WalkAction::Done`]).  While the walker has not yet seen the root of the
//! conversation it jumps to the earliest ancestor; from then on it appends
//! the author-matching descendants of each context to the chain and re-queries
//! from the last of them.

use vstd::prelude::*;

verus! {

use vstd::string::StringExecFns;
use crate::errors::ThreadError;
use crate::mastodon::MastoAccount;
use crate::mastodon::Toot;
use crate::mastodon::TootContext;
use crate::mastodon::toot_context_url;
use crate::mastodon::context_api_path;
use crate::urls::parse_post_url;
use crate::urls::parsed_url;
use crate::urls::post_id_of;

/// The defensive cap on context fetches in one walk.
pub const WALK_LIMIT: u64 = 64;

/// The author filter: whether `t` is a reply by the author `a` to a post of
/// `a` itself.  Authorship is decided by the profile URL; the addressee by
/// the account id.
pub open spec fn author_matches(t: Toot, a: MastoAccount) -> bool {
    &&& t.account.url@ == a.url@
    &&& t.in_reply_to_account_id matches Some(id) && id@ == a.id@
}

/// The predicate [`author_matches`] as a value, so that every filter by it
/// is by one and the same function.
pub open spec fn author_pred(a: MastoAccount) -> spec_fn(Toot) -> bool {
    |t: Toot| author_matches(t, a)
}

/// The descendants of a context that belong to the thread: those matching
/// the author filter, in their upstream order.
pub open spec fn author_filter(ds: Seq<Toot>, a: MastoAccount) -> Seq<Toot> {
    ds.filter(author_pred(a))
}

proof fn lemma_author_filter_step(s: Seq<Toot>, a: MastoAccount, k: int)
    requires
        0 <= k < s.len(),
    ensures
        author_filter(s.take(k + 1), a) == if author_matches(s[k], a) {
            author_filter(s.take(k), a).push(s[k])
        } else {
            author_filter(s.take(k), a)
        },
{
    reveal(Seq::filter);
    assert(s.take(k + 1).drop_last() =~= s.take(k));
    assert(s.take(k + 1).last() == s[k]);
}

/// Law: the walker's batch is exactly the descendants that pass the author
/// filter — every element of it passes the filter, every descendant that
/// passes the filter is in it, and it holds nothing else.
pub proof fn lemma_author_filter_exact(ds: Seq<Toot>, a: MastoAccount)
    ensures
        author_filter(ds, a).len() <= ds.len(),
        forall|i: int|
            0 <= i < author_filter(ds, a).len() ==> author_matches(
                #[trigger] author_filter(ds, a)[i],
                a,
            ),
        forall|i: int|
            0 <= i < ds.len() && author_matches(#[trigger] ds[i], a) ==> author_filter(
                ds,
                a,
            ).contains(ds[i]),
        forall|i: int|
            0 <= i < author_filter(ds, a).len() ==> ds.contains(#[trigger] author_filter(ds, a)[i]),
    decreases ds.len(),
{
    reveal(Seq::filter);
    let pred = author_pred(a);
    ds.lemma_filter_len(pred);
    assert forall|i: int| 0 <= i < author_filter(ds, a).len() implies author_matches(
        #[trigger] author_filter(ds, a)[i],
        a,
    ) by {
        ds.lemma_filter_pred(pred, i);
    }
    assert forall|i: int|
        0 <= i < ds.len() && author_matches(#[trigger] ds[i], a) implies author_filter(
        ds,
        a,
    ).contains(ds[i]) by {
        ds.lemma_filter_contains(pred, i);
    }
    if ds.len() > 0 {
        lemma_author_filter_exact(ds.drop_last(), a);
        let sub = author_filter(ds.drop_last(), a);
        let out = author_filter(ds, a);
        assert(out == if author_matches(ds.last(), a) {
            sub.push(ds.last())
        } else {
            sub
        });
        assert forall|i: int| 0 <= i < out.len() implies ds.contains(#[trigger] out[i]) by {
            if i < sub.len() {
                assert(out[i] == sub[i]);
                assert(ds.drop_last().contains(sub[i]));
                let j = choose|j: int|
                    0 <= j < ds.drop_last().len() && ds.drop_last()[j] == sub[i];
                assert(ds[j] == out[i]);
            } else {
                assert(out[i] == ds.last());
                assert(ds[ds.len() - 1] == out[i]);
            }
        }
    }
}

/// Keep, in order, the descendants that pass the author filter.
pub fn filter_author_toots(ds: Vec<Toot>, author: &MastoAccount) -> (r: Vec<Toot>)
    ensures
        r@ == author_filter(ds@, *author),
{
    let mut ds = ds;
    let total = ds.len();
    let ghost ds0 = ds@;
    let mut out: Vec<Toot> = Vec::new();
    let mut k: usize = 0;
    proof {
        assert(ds0.take(0) =~= Seq::<Toot>::empty());
        reveal(Seq::filter);
    }
    while ds.len() > 0
        invariant
            ds0.len() == total,
            k + ds.len() == ds0.len(),
            ds@ == ds0.subrange(k as int, ds0.len() as int),
            out@ == author_filter(ds0.take(k as int), *author),
        decreases ds.len(),
    {
        let t = ds.remove(0);
        proof {
            assert(t == ds0[k as int]);
            assert(ds@ =~= ds0.subrange(k as int + 1, ds0.len() as int));
            lemma_author_filter_step(ds0, *author, k as int);
        }
        let url_ok = t.account.url == author.url;
        let reply_ok = match &t.in_reply_to_account_id {
            Some(id) => *id == author.id,
            None => false,
        };
        if url_ok && reply_ok {
            out.push(t);
        }
        k = k + 1;
    }
    proof {
        assert(ds0.take(ds0.len() as int) =~= ds0);
    }
    out
}

/// The context API URL derived from parsed URL parts: scheme and host of the
/// parse, the context path of the post id carried by its path.
pub open spec fn context_fetch_url(parts: (Seq<char>, Seq<char>, Seq<char>)) -> Seq<char> {
    parts.0 + "://"@ + parts.1 + context_api_path(post_id_of(parts.2))
}

/// Whether the post URL `s` can yield a context request: it parses as a base
/// URL and its path carries a post id.
pub open spec fn next_fetch_ok(s: Seq<char>) -> bool {
    &&& parsed_url(s) is Some
    &&& post_id_of(parsed_url(s).unwrap().2).len() > 0
}

/// The context request reached from the post URL `s`.
pub open spec fn next_fetch_url(s: Seq<char>) -> Seq<char>
    recommends
        next_fetch_ok(s),
{
    context_fetch_url(parsed_url(s).unwrap())
}

/// What the caller of the walker must do next.
pub enum WalkAction {
    /// GET this URL, decode the body as a [`TootContext`], and hand it to
    /// [`Walk::step`].
    FetchContext(String),
    /// The walk is complete; the chain is in [`Walk::chain`].
    Done,
}

/// A walk in progress: the thread author, whether the conversation root has
/// been reached, the chain collected so far, the URL of the post the next
/// context belongs to, and how many contexts were already processed.
pub struct Walk {
    pub author: MastoAccount,
    pub at_root: bool,
    pub chain: Vec<Toot>,
    pub cursor_url: String,
    pub steps: u64,
}

/// Begin a walk at the user-supplied post URL: the returned string is the
/// first context request.  A string that does not parse as a base URL, or
/// whose path has no post id, is rejected as [`ThreadError::InvalidUrl`].
pub fn walk_start(url: &str, author: MastoAccount) -> (r: Result<(Walk, String), ThreadError>)
    ensures
        next_fetch_ok(url@) ==> (r matches Ok((w, fetch)) && w.author == author && w.at_root
            == false && w.chain@.len() == 0 && w.cursor_url@ == url@ && w.steps == 0 && fetch@
            == next_fetch_url(url@)),
        !next_fetch_ok(url@) ==> (r matches Err(e) && e is InvalidUrl),
{
    let u = parse_post_url(url)?;
    let fetch = toot_context_url(&u)?;
    let w = Walk {
        author,
        at_root: false,
        chain: Vec::new(),
        cursor_url: url.to_owned(),
        steps: 0,
    };
    Ok((w, fetch))
}

impl Walk {
    /// Feed the walker one fetched context.
    ///
    /// Until the root is seen: a context with ancestors moves the cursor to
    /// the earliest ancestor and asks for its context; one without marks the
    /// root reached.  At the root: the author-matching descendants form the
    /// batch; an empty batch — and, defensively, a batch whose last post is
    /// the cursor itself — ends the walk, otherwise the batch is appended to
    /// the chain and the walk continues from its last post.  A cursor URL
    /// from upstream data that cannot be parsed fails as
    /// [`ThreadError::Upstream`]; the iteration cap as
    /// [`ThreadError::WalkLimit`].
    pub fn step(&mut self, ctx: TootContext) -> (r: Result<WalkAction, ThreadError>)
        ensures
            final(self).author == old(self).author,
            old(self).steps >= WALK_LIMIT ==> (r matches Err(e) && e is WalkLimit && *final(self)
                == *old(self)),
            old(self).steps < WALK_LIMIT ==> final(self).at_root == (old(self).at_root
                || ctx.ancestors@.len() == 0),
            // before the root: a context with ancestors sends the walk to the
            // earliest ancestor, leaving the chain alone
            (old(self).steps < WALK_LIMIT && !old(self).at_root && ctx.ancestors@.len() > 0) ==> ({
                let target = ctx.ancestors@[0].url@;
                &&& final(self).chain == old(self).chain
                &&& next_fetch_ok(target) ==> (r matches Ok(a) && a matches
                    WalkAction::FetchContext(f) && f@ == next_fetch_url(target)
                    && final(self).cursor_url@ == target && final(self).steps == old(self).steps
                    + 1)
                &&& !next_fetch_ok(target) ==> (r matches Err(e) && e is Upstream && final(self).cursor_url == old(self).cursor_url && final(self).steps == old(self).steps)
            }),
            // at the root (or a context without ancestors): filter, append,
            // continue from the last of the batch; an empty batch or a batch
            // ending at the cursor ends the walk
            (old(self).steps < WALK_LIMIT && (old(self).at_root || ctx.ancestors@.len() == 0))
                ==> ({
                let batch = author_filter(ctx.descendants@, old(self).author);
                &&& (batch.len() == 0 || (batch.len() > 0 && batch.last().url@ == old(self).cursor_url@)) ==> (r matches Ok(a) && a is Done && final(self).chain == old(self).chain && final(self).cursor_url == old(self).cursor_url && final(self).steps
                    == old(self).steps)
                &&& (batch.len() > 0 && batch.last().url@ != old(self).cursor_url@) ==> ({
                    let target = batch.last().url@;
                    &&& next_fetch_ok(target) ==> (r matches Ok(a) && a matches
                        WalkAction::FetchContext(f) && f@ == next_fetch_url(target) && final(self).chain@ == old(self).chain@ + batch && final(self).cursor_url@ == target
                        && final(self).steps == old(self).steps + 1)
                    &&& !next_fetch_ok(target) ==> (r matches Err(e) && e is Upstream && final(self).chain == old(self).chain && final(self).cursor_url == old(self).cursor_url
                        && final(self).steps == old(self).steps)
                })
            }),
    {
        if self.steps >= WALK_LIMIT {
            return Err(ThreadError::WalkLimit);
        }
        let mut ctx = ctx;
        if !self.at_root {
            if ctx.ancestors.len() > 0 {
                let first = ctx.ancestors.remove(0);
                let u = match parse_post_url(first.url.as_str()) {
                    Ok(u) => u,
                    Err(_) => {
                        return Err(
                            ThreadError::Upstream(
                                String::from_str("ancestor URL cannot be parsed"),
                            ),
                        );
                    },
                };
                let fetch = match toot_context_url(&u) {
                    Ok(f) => f,
                    Err(_) => {
                        return Err(
                            ThreadError::Upstream(String::from_str("ancestor URL has no post id")),
                        );
                    },
                };
                self.cursor_url = first.url;
                self.steps = self.steps + 1;
                return Ok(WalkAction::FetchContext(fetch));
            } else {
                self.at_root = true;
            }
        }
        let batch = filter_author_toots(ctx.descendants, &self.author);
        if batch.len() == 0 {
            return Ok(WalkAction::Done);
        }
        let last_url = batch[batch.len() - 1].url.clone();
        if last_url == self.cursor_url {
            return Ok(WalkAction::Done);
        }
        let u = match parse_post_url(last_url.as_str()) {
            Ok(u) => u,
            Err(_) => {
                return Err(
                    ThreadError::Upstream(String::from_str("descendant URL cannot be parsed")),
                );
            },
        };
        let fetch = match toot_context_url(&u) {
            Ok(f) => f,
            Err(_) => {
                return Err(
                    ThreadError::Upstream(String::from_str("descendant URL has no post id")),
                );
            },
        };
        let mut batch = batch;
        self.chain.append(&mut batch);
        self.cursor_url = last_url;
        self.steps = self.steps + 1;
        Ok(WalkAction::FetchContext(fetch))
    }
}

} // verus!
