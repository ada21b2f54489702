//! Whole loads: what a loader and the cache file come to when the loader is
//! driven by one reply after another.
//!
//! Nothing here runs. The cache file is followed in ghost state, under the
//! one assumption the loader makes of whoever drives it: the file changes
//! only when a request to store is carried out.

use vstd::prelude::*;
use crate::loader::{Dataset, Loader, Outcome, Phase, ReadFailure, Reply, RequestView};
use crate::policy::RefreshPolicy;

verus! {

/// The text of the cache file (`None`: there is no file) once `request` has
/// been answered by `reply`: only a request to store that was carried out
/// changes it, to the text that was to be stored.
pub open spec fn cache_after<T>(
    cache: Option<Seq<char>>,
    request: RequestView,
    reply: Reply<T>,
) -> Option<Seq<char>> {
    match (request, reply) {
        (RequestView::Store(body), Reply::Stored(true)) => Some(body),
        _ => cache,
    }
}

/// Where a load stands, and what the cache file holds.
pub ghost struct Run<T> {
    pub outcome: Outcome<T>,
    pub cache: Option<Seq<char>>,
}

/// The load of `loader`, with `cache` in the cache file, driven by `replies`
/// in turn until it ends or the replies run out.
pub open spec fn run<T>(loader: Loader<T>, cache: Option<Seq<char>>, replies: Seq<Reply<T>>) -> Run<
    T,
>
    decreases replies.len(),
{
    if replies.len() == 0 {
        Run { outcome: Outcome::Pending(loader), cache }
    } else {
        let written = cache_after(cache, loader.pending(), replies.first());
        match loader.next(replies.first()) {
            Outcome::Pending(next) => run(next, written, replies.drop_first()),
            ended => Run { outcome: ended, cache: written },
        }
    }
}

/// Whether `reply` is an answer that `request` can truly get while the cache
/// file holds `cache` and texts decode as `decode` says. What the remote
/// service sends, how old the file is and whether a write succeeds is left
/// open; what is read is what the file holds, a file that is there is never
/// reported missing, and a text decodes to what `decode` makes of it.
pub open spec fn honest<T>(
    request: RequestView,
    reply: Reply<T>,
    cache: Option<Seq<char>>,
    decode: spec_fn(Seq<char>) -> Option<T>,
) -> bool {
    match request {
        RequestView::Exists => reply is Exists && (reply->Exists_0 <==> cache is Some),
        RequestView::Age => reply is Age,
        RequestView::Fetch => reply is Fetched,
        RequestView::Decode(body) => reply == Reply::Decoded(decode(body)),
        RequestView::Store(_) => reply is Stored,
        RequestView::Read => reply is Read && match reply->Read_0 {
            Ok(body) => cache == Some(body@),
            Err(ReadFailure::Missing) => cache is None,
            Err(ReadFailure::Unreadable) => cache is Some,
        },
    }
}

/// Whether every reply of the run is [`honest`].
pub open spec fn honest_run<T>(
    loader: Loader<T>,
    cache: Option<Seq<char>>,
    replies: Seq<Reply<T>>,
    decode: spec_fn(Seq<char>) -> Option<T>,
) -> bool
    decreases replies.len(),
{
    if replies.len() == 0 {
        true
    } else {
        &&& honest(loader.pending(), replies.first(), cache, decode)
        &&& match loader.next(replies.first()) {
            Outcome::Pending(next) => honest_run(
                next,
                cache_after(cache, loader.pending(), replies.first()),
                replies.drop_first(),
                decode,
            ),
            _ => true,
        }
    }
}

/// Whether what `loader` holds agrees with the cache file and the decoder:
/// a text it took from the cache is the text in the cache, and a value it
/// holds for a fetched text is what that text decodes to.
pub open spec fn settled<T>(
    loader: Loader<T>,
    cache: Option<Seq<char>>,
    decode: spec_fn(Seq<char>) -> Option<T>,
) -> bool {
    match loader.phase {
        Phase::DecodingCached { body } => cache == Some(body@),
        Phase::Storing { body, value } => decode(body@) == Some(value),
        _ => true,
    }
}

/// The cache file changes only in a load that succeeds: whatever the
/// replies, a load that fails, or that has not ended yet, leaves the file
/// as it was. So a fetched text that does not decode never reaches the
/// cache.
pub proof fn lemma_failed_load_keeps_cache<T>(
    loader: Loader<T>,
    cache: Option<Seq<char>>,
    replies: Seq<Reply<T>>,
)
    ensures
        run(loader, cache, replies).outcome is Loaded || run(loader, cache, replies).cache == cache,
    decreases replies.len(),
{
    if replies.len() > 0 {
        match loader.next(replies.first()) {
            Outcome::Pending(next) => {
                lemma_failed_load_keeps_cache(
                    next,
                    cache_after(cache, loader.pending(), replies.first()),
                    replies.drop_first(),
                );
            },
            _ => {},
        }
    }
}

/// After a load that succeeded, the cache file holds a text that decodes to
/// the value that was loaded: the text that was read, or the text that was
/// fetched and stored.
pub proof fn lemma_loaded_value_is_cached<T>(
    loader: Loader<T>,
    cache: Option<Seq<char>>,
    replies: Seq<Reply<T>>,
    decode: spec_fn(Seq<char>) -> Option<T>,
)
    requires
        settled(loader, cache, decode),
        honest_run(loader, cache, replies, decode),
        run(loader, cache, replies).outcome is Loaded,
    ensures
        run(loader, cache, replies).cache is Some,
        decode(run(loader, cache, replies).cache->0) == Some(
            run(loader, cache, replies).outcome->Loaded_0,
        ),
    decreases replies.len(),
{
    if replies.len() > 0 {
        match loader.next(replies.first()) {
            Outcome::Pending(next) => {
                lemma_loaded_value_is_cached(
                    next,
                    cache_after(cache, loader.pending(), replies.first()),
                    replies.drop_first(),
                    decode,
                );
            },
            _ => {},
        }
    }
}

/// A load that goes to the cache while the file holds `text` ends, if it
/// ends with a value, with the value that `text` decodes to.
pub proof fn lemma_cached_load_decodes_cache<T>(
    loader: Loader<T>,
    text: Seq<char>,
    replies: Seq<Reply<T>>,
    decode: spec_fn(Seq<char>) -> Option<T>,
)
    requires
        loader.phase is Reading,
        honest_run(loader, Some(text), replies, decode),
        run(loader, Some(text), replies).outcome is Loaded,
    ensures
        decode(text) == Some(run(loader, Some(text), replies).outcome->Loaded_0),
        run(loader, Some(text), replies).cache == Some(text),
{
    lemma_loaded_value_is_cached(loader, Some(text), replies, decode);
    lemma_reading_load_never_stores(loader, Some(text), replies);
}

/// Whether a loader is on the way through the cache: it reads, or decodes
/// what it read.
pub open spec fn on_cache_path<T>(loader: Loader<T>) -> bool {
    loader.phase is Reading || loader.phase is DecodingCached
}

/// A load that has gone to the cache asks for nothing to be stored: the
/// file is the same after it, however it ends.
pub proof fn lemma_reading_load_never_stores<T>(
    loader: Loader<T>,
    cache: Option<Seq<char>>,
    replies: Seq<Reply<T>>,
)
    requires
        on_cache_path(loader),
    ensures
        run(loader, cache, replies).cache == cache,
    decreases replies.len(),
{
    if replies.len() > 0 {
        match loader.next(replies.first()) {
            Outcome::Pending(next) => {
                lemma_reading_load_never_stores(next, cache, replies.drop_first());
            },
            _ => {},
        }
    }
}

/// Round trip through the cache. Let a first load end with a value, and let
/// a second load go to the cache file as the first load left it. If the
/// second load ends with a value, it is the value of the first.
pub proof fn lemma_round_trip<T>(
    first: Loader<T>,
    cache: Option<Seq<char>>,
    first_replies: Seq<Reply<T>>,
    second: Loader<T>,
    second_replies: Seq<Reply<T>>,
    decode: spec_fn(Seq<char>) -> Option<T>,
)
    requires
        settled(first, cache, decode),
        honest_run(first, cache, first_replies, decode),
        run(first, cache, first_replies).outcome is Loaded,
        second.phase is Reading,
        honest_run(second, run(first, cache, first_replies).cache, second_replies, decode),
        run(second, run(first, cache, first_replies).cache, second_replies).outcome is Loaded,
    ensures
        run(second, run(first, cache, first_replies).cache, second_replies).outcome == run(
            first,
            cache,
            first_replies,
        ).outcome,
{
    lemma_loaded_value_is_cached(first, cache, first_replies, decode);
    let left = run(first, cache, first_replies).cache;
    lemma_cached_load_decodes_cache(second, left->0, second_replies, decode);
}

/// Whether `loader` holds `text` as the text it fetched: it has it decoded,
/// or has it stored.
pub open spec fn carries<T>(loader: Loader<T>, text: Seq<char>) -> bool {
    match loader.phase {
        Phase::DecodingFetched { body } => body@ == text,
        Phase::Storing { body, value } => body@ == text,
        _ => false,
    }
}

/// A loader that holds a fetched text and comes to a value leaves that text
/// in the cache file.
pub proof fn lemma_carried_text_is_stored<T>(
    loader: Loader<T>,
    cache: Option<Seq<char>>,
    replies: Seq<Reply<T>>,
    text: Seq<char>,
)
    requires
        carries(loader, text),
        run(loader, cache, replies).outcome is Loaded,
    ensures
        run(loader, cache, replies).cache == Some(text),
    decreases replies.len(),
{
    if replies.len() > 0 {
        match loader.next(replies.first()) {
            Outcome::Pending(next) => {
                lemma_carried_text_is_stored(
                    next,
                    cache_after(cache, loader.pending(), replies.first()),
                    replies.drop_first(),
                    text,
                );
            },
            _ => {},
        }
    }
}

/// What a load that fetched leaves in the cache file is the text it fetched,
/// as it came.
pub proof fn lemma_fetched_text_is_stored<T>(
    loader: Loader<T>,
    cache: Option<Seq<char>>,
    replies: Seq<Reply<T>>,
    fetched: String,
)
    requires
        loader.phase is Fetching,
        replies.len() > 0,
        replies.first() == Reply::<T>::Fetched(Some(fetched)),
        run(loader, cache, replies).outcome is Loaded,
    ensures
        run(loader, cache, replies).cache == Some(fetched@),
{
    let next = loader.next(replies.first())->Pending_0;
    lemma_carried_text_is_stored(next, cache, replies.drop_first(), fetched@);
}

/// A load ends, one way or the other, within five honest replies.
pub proof fn lemma_load_ends_in_five<T>(
    dataset: Dataset,
    policy: RefreshPolicy,
    force: bool,
    cache: Option<Seq<char>>,
    replies: Seq<Reply<T>>,
    decode: spec_fn(Seq<char>) -> Option<T>,
)
    requires
        replies.len() >= 5,
        honest_run(Loader::<T>::initial(dataset, policy, force), cache, replies, decode),
    ensures
        !(run(Loader::<T>::initial(dataset, policy, force), cache, replies).outcome is Pending),
{
    reveal_with_fuel(run, 6);
    reveal_with_fuel(honest_run, 6);
}

} // verus!
