//! Loading one dataset: a state machine that asks for one piece of outside
//! work at a time (a look at the cache, a fetch, a decoding) and decides from
//! each answer what comes next.
//!
//! The machine itself touches neither disk nor network. Whoever drives it
//! carries out [`Loader::request`], hands the answer to [`Loader::advance`],
//! and goes on until the load has ended.

use vstd::prelude::*;
use crate::policy::{RefreshPolicy, TimeSpan};

verus! {

/// The two datasets, each cached in a file of its own.
#[derive(Clone, Copy, Debug, PartialEq, Eq, Structural)]
pub enum Dataset {
    /// Item ids and names.
    Mappings,
    /// Latest high and low prices by item id.
    Prices,
}

impl Dataset {
    /// Name of the dataset's file in the cache directory.
    pub open spec fn cache_file(self) -> Seq<char> {
        match self {
            Dataset::Mappings => "mappings.json"@,
            Dataset::Prices => "prices.json"@,
        }
    }

    /// Address the dataset is fetched from.
    pub open spec fn endpoint(self) -> Seq<char> {
        match self {
            Dataset::Mappings => "https://prices.runescape.wiki/api/v1/osrs/mapping"@,
            Dataset::Prices => "https://prices.runescape.wiki/api/v1/osrs/latest"@,
        }
    }

    /// Name of the dataset's file in the cache directory.
    pub fn file_name(&self) -> (name: &'static str)
        ensures
            name@ == self.cache_file(),
    {
        match self {
            Dataset::Mappings => "mappings.json",
            Dataset::Prices => "prices.json",
        }
    }

    /// Address the dataset is fetched from.
    pub fn url(&self) -> (url: &'static str)
        ensures
            url@ == self.endpoint(),
    {
        match self {
            Dataset::Mappings => "https://prices.runescape.wiki/api/v1/osrs/mapping",
            Dataset::Prices => "https://prices.runescape.wiki/api/v1/osrs/latest",
        }
    }
}

/// Why a load ended without a value. None of these is retried.
#[derive(Clone, Copy, Debug, PartialEq, Eq, Structural)]
pub enum LoadError {
    /// The cache was to be read and is not there.
    CacheMissing,
    /// The cache is there, but its age or its content cannot be read.
    CacheUnreadable,
    /// The fetched text could not be written to the cache.
    CacheWriteFailed,
    /// The transport did not deliver.
    FetchFailed,
    /// The text is not a well-formed document of the dataset.
    DecodeFailed,
}

/// Why a cache file gave no text.
#[derive(Clone, Copy, Debug, PartialEq, Eq, Structural)]
pub enum ReadFailure {
    /// There is no such file.
    Missing,
    /// The file is there and cannot be read.
    Unreadable,
}

/// What a loader is waiting for.
#[derive(Debug)]
pub enum Phase<T> {
    /// Whether the cache file exists.
    Probing,
    /// The age of the cache file.
    Aging,
    /// The text from the remote endpoint.
    Fetching,
    /// The decoding of the text that was fetched.
    DecodingFetched { body: String },
    /// The writing of the fetched text, already decoded to `value`.
    Storing { body: String, value: T },
    /// The text of the cache file.
    Reading,
    /// The decoding of the text that was read from the cache.
    DecodingCached { body: String },
}

/// A load under way.
#[derive(Debug)]
pub struct Loader<T> {
    pub dataset: Dataset,
    pub policy: RefreshPolicy,
    pub force: bool,
    pub phase: Phase<T>,
}

/// The outside work a loader asks for.
#[derive(Clone, Copy, Debug)]
pub enum Request<'a> {
    /// Say whether the cache file exists.
    Exists,
    /// Say how long ago the cache file was last modified.
    Age,
    /// Get the text from the remote endpoint.
    Fetch,
    /// Decode this text.
    Decode(&'a str),
    /// Write this text to the cache file, making its directory first.
    Store(&'a str),
    /// Read the text of the cache file.
    Read,
}

/// A [`Request`] with its text as a sequence of characters.
pub ghost enum RequestView {
    Exists,
    Age,
    Fetch,
    Decode(Seq<char>),
    Store(Seq<char>),
    Read,
}

impl<'a> View for Request<'a> {
    type V = RequestView;

    open spec fn view(&self) -> RequestView {
        match *self {
            Request::Exists => RequestView::Exists,
            Request::Age => RequestView::Age,
            Request::Fetch => RequestView::Fetch,
            Request::Decode(body) => RequestView::Decode(body@),
            Request::Store(body) => RequestView::Store(body@),
            Request::Read => RequestView::Read,
        }
    }
}

/// The answer to a [`Request`].
#[derive(Debug)]
pub enum Reply<T> {
    /// To [`Request::Exists`].
    Exists(bool),
    /// To [`Request::Age`]; `None` where the file's times cannot be read or
    /// lie in the future.
    Age(Option<TimeSpan>),
    /// To [`Request::Fetch`]; `None` where the transport failed.
    Fetched(Option<String>),
    /// To [`Request::Decode`]; `None` where the text is malformed.
    Decoded(Option<T>),
    /// To [`Request::Store`]; whether the text was written.
    Stored(bool),
    /// To [`Request::Read`].
    Read(Result<String, ReadFailure>),
}

/// Where a loader stands after an answer.
#[derive(Debug)]
pub enum Outcome<T> {
    /// More outside work is needed.
    Pending(Loader<T>),
    /// The dataset is there.
    Loaded(T),
    /// The load has failed.
    Failed(LoadError),
}

impl<T> Loader<T> {
    /// The loader a load begins with. A forced refresh goes straight to the
    /// fetch; otherwise the cache is looked at first.
    pub open spec fn initial(dataset: Dataset, policy: RefreshPolicy, force: bool) -> Loader<T> {
        Loader { dataset, policy, force, phase: if force { Phase::Fetching } else { Phase::Probing } }
    }

    /// This loader in another phase.
    pub open spec fn moved_to(self, phase: Phase<T>) -> Loader<T> {
        Loader { dataset: self.dataset, policy: self.policy, force: self.force, phase }
    }

    /// The request that is outstanding.
    pub open spec fn pending(self) -> RequestView {
        match self.phase {
            Phase::Probing => RequestView::Exists,
            Phase::Aging => RequestView::Age,
            Phase::Fetching => RequestView::Fetch,
            Phase::DecodingFetched { body } => RequestView::Decode(body@),
            Phase::Storing { body, value } => RequestView::Store(body@),
            Phase::Reading => RequestView::Read,
            Phase::DecodingCached { body } => RequestView::Decode(body@),
        }
    }

    /// Whether `reply` answers the outstanding request.
    pub open spec fn awaits(self, reply: Reply<T>) -> bool {
        match (self.phase, reply) {
            (Phase::Probing, Reply::Exists(_)) => true,
            (Phase::Aging, Reply::Age(_)) => true,
            (Phase::Fetching, Reply::Fetched(_)) => true,
            (Phase::DecodingFetched { .. }, Reply::Decoded(_)) => true,
            (Phase::Storing { .. }, Reply::Stored(_)) => true,
            (Phase::Reading, Reply::Read(_)) => true,
            (Phase::DecodingCached { .. }, Reply::Decoded(_)) => true,
            _ => false,
        }
    }

    /// The transition function: where the loader stands after `reply`.
    ///
    /// - The cache is probed, and aged where the policy turns on its age;
    ///   the policy then sends the load to the fetch or to the cache.
    /// - A fetched text is decoded before anything is written; it is
    ///   written, as it came, only once it has decoded, and the value is
    ///   handed out only once it is written.
    /// - A cached text is read and decoded.
    /// - Every failure ends the load.
    /// - A reply that does not answer the outstanding request changes
    ///   nothing.
    pub open spec fn next(self, reply: Reply<T>) -> Outcome<T> {
        match (self.phase, reply) {
            (Phase::Probing, Reply::Exists(cached)) => {
                if self.policy.turns_on_age(cached, self.force) {
                    Outcome::Pending(self.moved_to(Phase::Aging))
                } else if !cached || self.force {
                    Outcome::Pending(self.moved_to(Phase::Fetching))
                } else {
                    Outcome::Pending(self.moved_to(Phase::Reading))
                }
            },
            (Phase::Aging, Reply::Age(Some(age))) => {
                if self.policy.refreshes(true, age, self.force) {
                    Outcome::Pending(self.moved_to(Phase::Fetching))
                } else {
                    Outcome::Pending(self.moved_to(Phase::Reading))
                }
            },
            (Phase::Aging, Reply::Age(None)) => Outcome::Failed(LoadError::CacheUnreadable),
            (Phase::Fetching, Reply::Fetched(Some(body))) => Outcome::Pending(
                self.moved_to(Phase::DecodingFetched { body }),
            ),
            (Phase::Fetching, Reply::Fetched(None)) => Outcome::Failed(LoadError::FetchFailed),
            (Phase::DecodingFetched { body }, Reply::Decoded(Some(value))) => Outcome::Pending(
                self.moved_to(Phase::Storing { body, value }),
            ),
            (Phase::DecodingFetched { body }, Reply::Decoded(None)) => Outcome::Failed(
                LoadError::DecodeFailed,
            ),
            (Phase::Storing { body, value }, Reply::Stored(true)) => Outcome::Loaded(value),
            (Phase::Storing { body, value }, Reply::Stored(false)) => Outcome::Failed(
                LoadError::CacheWriteFailed,
            ),
            (Phase::Reading, Reply::Read(Ok(body))) => Outcome::Pending(
                self.moved_to(Phase::DecodingCached { body }),
            ),
            (Phase::Reading, Reply::Read(Err(ReadFailure::Missing))) => Outcome::Failed(
                LoadError::CacheMissing,
            ),
            (Phase::Reading, Reply::Read(Err(ReadFailure::Unreadable))) => Outcome::Failed(
                LoadError::CacheUnreadable,
            ),
            (Phase::DecodingCached { body }, Reply::Decoded(Some(value))) => Outcome::Loaded(value),
            (Phase::DecodingCached { body }, Reply::Decoded(None)) => Outcome::Failed(
                LoadError::DecodeFailed,
            ),
            _ => Outcome::Pending(self),
        }
    }

    /// Begins a load.
    pub fn start(dataset: Dataset, policy: RefreshPolicy, force: bool) -> (loader: Loader<T>)
        ensures
            loader == Loader::<T>::initial(dataset, policy, force),
    {
        let phase = if force {
            Phase::Fetching
        } else {
            Phase::Probing
        };
        Loader { dataset, policy, force, phase }
    }

    /// The outside work this loader is waiting for.
    pub fn request(&self) -> (request: Request<'_>)
        ensures
            request@ == self.pending(),
    {
        match &self.phase {
            Phase::Probing => Request::Exists,
            Phase::Aging => Request::Age,
            Phase::Fetching => Request::Fetch,
            Phase::DecodingFetched { body } => Request::Decode(body.as_str()),
            Phase::Storing { body, value: _ } => Request::Store(body.as_str()),
            Phase::Reading => Request::Read,
            Phase::DecodingCached { body } => Request::Decode(body.as_str()),
        }
    }

    /// Takes the answer to the outstanding request and decides what comes
    /// next.
    pub fn advance(self, reply: Reply<T>) -> (outcome: Outcome<T>)
        ensures
            outcome == self.next(reply),
    {
        let Loader { dataset, policy, force, phase } = self;
        match (phase, reply) {
            (Phase::Probing, Reply::Exists(cached)) => {
                let phase = if policy.needs_age(cached, force) {
                    Phase::Aging
                } else if !cached || force {
                    Phase::Fetching
                } else {
                    Phase::Reading
                };
                Outcome::Pending(Loader { dataset, policy, force, phase })
            },
            (Phase::Aging, Reply::Age(Some(age))) => {
                let phase = if policy.should_refresh(true, &age, force) {
                    Phase::Fetching
                } else {
                    Phase::Reading
                };
                Outcome::Pending(Loader { dataset, policy, force, phase })
            },
            (Phase::Aging, Reply::Age(None)) => Outcome::Failed(LoadError::CacheUnreadable),
            (Phase::Fetching, Reply::Fetched(Some(body))) => Outcome::Pending(
                Loader { dataset, policy, force, phase: Phase::DecodingFetched { body } },
            ),
            (Phase::Fetching, Reply::Fetched(None)) => Outcome::Failed(LoadError::FetchFailed),
            (Phase::DecodingFetched { body }, Reply::Decoded(Some(value))) => Outcome::Pending(
                Loader { dataset, policy, force, phase: Phase::Storing { body, value } },
            ),
            (Phase::DecodingFetched { body: _ }, Reply::Decoded(None)) => Outcome::Failed(
                LoadError::DecodeFailed,
            ),
            (Phase::Storing { body: _, value }, Reply::Stored(true)) => Outcome::Loaded(value),
            (Phase::Storing { body: _, value: _ }, Reply::Stored(false)) => Outcome::Failed(
                LoadError::CacheWriteFailed,
            ),
            (Phase::Reading, Reply::Read(Ok(body))) => Outcome::Pending(
                Loader { dataset, policy, force, phase: Phase::DecodingCached { body } },
            ),
            (Phase::Reading, Reply::Read(Err(ReadFailure::Missing))) => Outcome::Failed(
                LoadError::CacheMissing,
            ),
            (Phase::Reading, Reply::Read(Err(ReadFailure::Unreadable))) => Outcome::Failed(
                LoadError::CacheUnreadable,
            ),
            (Phase::DecodingCached { body: _ }, Reply::Decoded(Some(value))) => Outcome::Loaded(
                value,
            ),
            (Phase::DecodingCached { body: _ }, Reply::Decoded(None)) => Outcome::Failed(
                LoadError::DecodeFailed,
            ),
            (phase, _) => Outcome::Pending(Loader { dataset, policy, force, phase }),
        }
    }
}

/// Where a loader stands once it has been told of the cache: `cached`
/// answers [`Request::Exists`] and `age`, where the loader asks for it,
/// [`Request::Age`].
pub open spec fn after_cache_report<T>(loader: Loader<T>, cached: bool, age: TimeSpan) -> Outcome<T> {
    match loader.next(Reply::Exists(cached)) {
        Outcome::Pending(told) => if told.phase is Aging {
            told.next(Reply::Age(Some(age)))
        } else {
            Outcome::Pending(told)
        },
        ended => ended,
    }
}

/// A load fetches exactly when the policy says so: a forced load starts at
/// the fetch, and any other load, told what the cache holds, goes to the
/// fetch if the policy asks for a refresh and to the cache if not.
pub proof fn lemma_fetch_follows_policy<T>(
    dataset: Dataset,
    policy: RefreshPolicy,
    force: bool,
    cached: bool,
    age: TimeSpan,
)
    ensures
        force ==> Loader::<T>::initial(dataset, policy, force).phase is Fetching,
        !force ==> after_cache_report(Loader::<T>::initial(dataset, policy, force), cached, age)
            == Outcome::Pending(
            Loader::<T>::initial(dataset, policy, force).moved_to(
                if policy.refreshes(cached, age, force) {
                    Phase::Fetching
                } else {
                    Phase::Reading
                },
            ),
        ),
{
}

/// A cache whose age cannot be read ends the load; it is not taken for a
/// cache that is missing.
pub proof fn lemma_unreadable_age_fails<T>(loader: Loader<T>)
    requires
        loader.phase is Aging,
    ensures
        loader.next(Reply::Age(None)) == Outcome::<T>::Failed(LoadError::CacheUnreadable),
{
}

/// A fetched text that does not decode ends the load, so nothing asks for
/// it to be written: the cache stays as it was.
pub proof fn lemma_bad_fetch_ends_load<T>(loader: Loader<T>)
    requires
        loader.phase is DecodingFetched,
    ensures
        loader.next(Reply::Decoded(None)) == Outcome::<T>::Failed(LoadError::DecodeFailed),
{
}

/// Writing is asked for in one way only: by the step that takes the
/// successful decoding of a fetched text, and for that very text. (A loader
/// that already waits for the writing goes on waiting.)
pub proof fn lemma_store_follows_decoding<T>(loader: Loader<T>, reply: Reply<T>)
    requires
        loader.next(reply) is Pending,
        loader.next(reply)->Pending_0.phase is Storing,
    ensures
        loader.phase is Storing || (loader.phase is DecodingFetched && reply is Decoded
            && reply->Decoded_0 is Some),
        loader.phase is DecodingFetched ==> loader.next(reply)->Pending_0.pending()
            == RequestView::Store(loader.phase->DecodingFetched_body@),
        loader.phase is Storing ==> loader.next(reply)->Pending_0 == loader,
{
}

/// The answer to the request to write ends the load, so one load writes at
/// most once.
pub proof fn lemma_store_ends_load<T>(loader: Loader<T>, written: bool)
    requires
        loader.phase is Storing,
    ensures
        loader.next(Reply::Stored(written)) == if written {
            Outcome::Loaded(loader.phase->Storing_value)
        } else {
            Outcome::Failed(LoadError::CacheWriteFailed)
        },
{
}

/// A reply that does not answer the outstanding request changes nothing, and
/// one that does never leaves the loader where it was.
pub proof fn lemma_only_awaited_replies_count<T>(loader: Loader<T>, reply: Reply<T>)
    ensures
        !loader.awaits(reply) ==> loader.next(reply) == Outcome::Pending(loader),
        loader.awaits(reply) ==> loader.next(reply) != Outcome::Pending(loader),
{
}

} // verus!
