//! The content-addressed store, as a state machine.
//!
//! The store decides; its driver acts. A request starts at [`Store::begin`]
//! with a [`Step`] that names one action. The driver performs the action,
//! reports what happened as an [`Event`], and gets the next step from
//! [`Step::advance`], until the step is [`Step::Done`].

use crate::codec::{decoded, encode};
use crate::encoding::EncodingKind;
use crate::error::{FetchError, FetchPhase, IoStep};
use crate::key::{
    cache_key, key_material, lemma_encoding_changes_key, lemma_namespace_changes_key,
    sha256_collision, CacheKey,
};
use crate::resource::{validate, RemoteResource};
use vstd::prelude::*;
use vstd::string::*;

verus! {

/// The configuration of a store: where its entries live and for whom it
/// works.
pub struct Store {
    /// The cache root, a directory whose contents only the store writes.
    pub root: String,
    /// The consuming build unit. It is part of every key, so that two build
    /// units that share a cache root never share an entry.
    pub namespace: String,
}

/// What the driver is asked to do next.
pub enum Step {
    /// Report whether a file exists at `path`: [`Event::Found`] or
    /// [`Event::Missing`].
    Lookup { path: String, url: String, encoding: EncodingKind },
    /// Send one GET to `resource` and report the body, [`Event::Fetched`],
    /// or the failure, [`Event::FetchFailed`].
    Fetch { path: String, resource: RemoteResource, encoding: EncodingKind },
    /// Create or truncate the file at `path`, write all of `content`, and
    /// report [`Event::Persisted`] or [`Event::PersistFailed`].
    Persist { path: String, content: Vec<u8> },
    /// Nothing: the request has ended, with the path of its entry or with
    /// the failure that stopped it.
    Done { outcome: Result<String, FetchError> },
}

/// What the driver reports.
pub enum Event {
    /// The entry exists.
    Found,
    /// The entry does not exist.
    Missing,
    /// The origin answered with `body`.
    Fetched { body: Vec<u8> },
    /// The request to the origin failed.
    FetchFailed { phase: FetchPhase, cause: String },
    /// The entry was written in full.
    Persisted,
    /// The entry could not be written.
    PersistFailed { step: IoStep, cause: String },
}

/// The path of the entry named `key` under `root`.
pub open spec fn path_under(root: Seq<char>, key: Seq<char>) -> Seq<char> {
    root + seq!['/'] + key
}

/// Under one root, entries with different keys have different paths.
pub proof fn lemma_path_fixes_key(root: Seq<char>, a: Seq<char>, b: Seq<char>)
    ensures
        path_under(root, a) == path_under(root, b) <==> a == b,
{
    if path_under(root, a) == path_under(root, b) {
        let prefix = root + seq!['/'];
        assert(path_under(root, a).len() == prefix.len() + a.len());
        assert(path_under(root, b).len() == prefix.len() + b.len());
        assert forall|i: int| 0 <= i < a.len() implies a[i] == b[i] by {
            assert(path_under(root, a)[prefix.len() + i] == a[i]);
            assert(path_under(root, b)[prefix.len() + i] == b[i]);
        }
        assert(a =~= b);
    }
}

impl Store {
    /// A store that keeps its entries under `root` and works for
    /// `namespace`.
    pub fn new(root: String, namespace: String) -> (store: Store)
        ensures
            store.root == root,
            store.namespace == namespace,
    {
        Store { root, namespace }
    }

    /// The path of the entry for `url` under `encoding`.
    pub open spec fn entry_path(&self, url: Seq<char>, encoding: EncodingKind) -> Seq<char> {
        path_under(self.root@, cache_key(self.namespace@, url, encoding))
    }

    /// Whether `step` starts the request for `url` under `encoding`: a
    /// lookup of the entry that the key of the request names.
    pub open spec fn starts(&self, url: Seq<char>, encoding: EncodingKind, step: Step) -> bool {
        step matches Step::Lookup { path, url: asked, encoding: kind } && path@ == self.entry_path(
            url,
            encoding,
        ) && asked@ == url && kind == encoding
    }

    /// Derives the key of a request and starts it: the first step asks
    /// whether the entry is there.
    pub fn begin(&self, url: &str, encoding: EncodingKind) -> (step: Step)
        ensures
            self.starts(url@, encoding, step),
    {
        let key = CacheKey::derive(self.namespace.as_str(), url, encoding);
        proof {
            reveal_strlit("/");
            assert("/"@ =~= seq!['/']);
        }
        let path = String::from_str(self.root.as_str()).concat("/").concat(key.as_str());
        Step::Lookup { path, url: String::from_str(url), encoding }
    }
}

/// Changing only the encoding of a request changes the file of its entry,
/// unless SHA-256 collides on the two hashed messages.
pub proof fn lemma_encoding_changes_entry(
    store: Store,
    url: Seq<char>,
    a: EncodingKind,
    b: EncodingKind,
)
    requires
        a != b,
    ensures
        store.entry_path(url, a) != store.entry_path(url, b) || sha256_collision(
            key_material(store.namespace@, url, a),
            key_material(store.namespace@, url, b),
        ),
{
    lemma_encoding_changes_key(store.namespace@, url, a, b);
    lemma_path_fixes_key(
        store.root@,
        cache_key(store.namespace@, url, a),
        cache_key(store.namespace@, url, b),
    );
}

/// Two build units that share a cache root do not share the entry of a
/// request, unless SHA-256 collides on the two hashed messages.
pub proof fn lemma_namespace_changes_entry(
    one: Store,
    other: Store,
    url: Seq<char>,
    encoding: EncodingKind,
)
    requires
        one.root@ == other.root@,
        one.namespace@ != other.namespace@,
    ensures
        one.entry_path(url, encoding) != other.entry_path(url, encoding) || sha256_collision(
            key_material(one.namespace@, url, encoding),
            key_material(other.namespace@, url, encoding),
        ),
{
    lemma_namespace_changes_key(one.namespace@, other.namespace@, url, encoding);
    lemma_path_fixes_key(
        one.root@,
        cache_key(one.namespace@, url, encoding),
        cache_key(other.namespace@, url, encoding),
    );
}

impl Step {
    /// Whether `next` may follow this step once the driver reports `event`.
    ///
    /// A hit ends the request with the path of the entry. A miss validates
    /// the URL: a valid one is fetched, an invalid one ends the request
    /// before anything is sent. A body is encoded and handed over for
    /// writing; only a failing compressor ends the request here. A written
    /// entry ends the request with its path. Every reported failure ends the
    /// request with that failure. An event that the step does not wait for
    /// changes nothing.
    pub open spec fn follows(self, event: Event, next: Step) -> bool {
        match (self, event) {
            (Step::Lookup { path, .. }, Event::Found) => next == (Step::Done { outcome: Ok(path) }),
            (Step::Lookup { path, url, encoding }, Event::Missing) => match validate(url@) {
                Ok(_) => next matches Step::Fetch { path: to, resource, encoding: kind } && to
                    == path && resource@ == url@ && kind == encoding,
                Err(kind) => next matches Step::Done { outcome: Err(error) } && error.kind()
                    == kind,
            },
            (Step::Fetch { path, encoding, .. }, Event::Fetched { body }) => {
                ||| next matches Step::Persist { path: to, content } && to == path && decoded(
                    encoding,
                    content@,
                ) == Some(body@)
                ||| encoding == EncodingKind::Brotli && (next matches Step::Done {
                    outcome: Err(FetchError::IoError { step, .. }),
                } && (step == IoStep::CompressWrite || step == IoStep::CompressFlush))
            },
            (Step::Fetch { .. }, Event::FetchFailed { phase, cause }) => next == (Step::Done {
                outcome: Err(FetchError::NetworkError { phase, cause }),
            }),
            (Step::Persist { path, .. }, Event::Persisted) => next == (Step::Done {
                outcome: Ok(path),
            }),
            (Step::Persist { .. }, Event::PersistFailed { step, cause }) => next == (Step::Done {
                outcome: Err(FetchError::IoError { step, cause }),
            }),
            _ => next == self,
        }
    }

    /// Takes the request one step further.
    pub fn advance(self, event: Event) -> (next: Step)
        ensures
            self.follows(event, next),
    {
        match (self, event) {
            (Step::Lookup { path, .. }, Event::Found) => Step::Done { outcome: Ok(path) },
            (Step::Lookup { path, url, encoding }, Event::Missing) => {
                match RemoteResource::parse(url.as_str()) {
                    Ok(resource) => Step::Fetch { path, resource, encoding },
                    Err(error) => Step::Done { outcome: Err(error) },
                }
            },
            (Step::Fetch { path, encoding, .. }, Event::Fetched { body }) => {
                match encode(body, encoding) {
                    Ok(content) => Step::Persist { path, content },
                    Err(error) => Step::Done { outcome: Err(error) },
                }
            },
            (Step::Fetch { .. }, Event::FetchFailed { phase, cause }) => Step::Done {
                outcome: Err(FetchError::NetworkError { phase, cause }),
            },
            (Step::Persist { path, .. }, Event::Persisted) => Step::Done { outcome: Ok(path) },
            (Step::Persist { .. }, Event::PersistFailed { step, cause }) => Step::Done {
                outcome: Err(FetchError::IoError { step, cause }),
            },
            (step, _) => step,
        }
    }
}

} // verus!
