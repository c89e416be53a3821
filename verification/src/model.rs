//! The world around the store, and what the store guarantees in it.
//!
//! The store never touches a file or a socket: its driver does. What the
//! driver's actions do is modelled here, so that whole requests can be
//! spoken of: which entries exist afterwards, and how often the origin was
//! asked.

use crate::codec::decoded;
use crate::encoding::EncodingKind;
use crate::error::{ErrorKind, FetchError};
use crate::resource::validate;
use crate::store::{Event, Step, Store};
use vstd::prelude::*;

verus! {

/// The cache root and the traffic to the origin.
pub struct World {
    /// The entries under the cache root, by path.
    pub files: Map<Seq<char>, Seq<u8>>,
    /// How many requests have been sent to origins so far.
    pub requests: nat,
}

/// A step of a request and the world in which its action is performed.
pub struct Moment {
    pub step: Step,
    pub world: World,
}

/// Whether performing the action of `step` in `before` may leave `after`
/// and be reported as `event`.
///
/// A lookup reports what is there and changes nothing. A fetch sends one
/// request and leaves the files alone. A write that succeeds leaves exactly
/// `content` at `path`; one that fails leaves every other entry as it was.
/// A finished request asks for nothing.
pub open spec fn reacts(before: World, step: Step, event: Event, after: World) -> bool {
    match step {
        Step::Lookup { path, .. } => {
            &&& after == before
            &&& if before.files.contains_key(path@) {
                event is Found
            } else {
                event is Missing
            }
        },
        Step::Fetch { .. } => {
            &&& after.files == before.files
            &&& after.requests == before.requests + 1
            &&& (event is Fetched || event is FetchFailed)
        },
        Step::Persist { path, content } => {
            &&& after.requests == before.requests
            &&& {
                ||| event is Persisted && after.files == before.files.insert(path@, content@)
                ||| event is PersistFailed && after.files.remove(path@) == before.files.remove(
                    path@,
                )
            }
        },
        Step::Done { .. } => false,
    }
}

/// Whether `next` may come directly after `now`: the driver performs the
/// action of `now`, and the store answers its report.
pub open spec fn moves(now: Moment, next: Moment) -> bool {
    exists|event: Event|
        #![trigger now.step.follows(event, next.step)]
        reacts(now.world, now.step, event, next.world) && now.step.follows(event, next.step)
}

/// Whether the moment at `i` of `trace` leads to the one after it.
pub open spec fn linked(trace: Seq<Moment>, i: int) -> bool {
    moves(trace[i], trace[i + 1])
}

/// Whether `trace` is a request from its first step to its end.
pub open spec fn is_run(trace: Seq<Moment>) -> bool {
    &&& trace.len() > 0
    &&& trace.last().step is Done
    &&& forall|i: int| 0 <= i < trace.len() - 1 ==> #[trigger] linked(trace, i)
}

/// Whether `trace` is a run of the request for `url` under `encoding` at
/// `store`.
pub open spec fn serves(store: Store, url: Seq<char>, encoding: EncodingKind, trace: Seq<Moment>) -> bool {
    is_run(trace) && store.starts(url, encoding, trace[0].step)
}

/// The world in which a run starts.
pub open spec fn world_before(trace: Seq<Moment>) -> World {
    trace[0].world
}

/// The world that a run leaves.
pub open spec fn world_after(trace: Seq<Moment>) -> World {
    trace.last().world
}

/// How a run ended.
pub open spec fn outcome(trace: Seq<Moment>) -> Result<String, FetchError> {
    trace.last().step->Done_outcome
}

/// A finished step is the last of its run.
proof fn lemma_done_is_last(trace: Seq<Moment>, i: int)
    requires
        is_run(trace),
        0 <= i < trace.len(),
        trace[i].step is Done,
    ensures
        i == trace.len() - 1,
{
    if i < trace.len() - 1 {
        assert(linked(trace, i));
    }
}

/// An unfinished step is followed by another.
proof fn lemma_unfinished_goes_on(trace: Seq<Moment>, i: int)
    requires
        is_run(trace),
        0 <= i < trace.len(),
        !(trace[i].step is Done),
    ensures
        i + 1 < trace.len(),
        moves(trace[i], trace[i + 1]),
{
    assert(linked(trace, i));
}

/// Every way in which a request can run, by what was in the cache, what
/// validation says of the URL, and what the outside reported.
proof fn lemma_run_cases(store: Store, url: Seq<char>, encoding: EncodingKind, trace: Seq<Moment>)
    requires
        serves(store, url, encoding, trace),
    ensures
        ({
            let path = store.entry_path(url, encoding);
            let before = world_before(trace);
            let after = world_after(trace);
            let end = outcome(trace);
            if before.files.contains_key(path) {
                &&& end matches Ok(found)
                &&& found@ == path
                &&& after == before
            } else {
                match validate(url) {
                    Err(kind) => {
                        &&& end matches Err(error)
                        &&& error.kind() == kind
                        &&& after == before
                    },
                    Ok(_) => {
                        &&& after.requests == before.requests + 1
                        &&& {
                            ||| {
                                &&& end matches Ok(written)
                                &&& written@ == path
                                &&& after.files.contains_key(path)
                                &&& decoded(encoding, after.files[path]) is Some
                                &&& after.files == before.files.insert(path, after.files[path])
                            }
                            ||| {
                                &&& end matches Err(error)
                                &&& error.kind() == ErrorKind::NetworkError
                                &&& after.files == before.files
                            }
                            ||| {
                                &&& end matches Err(error)
                                &&& error.kind() == ErrorKind::IoError
                                &&& after.files.remove(path) == before.files.remove(path)
                            }
                        }
                    },
                }
            }
        }),
{
    let path = store.entry_path(url, encoding);
    let before = world_before(trace);
    lemma_unfinished_goes_on(trace, 0);
    let first = choose|event: Event|
        reacts(trace[0].world, trace[0].step, event, trace[1].world) && trace[0].step.follows(
            event,
            trace[1].step,
        );
    if before.files.contains_key(path) {
        lemma_done_is_last(trace, 1);
    } else {
        match validate(url) {
            Err(_) => {
                lemma_done_is_last(trace, 1);
            },
            Ok(_) => {
                lemma_unfinished_goes_on(trace, 1);
                let second = choose|event: Event|
                    reacts(trace[1].world, trace[1].step, event, trace[2].world)
                        && trace[1].step.follows(event, trace[2].step);
                if trace[2].step is Done {
                    lemma_done_is_last(trace, 2);
                } else {
                    lemma_unfinished_goes_on(trace, 2);
                    let third = choose|event: Event|
                        reacts(trace[2].world, trace[2].step, event, trace[3].world)
                            && trace[2].step.follows(event, trace[3].step);
                    lemma_done_is_last(trace, 3);
                    if third is Persisted {
                        let content = trace[2].step->Persist_content;
                        assert(trace[3].world.files == before.files.insert(path, content@));
                        assert(trace[3].world.files[path] == content@);
                    }
                }
            },
        }
    }
}

/// What is written is what was fetched: once the body that the origin sent
/// has been encoded and the write has succeeded, the entry at the path of
/// the request reads back as that body. Under the identity it is the body,
/// with nothing added.
pub proof fn lemma_entry_reads_back_as_fetched(
    fetch: Step,
    body: Vec<u8>,
    persist: Step,
    before: World,
    after: World,
)
    requires
        fetch is Fetch,
        persist is Persist,
        fetch.follows(Event::Fetched { body }, persist),
        reacts(before, persist, Event::Persisted, after),
    ensures
        after.files.contains_key(fetch->Fetch_path@),
        decoded(fetch->Fetch_encoding, after.files[fetch->Fetch_path@]) == Some(body@),
        fetch->Fetch_encoding == EncodingKind::Identity ==> after.files[fetch->Fetch_path@]
            == body@,
{
}

/// A request whose entry exists is served from the cache: it ends
/// with the path of the entry, leaves every file as it was, and sends
/// nothing.
pub proof fn lemma_hit_is_served_from_cache(
    store: Store,
    url: Seq<char>,
    encoding: EncodingKind,
    trace: Seq<Moment>,
)
    requires
        serves(store, url, encoding, trace),
        world_before(trace).files.contains_key(store.entry_path(url, encoding)),
    ensures
        outcome(trace) matches Ok(path) && path@ == store.entry_path(url, encoding),
        world_after(trace) == world_before(trace),
{
    lemma_run_cases(store, url, encoding, trace);
}

/// A request that succeeds ends with the path that its key names, and its
/// entry exists afterwards and can be read back.
pub proof fn lemma_success_leaves_entry(
    store: Store,
    url: Seq<char>,
    encoding: EncodingKind,
    trace: Seq<Moment>,
)
    requires
        serves(store, url, encoding, trace),
        outcome(trace) is Ok,
    ensures
        outcome(trace) matches Ok(path) && path@ == store.entry_path(url, encoding),
        world_after(trace).files.contains_key(store.entry_path(url, encoding)),
        !world_before(trace).files.contains_key(store.entry_path(url, encoding)) ==> decoded(
            encoding,
            world_after(trace).files[store.entry_path(url, encoding)],
        ) is Some,
{
    lemma_run_cases(store, url, encoding, trace);
}

/// Idempotence. Once a request has succeeded, the same request made again
/// ends with the same path, leaves every file byte for byte as the first
/// left it, and sends nothing to the origin.
pub proof fn lemma_second_request_hits(
    store: Store,
    url: Seq<char>,
    encoding: EncodingKind,
    first: Seq<Moment>,
    second: Seq<Moment>,
)
    requires
        serves(store, url, encoding, first),
        serves(store, url, encoding, second),
        outcome(first) is Ok,
        world_before(second) == world_after(first),
    ensures
        outcome(first) matches Ok(one) && outcome(second) matches Ok(other) && one@ == other@,
        world_after(second).files == world_after(first).files,
        world_after(second).requests == world_after(first).requests,
{
    lemma_success_leaves_entry(store, url, encoding, first);
    lemma_hit_is_served_from_cache(store, url, encoding, second);
}

/// A request for a URL whose scheme is neither `http` nor `https`, with no
/// entry under its key, fails with `UnsupportedScheme`. Nothing is sent and
/// nothing is written.
pub proof fn lemma_unsupported_scheme_is_not_fetched(
    store: Store,
    url: Seq<char>,
    encoding: EncodingKind,
    trace: Seq<Moment>,
)
    requires
        serves(store, url, encoding, trace),
        validate(url) == Err::<(), ErrorKind>(ErrorKind::UnsupportedScheme),
        !world_before(trace).files.contains_key(store.entry_path(url, encoding)),
    ensures
        outcome(trace) matches Err(error) && error.kind() == ErrorKind::UnsupportedScheme,
        world_after(trace) == world_before(trace),
{
    lemma_run_cases(store, url, encoding, trace);
}

/// A request for a text that is not an absolute URL, with no entry under its
/// key, fails with `InvalidUrl`. Nothing is sent and nothing is written.
pub proof fn lemma_invalid_url_is_not_fetched(
    store: Store,
    url: Seq<char>,
    encoding: EncodingKind,
    trace: Seq<Moment>,
)
    requires
        serves(store, url, encoding, trace),
        validate(url) == Err::<(), ErrorKind>(ErrorKind::InvalidUrl),
        !world_before(trace).files.contains_key(store.entry_path(url, encoding)),
    ensures
        outcome(trace) matches Err(error) && error.kind() == ErrorKind::InvalidUrl,
        world_after(trace) == world_before(trace),
{
    lemma_run_cases(store, url, encoding, trace);
}

/// A request sends at most one request to the origin, and none unless its
/// entry is missing and its URL is valid.
pub proof fn lemma_at_most_one_request(
    store: Store,
    url: Seq<char>,
    encoding: EncodingKind,
    trace: Seq<Moment>,
)
    requires
        serves(store, url, encoding, trace),
    ensures
        world_after(trace).requests == world_before(trace).requests || world_after(trace).requests
            == world_before(trace).requests + 1,
        world_after(trace).requests != world_before(trace).requests ==> validate(url) is Ok
            && !world_before(trace).files.contains_key(store.entry_path(url, encoding)),
{
    lemma_run_cases(store, url, encoding, trace);
}

/// A request that fails before anything is handed over for writing leaves
/// no entry behind, whole or partial; and no request touches an entry other
/// than its own.
pub proof fn lemma_failure_leaves_no_entry(
    store: Store,
    url: Seq<char>,
    encoding: EncodingKind,
    trace: Seq<Moment>,
)
    requires
        serves(store, url, encoding, trace),
    ensures
        outcome(trace) matches Err(error) && error.kind() != ErrorKind::IoError ==> world_after(
            trace,
        ).files == world_before(trace).files,
        world_after(trace).files.remove(store.entry_path(url, encoding)) == world_before(
            trace,
        ).files.remove(store.entry_path(url, encoding)),
{
    lemma_run_cases(store, url, encoding, trace);
    let path = store.entry_path(url, encoding);
    let before = world_before(trace).files;
    let after = world_after(trace).files;
    if after == before.insert(path, after[path]) {
        assert(after.remove(path) =~= before.remove(path));
    }
}

/// The request for an entry that exists can run: a lookup that finds the
/// entry, then the end.
pub proof fn lemma_hit_runs(store: Store, url: Seq<char>, encoding: EncodingKind, world: World, step: Step)
    requires
        store.starts(url, encoding, step),
        world.files.contains_key(store.entry_path(url, encoding)),
    ensures
        serves(
            store,
            url,
            encoding,
            seq![
                Moment { step, world },
                Moment { step: Step::Done { outcome: Ok(step->Lookup_path) }, world },
            ],
        ),
{
    let trace = seq![
        Moment { step, world },
        Moment { step: Step::Done { outcome: Ok(step->Lookup_path) }, world },
    ];
    assert(trace[0].step.follows(Event::Found, trace[1].step));
    assert(reacts(world, step, Event::Found, world));
    assert(moves(trace[0], trace[1]));
    assert(linked(trace, 0));
}

} // verus!
