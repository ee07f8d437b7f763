//! The request protocol around the cache: the early region gate, the
//! jittered TTL, and the step that settles a finished fetch into the cache.

use vstd::prelude::*;

verus! {

use crate::cache::ContentView;
use crate::cache::Tiles;
use crate::cache::TilesCache;
use crate::cache::TilesContent;
use crate::cache::TilesStateView;
use crate::cache::TilesState;
use crate::cache::TilesView;
use crate::cache::AudienceKeyView;
use crate::cache::ResetAction;
use crate::cache::WriteHandle;
use crate::error::ErrorView;
use crate::error::HandlerErrorKind;
use crate::filter::AdmFilter;
use crate::jsonfmt::response_json;
use crate::jsonfmt::response_json_string;
use crate::settings::Settings;
use crate::tiles::Tile;
use crate::tiles::TileView;

/// Relies on `rand::Rng::gen_range` over `rand::thread_rng()`: a value of
/// the given inclusive range. Nothing more is promised of it.
#[verifier::external_body]
fn random_in_range(lo: u32, hi: u32) -> (r: u32)
    requires
        lo <= hi,
    ensures
        lo <= r <= hi,
{
    rand::Rng::gen_range(&mut rand::thread_rng(), lo..=hi)
}

/// The largest distance the jittered TTL may stand from the base TTL:
/// the base times the jitter percentage (capped at fifty), divided by a
/// hundred.
pub open spec fn jitter_offset(ttl: u32, jitter: u32) -> int {
    ttl * (if jitter < 50 {
        jitter
    } else {
        50
    }) / 100
}

/// The TTL for one cache entry: the configured base, perturbed uniformly
/// within the jitter offset so entries do not expire in lockstep. The
/// result never strays from the base by more than
/// `tiles_ttl * min(jitter, 50) / 100`.
pub fn add_jitter(settings: &Settings) -> (r: u32)
    requires
        settings.tiles_ttl < 0x8000_0000,
    ensures
        settings@.tiles_ttl - jitter_offset(settings@.tiles_ttl, settings@.jitter) <= r,
        r <= settings@.tiles_ttl + jitter_offset(settings@.tiles_ttl, settings@.jitter),
{
    let ttl = settings.tiles_ttl;
    let capped: u32 = if settings.jitter < 50 {
        settings.jitter
    } else {
        50
    };
    proof {
        assert((ttl as int) * (capped as int) <= (ttl as int) * 50 && 0 <= (ttl as int) * (
        capped as int)) by (nonlinear_arith)
            requires
                0 <= capped <= 50,
                0 <= ttl,
        ;
    }
    let offset: u32 = ((ttl as u64) * (capped as u64) / 100) as u32;
    assert(offset == jitter_offset(ttl, settings.jitter));
    assert(offset <= ttl / 2);
    let jit = random_in_range(0, 2 * offset);
    let r = ttl - offset + jit;
    r
}

/// What the early region gate decides for a request's country.
#[derive(Clone, Copy, PartialEq, Eq, Structural, Debug)]
pub enum GateDecision {
    /// Some advertiser serves the country: handle the request.
    Allowed,
    /// No advertiser serves it; answer 200 with an empty tiles body.
    EmptyOk,
    /// No advertiser serves it; answer 204 No Content.
    NoContent,
}

/// The early region gate: requests whose country no entry serves are
/// answered without touching the cache, so guaranteed-empty audience
/// buckets never pollute it. Configuration picks 200-with-empty-body or
/// 204 for the excluded ones.
pub fn country_gate(filter: &AdmFilter, country: &String, excluded_countries_200: bool) -> (r:
    GateDecision)
    ensures
        filter@.all_include_regions.contains(country@) ==> r == GateDecision::Allowed,
        !filter@.all_include_regions.contains(country@) && excluded_countries_200 ==> r
            == GateDecision::EmptyOk,
        !filter@.all_include_regions.contains(country@) && !excluded_countries_200 ==> r
            == GateDecision::NoContent,
{
    if filter.country_allowed(country) {
        GateDecision::Allowed
    } else if excluded_countries_200 {
        GateDecision::EmptyOk
    } else {
        GateDecision::NoContent
    }
}

/// The body served with a 200 to a region-excluded request: no tiles.
pub fn empty_tiles_body() -> (r: String)
    ensures
        r@ == response_json(Seq::<TileView>::empty()),
{
    let tiles: Vec<Tile> = Vec::new();
    proof {
        assert(tiles.deep_view() =~= Seq::<TileView>::empty());
    }
    response_json_string(&tiles)
}

/// How a settled fetch is answered.
#[derive(Debug)]
pub enum FetchCompletion {
    /// The assembled body, now cached `Fresh`: serve it.
    Served(TilesContent),
    /// The upstream body was bad; an empty body is cached to suppress
    /// repeat calls. Answer 204 and report the carried message.
    NoTiles(String),
    /// The fetch failed; the slot was restored, so a later request
    /// retries. Propagate the error.
    Failed(HandlerErrorKind),
}

/// A map after a reservation is committed: unchanged for a contention
/// handle, the new state under the key otherwise.
pub open spec fn spec_after_commit(
    c: Map<AudienceKeyView, TilesStateView>,
    key: AudienceKeyView,
    reset: ResetAction,
    st: TilesStateView,
) -> Map<AudienceKeyView, TilesStateView> {
    if reset is Noop {
        c
    } else {
        c.insert(key, st)
    }
}

/// A map after a reservation is released: unchanged for a contention
/// handle, the slot removed where it was created, the old `Fresh` value
/// restored where one was displaced.
pub open spec fn spec_after_abandon(
    c: Map<AudienceKeyView, TilesStateView>,
    key: AudienceKeyView,
    reset: ResetAction,
) -> Map<AudienceKeyView, TilesStateView> {
    match reset {
        ResetAction::Noop => c,
        ResetAction::Remove => c.remove(key),
        ResetAction::Restore(t) => c.insert(key, TilesStateView::Fresh(t@)),
    }
}

/// Settles a finished fetch into the cache. An assembled body is committed
/// `Fresh` with the jittered TTL and served. A bad upstream body commits an
/// empty `Fresh` entry — caching the emptiness suppresses repeat calls —
/// and answers 204. Any other failure releases the reservation, so the slot
/// returns to what the reservation found and the next request retries.
pub fn complete_fetch(
    cache: &mut TilesCache,
    handle: WriteHandle,
    outcome: Result<TilesContent, HandlerErrorKind>,
    now: u64,
    ttl: u32,
) -> (r: FetchCompletion)
    requires
        old(cache).wf(),
        now + ttl <= u64::MAX,
    ensures
        final(cache).wf(),
        outcome is Ok ==> final(cache)@ == spec_after_commit(
            old(cache)@,
            handle.key@,
            handle.reset,
            TilesStateView::Fresh(TilesView { content: outcome->Ok_0@, expires: (now + ttl) as u64 }),
        ),
        outcome is Ok ==> r is Served && r->Served_0@ == outcome->Ok_0@,
        outcome is Err && outcome->Err_0@ is BadAdmResponse ==> final(cache)@ == spec_after_commit(
            old(cache)@,
            handle.key@,
            handle.reset,
            TilesStateView::Fresh(TilesView { content: ContentView::Empty, expires: (now + ttl) as u64 }),
        ),
        outcome is Err && outcome->Err_0@ is BadAdmResponse ==> r is NoTiles && r->NoTiles_0@
            == outcome->Err_0@->BadAdmResponse_0,
        outcome is Err && !(outcome->Err_0@ is BadAdmResponse) ==> final(cache)@
            == spec_after_abandon(old(cache)@, handle.key@, handle.reset),
        outcome is Err && !(outcome->Err_0@ is BadAdmResponse) ==> r is Failed && r->Failed_0@
            == outcome->Err_0@,
{
    match outcome {
        Ok(content) => {
            let body = content.duplicate();
            let tiles = Tiles::from_content(content, now, ttl);
            handle.insert(cache, TilesState::Fresh(tiles));
            FetchCompletion::Served(body)
        },
        Err(e) => {
            match e {
                HandlerErrorKind::BadAdmResponse(msg) => {
                    let tiles = Tiles::empty(now, ttl);
                    handle.insert(cache, TilesState::Fresh(tiles));
                    FetchCompletion::NoTiles(msg)
                },
                other => {
                    handle.abandon(cache);
                    FetchCompletion::Failed(other)
                },
            }
        },
    }
}

} // verus!
