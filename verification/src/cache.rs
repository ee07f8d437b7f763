//! The audience cache: a map from audience key to the slot state machine
//! `{Populating, Fresh, Refreshing}` that backs single-flight population and
//! soft-expiry refresh. Time is a monotonic instant handed in by the caller.

use vstd::prelude::*;

verus! {

use crate::extractors::DeviceInfo;
use crate::extractors::FormFactor;
use crate::extractors::Location;
use crate::extractors::OsFamily;

/// The coarse request attributes a cache entry is keyed by. Carries no
/// per-user information.
#[derive(Debug)]
pub struct AudienceKey {
    pub country_code: String,
    pub region_code: Option<String>,
    pub dma_code: Option<u16>,
    pub form_factor: FormFactor,
    pub os_family: OsFamily,
    pub legacy_only: bool,
}

/// The mathematical shape of an `AudienceKey`.
pub struct AudienceKeyView {
    pub country_code: Seq<char>,
    pub region_code: Option<Seq<char>>,
    pub dma_code: Option<u16>,
    pub form_factor: FormFactor,
    pub os_family: OsFamily,
    pub legacy_only: bool,
}

impl View for AudienceKey {
    type V = AudienceKeyView;

    open spec fn view(&self) -> AudienceKeyView {
        AudienceKeyView {
            country_code: self.country_code@,
            region_code: self.region_code.deep_view(),
            dma_code: self.dma_code,
            form_factor: self.form_factor,
            os_family: self.os_family,
            legacy_only: self.legacy_only,
        }
    }
}

impl AudienceKey {
    /// A value-equal copy.
    pub fn duplicate(&self) -> (r: Self)
        ensures
            r@ == self@,
    {
        AudienceKey {
            country_code: self.country_code.clone(),
            region_code: match &self.region_code {
                Some(s) => Some(s.clone()),
                None => None,
            },
            dma_code: self.dma_code,
            form_factor: self.form_factor,
            os_family: self.os_family,
            legacy_only: self.legacy_only,
        }
    }

    /// Field-wise equality.
    pub fn key_eq(&self, other: &AudienceKey) -> (r: bool)
        ensures
            r == (self@ == other@),
    {
        let regions_eq = match (&self.region_code, &other.region_code) {
            (None, None) => true,
            (Some(a), Some(b)) => *a == *b,
            _ => false,
        };
        let dmas_eq = match (self.dma_code, other.dma_code) {
            (None, None) => true,
            (Some(a), Some(b)) => a == b,
            _ => false,
        };
        self.country_code == other.country_code && regions_eq && dmas_eq && self.form_factor
            == other.form_factor && self.os_family == other.os_family && self.legacy_only
            == other.legacy_only
    }

    /// The audience key for a request: geolocation fields plus device
    /// classes, with an empty region treated as absent and excluded DMA
    /// codes forced to absent.
    pub fn build(location: &Location, device: &DeviceInfo, excluded_dmas: &Option<Vec<u16>>) -> (r:
        AudienceKey)
        ensures
            r@.country_code == match location@.country {
                Some(c) => c,
                None => Seq::<char>::empty(),
            },
            r@.region_code == match location@.region {
                Some(s) => if s.len() > 0 {
                    Some(s)
                } else {
                    None
                },
                None => None,
            },
            r@.dma_code == match location@.dma {
                Some(d) => if excluded_dmas.deep_view() matches Some(xs) && xs.contains(d) {
                    None
                } else {
                    Some(d)
                },
                None => None,
            },
            r@.form_factor == device.form_factor,
            r@.os_family == device.os_family,
            r@.legacy_only == device.legacy_client,
    {
        let region = location.region();
        let dma_code = match location.dma {
            Some(d) => {
                let mut excluded = false;
                match excluded_dmas {
                    Some(xs) => {
                        let mut i: usize = 0;
                        while i < xs.len()
                            invariant
                                0 <= i <= xs.len(),
                                excluded == exists|j: int| 0 <= j < i && xs@[j] == d,
                            decreases xs.len() - i,
                        {
                            if xs[i] == d {
                                excluded = true;
                            }
                            i += 1;
                        }
                        assert(xs.deep_view() =~= xs@);
                        assert(excluded == xs@.contains(d));
                    },
                    None => {},
                }
                if excluded {
                    None
                } else {
                    Some(d)
                }
            },
            None => None,
        };
        AudienceKey {
            country_code: location.country(),
            region_code: if !region.as_str().is_empty() {
                Some(region)
            } else {
                None
            },
            dma_code,
            form_factor: device.form_factor,
            os_family: device.os_family,
            legacy_only: device.legacy_only(),
        }
    }
}

/// A cached response body: pre-serialized JSON, or nothing to serve.
#[derive(Debug)]
pub enum TilesContent {
    /// A serialized tile response, replayed byte-for-byte on every hit.
    Json(String),
    /// No tiles; hits answer 204 No Content.
    Empty,
}

/// The mathematical shape of a `TilesContent`.
pub enum ContentView {
    Json(Seq<char>),
    Empty,
}

impl View for TilesContent {
    type V = ContentView;

    open spec fn view(&self) -> ContentView {
        match self {
            TilesContent::Json(s) => ContentView::Json(s@),
            TilesContent::Empty => ContentView::Empty,
        }
    }
}

impl TilesContent {
    /// A value-equal copy.
    pub fn duplicate(&self) -> (r: Self)
        ensures
            r@ == self@,
    {
        match self {
            TilesContent::Json(s) => TilesContent::Json(s.clone()),
            TilesContent::Empty => TilesContent::Empty,
        }
    }
}

/// A cached response with its expiry instant.
#[derive(Debug)]
pub struct Tiles {
    pub content: TilesContent,
    /// The monotonic instant (in seconds) at which the entry goes stale.
    pub expires: u64,
}

/// The mathematical shape of a `Tiles`.
pub struct TilesView {
    pub content: ContentView,
    pub expires: u64,
}

impl View for Tiles {
    type V = TilesView;

    open spec fn view(&self) -> TilesView {
        TilesView { content: self.content@, expires: self.expires }
    }
}

impl Tiles {
    /// A cached body expiring `ttl` seconds after `now`.
    pub fn from_content(content: TilesContent, now: u64, ttl: u32) -> (r: Tiles)
        requires
            now + ttl <= u64::MAX,
        ensures
            r@.content == content@,
            r@.expires == now + ttl,
    {
        Tiles { content, expires: now + ttl as u64 }
    }

    /// A cached empty body expiring `ttl` seconds after `now`.
    pub fn empty(now: u64, ttl: u32) -> (r: Tiles)
        requires
            now + ttl <= u64::MAX,
        ensures
            r@.content == ContentView::Empty,
            r@.expires == now + ttl,
    {
        Tiles::from_content(TilesContent::Empty, now, ttl)
    }

    /// Whether the entry is stale at `now`.
    pub fn expired(&self, now: u64) -> (r: bool)
        ensures
            r == (self.expires <= now),
    {
        self.expires <= now
    }

    /// A value-equal copy.
    pub fn duplicate(&self) -> (r: Self)
        ensures
            r@ == self@,
    {
        Tiles { content: self.content.duplicate(), expires: self.expires }
    }
}

/// One audience key's slot.
#[derive(Debug)]
pub enum TilesState {
    /// No body yet; one worker is producing the first value.
    Populating,
    /// A body is present; it may or may not have expired.
    Fresh(Tiles),
    /// A body is present and expired; one worker is producing a
    /// replacement while readers serve the stale body.
    Refreshing(Tiles),
}

/// The mathematical shape of a `TilesState`.
pub enum TilesStateView {
    Populating,
    Fresh(TilesView),
    Refreshing(TilesView),
}

impl View for TilesState {
    type V = TilesStateView;

    open spec fn view(&self) -> TilesStateView {
        match self {
            TilesState::Populating => TilesStateView::Populating,
            TilesState::Fresh(t) => TilesStateView::Fresh(t@),
            TilesState::Refreshing(t) => TilesStateView::Refreshing(t@),
        }
    }
}

/// One key/state pair of the cache.
#[derive(Debug)]
pub struct CacheEntry {
    pub key: AudienceKey,
    pub state: TilesState,
}

/// The mathematical shape of a `CacheEntry`.
pub struct CacheEntryView {
    pub key: AudienceKeyView,
    pub state: TilesStateView,
}

impl View for CacheEntry {
    type V = CacheEntryView;

    open spec fn view(&self) -> CacheEntryView {
        CacheEntryView { key: self.key@, state: self.state@ }
    }
}

impl DeepView for CacheEntry {
    type V = CacheEntryView;

    open spec fn deep_view(&self) -> CacheEntryView {
        self.view()
    }
}

/// The mapping a list of cache entries describes; later entries win.
pub open spec fn emap(s: Seq<CacheEntryView>) -> Map<AudienceKeyView, TilesStateView>
    decreases s.len(),
{
    if s.len() == 0 {
        Map::empty()
    } else {
        emap(s.drop_last()).insert(s.last().key, s.last().state)
    }
}

/// No two entries share a key.
pub open spec fn unique_keys(s: Seq<CacheEntryView>) -> bool {
    forall|i: int, j: int| 0 <= i < j < s.len() ==> s[i].key != s[j].key
}

/// A key is in the mapping exactly when some entry holds it.
pub proof fn lemma_emap_membership(s: Seq<CacheEntryView>, k: AudienceKeyView)
    ensures
        emap(s).contains_key(k) <==> exists|i: int| 0 <= i < s.len() && s[i].key == k,
    decreases s.len(),
{
    if s.len() > 0 {
        let d = s.drop_last();
        lemma_emap_membership(d, k);
        if s.last().key == k {
            assert(s[s.len() - 1].key == k);
        } else {
            if exists|i: int| 0 <= i < d.len() && d[i].key == k {
                let i = choose|i: int| 0 <= i < d.len() && d[i].key == k;
                assert(s[i].key == k);
            }
            if exists|i: int| 0 <= i < s.len() && s[i].key == k {
                let i = choose|i: int| 0 <= i < s.len() && s[i].key == k;
                assert(i < s.len() - 1);
                assert(d[i].key == k);
            }
        }
    }
}

/// With unique keys, the mapping holds each entry's state under its key.
pub proof fn lemma_emap_value(s: Seq<CacheEntryView>, i: int)
    requires
        unique_keys(s),
        0 <= i < s.len(),
    ensures
        emap(s).contains_key(s[i].key),
        emap(s)[s[i].key] == s[i].state,
    decreases s.len(),
{
    let d = s.drop_last();
    if i < s.len() - 1 {
        assert(unique_keys(d));
        lemma_emap_value(d, i);
        assert(s[i].key != s.last().key);
    }
}

/// With unique keys, removing the entry at `i` removes exactly its key.
pub proof fn lemma_emap_remove(s: Seq<CacheEntryView>, i: int)
    requires
        unique_keys(s),
        0 <= i < s.len(),
    ensures
        emap(s.remove(i)) == emap(s).remove(s[i].key),
        unique_keys(s.remove(i)),
    decreases s.len(),
{
    let k = s[i].key;
    assert(unique_keys(s.remove(i))) by {
        assert(forall|a: int, b: int|
            0 <= a < b < s.remove(i).len() ==> s.remove(i)[a].key != s.remove(i)[b].key) by {
            assert(forall|a: int|
                0 <= a < s.remove(i).len() ==> s.remove(i)[a] == (if a < i {
                    s[a]
                } else {
                    s[a + 1]
                }));
        }
    }
    if i == s.len() - 1 {
        assert(s.remove(i) =~= s.drop_last());
        lemma_emap_membership(s.drop_last(), k);
        assert(forall|j: int| 0 <= j < s.len() - 1 ==> s.drop_last()[j] == s[j]);
        assert(!emap(s.drop_last()).contains_key(k));
        assert(emap(s).remove(k) =~= emap(s.drop_last()));
    } else {
        assert(s.remove(i).drop_last() =~= s.drop_last().remove(i));
        assert(s.remove(i).last() == s.last());
        assert(unique_keys(s.drop_last()));
        lemma_emap_remove(s.drop_last(), i);
        assert(s.drop_last()[i] == s[i]);
        assert(s.last().key != k);
        assert(emap(s.remove(i)) =~= emap(s).remove(k));
    }
}

/// The audience cache: a map from audience key to slot state.
#[derive(Debug)]
pub struct TilesCache {
    entries: Vec<CacheEntry>,
}

impl View for TilesCache {
    type V = Map<AudienceKeyView, TilesStateView>;

    closed spec fn view(&self) -> Map<AudienceKeyView, TilesStateView> {
        emap(self.entries.deep_view())
    }
}

/// What one write reserves, and what undoing it restores.
#[derive(Debug)]
pub enum ResetAction {
    /// The slot did not exist; undoing removes it.
    Remove,
    /// The slot was `Fresh`; undoing restores that value.
    Restore(Tiles),
    /// Contention: another worker holds the slot; commit and undo both do
    /// nothing.
    Noop,
}

/// A reservation of one key's slot. Commit it with `insert`, or release it
/// with `abandon` so other requests never see a stuck `Populating` slot.
#[derive(Debug)]
pub struct WriteHandle {
    pub key: AudienceKey,
    pub reset: ResetAction,
}

impl TilesCache {
    /// No two entries share a key.
    pub closed spec fn wf(&self) -> bool {
        unique_keys(self.entries.deep_view())
    }

    /// An empty cache.
    pub fn new() -> (r: TilesCache)
        ensures
            r.wf(),
            r@ == Map::<AudienceKeyView, TilesStateView>::empty(),
    {
        let r = TilesCache { entries: Vec::new() };
        proof {
            assert(r.entries.deep_view() =~= Seq::<CacheEntryView>::empty());
        }
        r
    }

    /// The index of `key`'s entry, if present.
    fn find_index(&self, key: &AudienceKey) -> (r: Option<usize>)
        ensures
            match r {
                Some(i) => i < self.entries@.len() && self.entries.deep_view()[i as int].key
                    == key@,
                None => forall|j: int|
                    0 <= j < self.entries@.len() ==> self.entries.deep_view()[j].key != key@,
            },
    {
        let mut i: usize = 0;
        while i < self.entries.len()
            invariant
                0 <= i <= self.entries@.len(),
                forall|j: int| 0 <= j < i ==> self.entries.deep_view()[j].key != key@,
            decreases self.entries@.len() - i,
        {
            if self.entries[i].key.key_eq(key) {
                assert(self.entries.deep_view()[i as int].key == key@);
                return Some(i);
            }
            assert(self.entries.deep_view()[i as int].key != key@);
            i += 1;
        }
        None
    }

    /// O(1)-intent, non-blocking snapshot of `key`'s slot.
    pub fn get(&self, key: &AudienceKey) -> (r: Option<&TilesState>)
        requires
            self.wf(),
        ensures
            match r {
                Some(st) => self@.contains_key(key@) && st@ == self@[key@],
                None => !self@.contains_key(key@),
            },
    {
        proof {
            lemma_emap_membership(self.entries.deep_view(), key@);
        }
        match self.find_index(key) {
            Some(i) => {
                proof {
                    lemma_emap_value(self.entries.deep_view(), i as int);
                }
                Some(&self.entries[i].state)
            },
            None => None,
        }
    }

    /// Sets `key`'s slot to `state`, creating it if absent.
    fn put(&mut self, key: AudienceKey, state: TilesState)
        requires
            old(self).wf(),
        ensures
            final(self).wf(),
            final(self)@ == old(self)@.insert(key@, state@),
    {
        proof {
            lemma_emap_membership(self.entries.deep_view(), key@);
        }
        let ghost pre = self.entries.deep_view();
        match self.find_index(&key) {
            Some(i) => {
                proof {
                    lemma_emap_remove(pre, i as int);
                }
                let _ = self.entries.remove(i);
                proof {
                    assert(self.entries.deep_view() =~= pre.remove(i as int));
                    assert(forall|j: int|
                        0 <= j < self.entries.deep_view().len()
                            ==> self.entries.deep_view()[j].key != key@) by {
                        assert(forall|a: int|
                            0 <= a < pre.remove(i as int).len() ==> pre.remove(i as int)[a] == (
                            if a < i as int {
                                pre[a]
                            } else {
                                pre[a + 1]
                            }));
                    }
                }
            },
            None => {},
        }
        let ghost mid = self.entries.deep_view();
        self.entries.push(CacheEntry { key, state });
        proof {
            assert(self.entries.deep_view() =~= mid.push(CacheEntryView { key: key@, state: state@ }));
            assert(self.entries.deep_view().drop_last() =~= mid);
            assert(emap(self.entries.deep_view()) == emap(mid).insert(key@, state@));
            assert(forall|j: int| 0 <= j < mid.len() ==> mid[j].key != key@);
            assert(final(self).wf()) by {
                let s = self.entries.deep_view();
                assert(forall|a: int, b: int|
                    0 <= a < b < s.len() ==> s[a].key != s[b].key) by {
                    assert(forall|a: int| 0 <= a < mid.len() ==> s[a] == mid[a]);
                }
            }
            assert(emap(self.entries.deep_view()) =~= old(self)@.insert(key@, state@));
        }
    }

    /// Removes `key`'s slot, if present.
    fn drop_slot(&mut self, key: &AudienceKey)
        requires
            old(self).wf(),
        ensures
            final(self).wf(),
            final(self)@ == old(self)@.remove(key@),
    {
        proof {
            lemma_emap_membership(self.entries.deep_view(), key@);
        }
        let ghost pre = self.entries.deep_view();
        match self.find_index(key) {
            Some(i) => {
                proof {
                    lemma_emap_remove(pre, i as int);
                }
                let _ = self.entries.remove(i);
                proof {
                    assert(self.entries.deep_view() =~= pre.remove(i as int));
                }
            },
            None => {
                proof {
                    assert(!old(self)@.contains_key(key@));
                    assert(old(self)@.remove(key@) =~= old(self)@);
                }
            },
        }
    }

    /// Reserves `key`'s slot for this caller. A missing slot becomes
    /// `Populating` (undo removes it); a `Fresh` slot with `expired` set
    /// becomes `Refreshing` (undo restores the `Fresh` value); any other
    /// slot is contention, and the handle does nothing either way.
    pub fn prepare_write(&mut self, key: &AudienceKey, expired: bool) -> (h: WriteHandle)
        requires
            old(self).wf(),
        ensures
            final(self).wf(),
            h.key@ == key@,
            !old(self)@.contains_key(key@) ==> final(self)@ == old(self)@.insert(
                key@,
                TilesStateView::Populating,
            ) && h.reset is Remove,
            old(self)@.contains_key(key@) && old(self)@[key@] is Fresh && expired ==> final(self)@
                == old(self)@.insert(key@, TilesStateView::Refreshing(old(self)@[key@]->Fresh_0))
                && h.reset is Restore && h.reset->Restore_0@ == old(self)@[key@]->Fresh_0,
            old(self)@.contains_key(key@) && !(old(self)@[key@] is Fresh && expired)
                ==> final(self)@ == old(self)@ && h.reset is Noop,
    {
        proof {
            lemma_emap_membership(self.entries.deep_view(), key@);
        }
        match self.find_index(key) {
            None => {
                self.put(key.duplicate(), TilesState::Populating);
                WriteHandle { key: key.duplicate(), reset: ResetAction::Remove }
            },
            Some(i) => {
                proof {
                    lemma_emap_value(self.entries.deep_view(), i as int);
                }
                match &self.entries[i].state {
                    TilesState::Fresh(t) => {
                        if expired {
                            let saved = t.duplicate();
                            let restore = saved.duplicate();
                            self.put(key.duplicate(), TilesState::Refreshing(saved));
                            WriteHandle { key: key.duplicate(), reset: ResetAction::Restore(restore) }
                        } else {
                            WriteHandle { key: key.duplicate(), reset: ResetAction::Noop }
                        }
                    },
                    _ => WriteHandle { key: key.duplicate(), reset: ResetAction::Noop },
                }
            },
        }
    }
}

impl WriteHandle {
    /// Commits `state` into the reserved slot and disarms the undo; on a
    /// contention handle this does nothing.
    pub fn insert(self, cache: &mut TilesCache, state: TilesState)
        requires
            old(cache).wf(),
        ensures
            final(cache).wf(),
            self.reset is Noop ==> final(cache)@ == old(cache)@,
            !(self.reset is Noop) ==> final(cache)@ == old(cache)@.insert(self.key@, state@),
    {
        let WriteHandle { key, reset } = self;
        match reset {
            ResetAction::Noop => {},
            _ => cache.put(key, state),
        }
    }

    /// Releases the reservation without a new value: the slot returns to
    /// what the reservation found (removed again, or the old `Fresh`
    /// value), so no other request ever sees a stuck `Populating` slot.
    pub fn abandon(self, cache: &mut TilesCache)
        requires
            old(cache).wf(),
        ensures
            final(cache).wf(),
            self.reset is Noop ==> final(cache)@ == old(cache)@,
            self.reset is Remove ==> final(cache)@ == old(cache)@.remove(self.key@),
            self.reset is Restore ==> final(cache)@ == old(cache)@.insert(
                self.key@,
                TilesStateView::Fresh(self.reset->Restore_0@),
            ),
    {
        let WriteHandle { key, reset } = self;
        match reset {
            ResetAction::Noop => {},
            ResetAction::Remove => cache.drop_slot(&key),
            ResetAction::Restore(t) => cache.put(key, TilesState::Fresh(t)),
        }
    }
}

/// How a request is answered from a cache snapshot. Each variant is one
/// counter of the request protocol.
#[derive(Debug)]
pub enum TilesDisposition {
    /// Serve this live body: a cache hit.
    Content(TilesContent),
    /// Serve this stale body: a hit on a slot another worker is refreshing.
    StaleContent(TilesContent),
    /// Answer 204 No Content: another worker is populating the slot.
    NoContent,
    /// Fetch from the upstream; the flag says whether an expired `Fresh`
    /// slot (rather than no slot) led here.
    Proceed(bool),
}

/// The mathematical shape of a `TilesDisposition`.
pub enum DispositionView {
    Content(ContentView),
    StaleContent(ContentView),
    NoContent,
    Proceed(bool),
}

impl View for TilesDisposition {
    type V = DispositionView;

    open spec fn view(&self) -> DispositionView {
        match self {
            TilesDisposition::Content(c) => DispositionView::Content(c@),
            TilesDisposition::StaleContent(c) => DispositionView::StaleContent(c@),
            TilesDisposition::NoContent => DispositionView::NoContent,
            TilesDisposition::Proceed(b) => DispositionView::Proceed(*b),
        }
    }
}

/// The slot a map holds for a key, if any.
pub open spec fn spec_state_of(
    c: Map<AudienceKeyView, TilesStateView>,
    k: AudienceKeyView,
) -> Option<TilesStateView> {
    if c.contains_key(k) {
        Some(c[k])
    } else {
        None
    }
}

/// The read phase of the request protocol, for one slot at instant `now`:
/// no slot means fetch; `Populating` means 204; `Refreshing` serves the
/// stale body; `Fresh` serves its body until expiry and then means refresh.
pub open spec fn spec_decide(st: Option<TilesStateView>, now: u64) -> DispositionView {
    match st {
        None => DispositionView::Proceed(false),
        Some(TilesStateView::Populating) => DispositionView::NoContent,
        Some(TilesStateView::Refreshing(t)) => DispositionView::StaleContent(t.content),
        Some(TilesStateView::Fresh(t)) => if now < t.expires {
            DispositionView::Content(t.content)
        } else {
            DispositionView::Proceed(true)
        },
    }
}

impl TilesCache {
    /// The read phase of the request protocol: how to answer a request for
    /// `key` at instant `now` from the current cache alone.
    pub fn read_phase(&self, key: &AudienceKey, now: u64) -> (r: TilesDisposition)
        requires
            self.wf(),
        ensures
            r@ == spec_decide(spec_state_of(self@, key@), now),
    {
        match self.get(key) {
            None => TilesDisposition::Proceed(false),
            Some(state) => match state {
                TilesState::Populating => TilesDisposition::NoContent,
                TilesState::Refreshing(t) => TilesDisposition::StaleContent(t.content.duplicate()),
                TilesState::Fresh(t) => {
                    if !t.expired(now) {
                        TilesDisposition::Content(t.content.duplicate())
                    } else {
                        TilesDisposition::Proceed(true)
                    }
                },
            },
        }
    }
}

/// Law (single flight): while a key's slot stands in `Populating` or
/// `Refreshing` — that is, while some worker holds its reservation — the
/// read phase never directs a request for that key to the upstream. With
/// `prepare_write`'s contract (a granted reservation leaves the slot in
/// `Populating` or `Refreshing`), at most one worker fetches per key.
pub proof fn lemma_single_flight(c: Map<AudienceKeyView, TilesStateView>, k: AudienceKeyView, now: u64)
    requires
        c.contains_key(k),
        c[k] is Populating || c[k] is Refreshing,
    ensures
        !(spec_decide(spec_state_of(c, k), now) is Proceed),
{
}

/// Law (idempotent replay): a request for a key whose slot is `Fresh` and
/// unexpired is served the cached body; it never proceeds to a fetch.
pub proof fn lemma_fresh_replay_served(c: Map<AudienceKeyView, TilesStateView>, k: AudienceKeyView, now: u64)
    requires
        c.contains_key(k),
        c[k] matches TilesStateView::Fresh(t) && now < t.expires,
    ensures
        spec_decide(spec_state_of(c, k), now) == DispositionView::Content(c[k]->Fresh_0.content),
        !(spec_decide(spec_state_of(c, k), now) is Proceed),
{
}

/// Law (byte-identical replay): any two reads of a `Fresh`, unexpired slot
/// return the same body, byte for byte, until the next commit changes the
/// map.
pub proof fn lemma_fresh_reads_identical(
    c: Map<AudienceKeyView, TilesStateView>,
    k: AudienceKeyView,
    now1: u64,
    now2: u64,
)
    requires
        c.contains_key(k),
        c[k] matches TilesStateView::Fresh(t) && now1 < t.expires && now2 < t.expires,
    ensures
        spec_decide(spec_state_of(c, k), now1) == spec_decide(spec_state_of(c, k), now2),
        spec_decide(spec_state_of(c, k), now1) == DispositionView::Content(c[k]->Fresh_0.content),
{
}

} // verus!
