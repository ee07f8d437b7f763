//! The advertiser filter: decides, for each upstream tile, whether it may
//! reach a client, and sanitizes the ones that may.
//!
//! Each advertiser name (lowercased) maps to its settings; the `DEFAULT`
//! entry supplies any host list a named entry leaves empty. A tile passes
//! when its advertiser, click and impression URLs parse, their hosts stand
//! in the effective allowlists, and the click and impression query keys obey
//! the fixed parameter rules.

use vstd::prelude::*;

verus! {

use vstd::multiset::Multiset;

use crate::error::ErrorView;
use crate::error::HandlerErrorKind;
use crate::error::UrlSpecies;
use crate::settings::AdmAdvertiserFilterSettings;
use crate::settings::EntryView;
use crate::settings::empty_entry;
use crate::tags::Tags;
use crate::tags::TagsView;
use crate::text::lower_of;
use crate::text::lowercase;
use crate::text::str_eq;
use crate::text::vec_contains_str;
use crate::tiles::AdmTile;
use crate::tiles::AdmTileView;
use crate::tiles::Tile;
use crate::tiles::TileView;
use crate::tiles::spec_sanitized;
use crate::urls::UrlParts;
use crate::urls::parse_url;
use crate::urls::url_host_of;
use crate::urls::url_ok;
use crate::urls::url_query_keys_of;

/// Filter criteria for upstream tiles: per-advertiser settings keyed by the
/// lowercased advertiser name (later entries for the same name win), plus
/// the union of every entry's `include_regions`, read by the early region
/// gate.
#[derive(Debug)]
pub struct AdmFilter {
    pub filter_set: Vec<(String, AdmAdvertiserFilterSettings)>,
    pub all_include_regions: Vec<String>,
}

/// The mathematical shape of an `AdmFilter`.
pub struct AdmFilterView {
    pub filter_set: Map<Seq<char>, EntryView>,
    pub all_include_regions: Seq<Seq<char>>,
}

/// The mapping described by a list of name/settings pairs: later pairs
/// override earlier ones.
pub open spec fn entries_map(s: Seq<(String, AdmAdvertiserFilterSettings)>) -> Map<
    Seq<char>,
    EntryView,
>
    decreases s.len(),
{
    if s.len() == 0 {
        Map::empty()
    } else {
        entries_map(s.drop_last()).insert(s.last().0@, s.last().1@)
    }
}

impl View for AdmFilter {
    type V = AdmFilterView;

    open spec fn view(&self) -> AdmFilterView {
        AdmFilterView {
            filter_set: entries_map(self.filter_set@),
            all_include_regions: self.all_include_regions.deep_view(),
        }
    }
}

/// The `DEFAULT` entry of a ruleset, or the entry with nothing set where the
/// ruleset has none.
pub open spec fn spec_default_entry(f: AdmFilterView) -> EntryView {
    if f.filter_set.contains_key("default"@) {
        f.filter_set["default"@]
    } else {
        empty_entry()
    }
}

/// The position an advertiser's tiles carry: the entry's own, falling
/// through to the `DEFAULT` entry's; nothing for an unknown advertiser.
pub open spec fn spec_effective_position(f: AdmFilterView, name: Seq<char>) -> Option<u8> {
    if f.filter_set.contains_key(lower_of(name)) {
        match f.filter_set[lower_of(name)].position {
            Some(p) => Some(p),
            None => spec_default_entry(f).position,
        }
    } else {
        None
    }
}

/// The effective allowlist: the entry's own, or the default's where the
/// entry's is empty.
pub open spec fn eff_list(own: Seq<Seq<char>>, dflt: Seq<Seq<char>>) -> Seq<Seq<char>> {
    if own.len() == 0 {
        dflt
    } else {
        own
    }
}

/// The query keys every click URL must carry.
pub open spec fn req_click_params() -> Seq<Seq<char>> {
    seq!["ci"@, "ctag"@, "key"@, "version"@]
}

/// The required click query keys, as a set.
pub open spec fn req_click_set() -> Set<Seq<char>> {
    set!["ci"@, "ctag"@, "key"@, "version"@]
}

/// Whether a click URL may carry query key `k`.
pub open spec fn click_param_allowed(k: Seq<char>) -> bool {
    req_click_params().contains(k) || k == "click-status"@
}

/// The first required click key absent from `keys`, in the required order.
pub open spec fn missing_click_param(keys: Seq<Seq<char>>) -> Option<Seq<char>> {
    if !keys.contains("ci"@) {
        Some("ci"@)
    } else if !keys.contains("ctag"@) {
        Some("ctag"@)
    } else if !keys.contains("key"@) {
        Some("key"@)
    } else if !keys.contains("version"@) {
        Some("version"@)
    } else {
        None
    }
}

/// The first key of `keys` that a click URL may not carry.
pub open spec fn first_disallowed(keys: Seq<Seq<char>>) -> Option<Seq<char>>
    decreases keys.len(),
{
    if keys.len() == 0 {
        None
    } else if !click_param_allowed(keys.first()) {
        Some(keys.first())
    } else {
        first_disallowed(keys.drop_first())
    }
}

/// No key is disallowed exactly when every key is allowed.
pub proof fn lemma_first_disallowed_none(keys: Seq<Seq<char>>)
    ensures
        first_disallowed(keys) is None <==> (forall|i: int|
            0 <= i < keys.len() ==> click_param_allowed(keys[i])),
    decreases keys.len(),
{
    if keys.len() > 0 {
        lemma_first_disallowed_none(keys.drop_first());
        if click_param_allowed(keys.first()) {
            assert(forall|i: int|
                0 < i < keys.len() ==> keys[i] == keys.drop_first()[i - 1]);
        }
    }
}

/// The host check for a URL that parsed: the URL must have a host and the
/// host must stand in the allowlist.
pub open spec fn spec_check_host(
    hosts: Seq<Seq<char>>,
    species: UrlSpecies,
    url: Seq<char>,
) -> Result<(), ErrorView> {
    match url_host_of(url) {
        None => Err(ErrorView::MissingHost(species, url)),
        Some(h) => if hosts.contains(h) {
            Ok(())
        } else {
            Err(ErrorView::UnexpectedHost(species, h))
        },
    }
}

/// The advertiser URL check: parse, then the host check.
pub open spec fn spec_check_advertiser(hosts: Seq<Seq<char>>, url: Seq<char>) -> Result<
    (),
    ErrorView,
> {
    if !url_ok(url) {
        Err(ErrorView::InvalidHost(UrlSpecies::Advertiser, url))
    } else {
        spec_check_host(hosts, UrlSpecies::Advertiser, url)
    }
}

/// How a click URL fares, in the order the checks run: parse, host,
/// required keys, allowed keys.
pub enum ClickCheck {
    BadParse,
    BadHost(ErrorView),
    MissingParam(Seq<char>),
    ExtraParam(Seq<char>),
    Good,
}

/// The click URL check, with the failing step and its context.
pub open spec fn spec_click_check(hosts: Seq<Seq<char>>, url: Seq<char>) -> ClickCheck {
    if !url_ok(url) {
        ClickCheck::BadParse
    } else {
        match spec_check_host(hosts, UrlSpecies::Click, url) {
            Err(e) => ClickCheck::BadHost(e),
            Ok(()) => {
                let keys = url_query_keys_of(url);
                match missing_click_param(keys) {
                    Some(m) => ClickCheck::MissingParam(m),
                    None => match first_disallowed(keys) {
                        Some(x) => ClickCheck::ExtraParam(x),
                        None => ClickCheck::Good,
                    },
                }
            },
        }
    }
}

/// The click URL check, as the validator's result.
pub open spec fn spec_check_click(hosts: Seq<Seq<char>>, url: Seq<char>) -> Result<(), ErrorView> {
    match spec_click_check(hosts, url) {
        ClickCheck::Good => Ok(()),
        ClickCheck::BadHost(e) => Err(e),
        _ => Err(ErrorView::InvalidHost(UrlSpecies::Click, url)),
    }
}

/// How an impression URL fares, in the order the checks run: parse, the
/// single required `id` key, host.
pub enum ImpressionCheck {
    BadParse,
    BadParams,
    BadHost(ErrorView),
    Good,
}

/// The impression URL check, with the failing step.
pub open spec fn spec_impression_check(hosts: Seq<Seq<char>>, url: Seq<char>) -> ImpressionCheck {
    if !url_ok(url) {
        ImpressionCheck::BadParse
    } else {
        let keys = url_query_keys_of(url);
        if !(keys.len() == 1 && keys[0] == "id"@) {
            ImpressionCheck::BadParams
        } else {
            match spec_check_host(hosts, UrlSpecies::Impression, url) {
                Err(e) => ImpressionCheck::BadHost(e),
                Ok(()) => ImpressionCheck::Good,
            }
        }
    }
}

/// The impression URL check, as the validator's result.
pub open spec fn spec_check_impression(hosts: Seq<Seq<char>>, url: Seq<char>) -> Result<
    (),
    ErrorView,
> {
    match spec_impression_check(hosts, url) {
        ImpressionCheck::Good => Ok(()),
        ImpressionCheck::BadHost(e) => Err(e),
        _ => Err(ErrorView::InvalidHost(UrlSpecies::Impression, url)),
    }
}

/// The validator: the tile's advertiser must have a ruleset entry
/// (under its lowercased name), and the three URL checks must pass against
/// the effective allowlists. The first failure decides the rejection; on
/// success the sanitized tile is emitted.
pub open spec fn spec_validate(f: AdmFilterView, t: AdmTileView) -> Result<TileView, ErrorView> {
    if !f.filter_set.contains_key(lower_of(t.name)) {
        Err(ErrorView::UnexpectedAdvertiser(t.name))
    } else {
        let e = f.filter_set[lower_of(t.name)];
        let d = spec_default_entry(f);
        match spec_check_advertiser(eff_list(e.advertiser_hosts, d.advertiser_hosts), t.advertiser_url) {
            Err(err) => Err(err),
            Ok(()) => match spec_check_click(eff_list(e.click_hosts, d.click_hosts), t.click_url) {
                Err(err) => Err(err),
                Ok(()) => match spec_check_impression(
                    eff_list(e.impression_hosts, d.impression_hosts),
                    t.impression_url,
                ) {
                    Err(err) => Err(err),
                    Ok(()) => Ok(spec_sanitized(t)),
                },
            },
        }
    }
}

/// The tags each URL check writes on entry: the check's species as the
/// `type` tag, the tile name and checked URL as extras.
pub open spec fn with_species_tags(
    tv: TagsView,
    species: UrlSpecies,
    name: Seq<char>,
    url: Seq<char>,
) -> TagsView {
    TagsView {
        tags: tv.tags.insert("type"@, species.label_spec()),
        extra: tv.extra.insert("tile"@, name).insert("url"@, url),
        metric: tv.metric,
    }
}

/// The extras a query-parameter rejection writes: its reason and the key.
pub open spec fn with_reason_tags(tv: TagsView, reason: Seq<char>, param: Seq<char>) -> TagsView {
    TagsView {
        tags: tv.tags,
        extra: tv.extra.insert("reason"@, reason).insert("param"@, param),
        metric: tv.metric,
    }
}

/// Every tag the validator writes for a tile, in check order: nothing for an
/// unknown advertiser; otherwise each check that runs writes its species
/// tags, and a query-parameter rejection adds its reason and key.
pub open spec fn spec_tags_after(tv: TagsView, f: AdmFilterView, t: AdmTileView) -> TagsView {
    if !f.filter_set.contains_key(lower_of(t.name)) {
        tv
    } else {
        let e = f.filter_set[lower_of(t.name)];
        let d = spec_default_entry(f);
        let after_adv = with_species_tags(tv, UrlSpecies::Advertiser, t.name, t.advertiser_url);
        if spec_check_advertiser(
            eff_list(e.advertiser_hosts, d.advertiser_hosts),
            t.advertiser_url,
        ) is Err {
            after_adv
        } else {
            let after_click = with_species_tags(after_adv, UrlSpecies::Click, t.name, t.click_url);
            match spec_click_check(eff_list(e.click_hosts, d.click_hosts), t.click_url) {
                ClickCheck::BadParse => after_click,
                ClickCheck::BadHost(_) => after_click,
                ClickCheck::MissingParam(m) => with_reason_tags(
                    after_click,
                    "missing required query param"@,
                    m,
                ),
                ClickCheck::ExtraParam(x) => with_reason_tags(after_click, "invalid query param"@, x),
                ClickCheck::Good => {
                    let after_imp = with_species_tags(
                        after_click,
                        UrlSpecies::Impression,
                        t.name,
                        t.impression_url,
                    );
                    match spec_impression_check(
                        eff_list(e.impression_hosts, d.impression_hosts),
                        t.impression_url,
                    ) {
                        ImpressionCheck::BadParams => with_reason_tags(
                            after_imp,
                            "invalid query param"@,
                            "id"@,
                        ),
                        _ => after_imp,
                    }
                },
            }
        }
    }
}

/// The host check, for a URL that parsed into `parts`: the URL must have a
/// host, and the host must equal an allowlist entry exactly — whole
/// hostnames, no suffix matching. `lemma_emitted_hosts_allowlisted` states
/// the law this check enforces for every emitted tile.
fn check_url(
    parts: &UrlParts,
    species: UrlSpecies,
    filter: &Vec<String>,
    url: &String,
) -> (r: Result<(), HandlerErrorKind>)
    requires
        url_ok(url@),
        parts.host.deep_view() == url_host_of(url@),
    ensures
        r is Ok <==> spec_check_host(filter.deep_view(), species, url@) is Ok,
        r is Err ==> r->Err_0@ == spec_check_host(filter.deep_view(), species, url@)->Err_0,
{
    match &parts.host {
        None => Err(HandlerErrorKind::MissingHost(species, url.clone())),
        Some(h) => {
            if vec_contains_str(filter, h.as_str()) {
                Ok(())
            } else {
                Err(HandlerErrorKind::UnexpectedHost(species, h.clone()))
            }
        },
    }
}

impl AdmFilter {
    /// The settings stored for `key`, if any; later entries win.
    fn lookup_entry<'a>(&'a self, key: &str) -> (r: Option<&'a AdmAdvertiserFilterSettings>)
        ensures
            match r {
                Some(e) => self@.filter_set.contains_key(key@) && e@ == self@.filter_set[key@],
                None => !self@.filter_set.contains_key(key@),
            },
    {
        let v = &self.filter_set;
        let mut i: usize = v.len();
        assert(v@.take(i as int) =~= v@);
        while i > 0
            invariant
                0 <= i <= v.len(),
                v@ == self.filter_set@,
                entries_map(v@).contains_key(key@) == entries_map(v@.take(i as int)).contains_key(
                    key@,
                ),
                entries_map(v@).contains_key(key@) ==> entries_map(v@)[key@] == entries_map(
                    v@.take(i as int),
                )[key@],
            decreases i,
        {
            i -= 1;
            assert(v@.take(i as int + 1).drop_last() =~= v@.take(i as int));
            assert(v@.take(i as int + 1).last() == v@[i as int]);
            if str_eq(v[i].0.as_str(), key) {
                proof {
                    let pre = v@.take(i as int + 1);
                    assert(entries_map(pre) == entries_map(v@.take(i as int)).insert(
                        v@[i as int].0@,
                        v@[i as int].1@,
                    ));
                    assert(entries_map(pre).contains_key(key@));
                    assert(entries_map(pre)[key@] == v@[i as int].1@);
                    assert(self@.filter_set == entries_map(v@));
                    assert(self@.filter_set.contains_key(key@));
                    assert(self@.filter_set[key@] == v@[i as int].1@);
                }
                return Some(&v[i].1);
            }
        }
        assert(v@.take(0) =~= Seq::<(String, AdmAdvertiserFilterSettings)>::empty());
        None
    }

    /// Checks the advertiser URL against the effective allowlist, writing
    /// the check's tags.
    fn check_advertiser(
        &self,
        hosts: &Vec<String>,
        tile: &AdmTile,
        tags: &mut Tags,
    ) -> (r: Result<(), HandlerErrorKind>)
        ensures
            r is Ok <==> spec_check_advertiser(hosts.deep_view(), tile@.advertiser_url) is Ok,
            r is Err ==> r->Err_0@ == spec_check_advertiser(
                hosts.deep_view(),
                tile@.advertiser_url,
            )->Err_0,
            final(tags)@ == with_species_tags(
                old(tags)@,
                UrlSpecies::Advertiser,
                tile@.name,
                tile@.advertiser_url,
            ),
    {
        let species = UrlSpecies::Advertiser;
        tags.add_tag("type", species.label().as_str());
        tags.add_extra("tile", tile.name.as_str());
        tags.add_extra("url", tile.advertiser_url.as_str());
        match parse_url(tile.advertiser_url.as_str()) {
            None => Err(HandlerErrorKind::InvalidHost(species, tile.advertiser_url.clone())),
            Some(parts) => check_url(&parts, species, hosts, &tile.advertiser_url),
        }
    }

    /// Checks the click URL: effective allowlist membership, then the
    /// required and allowed query keys; writes the check's tags.
    #[verifier::loop_isolation(false)]
    fn check_click(
        &self,
        hosts: &Vec<String>,
        tile: &AdmTile,
        tags: &mut Tags,
    ) -> (r: Result<(), HandlerErrorKind>)
        ensures
            r is Ok <==> spec_check_click(hosts.deep_view(), tile@.click_url) is Ok,
            r is Err ==> r->Err_0@ == spec_check_click(hosts.deep_view(), tile@.click_url)->Err_0,
            final(tags)@ == ({
                let after = with_species_tags(
                    old(tags)@,
                    UrlSpecies::Click,
                    tile@.name,
                    tile@.click_url,
                );
                match spec_click_check(hosts.deep_view(), tile@.click_url) {
                    ClickCheck::MissingParam(m) => with_reason_tags(
                        after,
                        "missing required query param"@,
                        m,
                    ),
                    ClickCheck::ExtraParam(x) => with_reason_tags(after, "invalid query param"@, x),
                    _ => after,
                }
            }),
    {
        let species = UrlSpecies::Click;
        let url = &tile.click_url;
        tags.add_tag("type", species.label().as_str());
        tags.add_extra("tile", tile.name.as_str());
        tags.add_extra("url", url.as_str());
        let parts = match parse_url(url.as_str()) {
            None => {
                return Err(HandlerErrorKind::InvalidHost(species, url.clone()));
            },
            Some(parts) => parts,
        };
        match check_url(&parts, species, hosts, url) {
            Err(e) => {
                return Err(e);
            },
            Ok(()) => {},
        }
        let keys = &parts.query_keys;
        let ghost keys_v = url_query_keys_of(url@);
        if !vec_contains_str(keys, "ci") {
            tags.add_extra("reason", "missing required query param");
            tags.add_extra("param", "ci");
            return Err(HandlerErrorKind::InvalidHost(species, url.clone()));
        }
        if !vec_contains_str(keys, "ctag") {
            tags.add_extra("reason", "missing required query param");
            tags.add_extra("param", "ctag");
            return Err(HandlerErrorKind::InvalidHost(species, url.clone()));
        }
        if !vec_contains_str(keys, "key") {
            tags.add_extra("reason", "missing required query param");
            tags.add_extra("param", "key");
            return Err(HandlerErrorKind::InvalidHost(species, url.clone()));
        }
        if !vec_contains_str(keys, "version") {
            tags.add_extra("reason", "missing required query param");
            tags.add_extra("param", "version");
            return Err(HandlerErrorKind::InvalidHost(species, url.clone()));
        }
        let mut i: usize = 0;
        assert(keys_v.skip(0) =~= keys_v);
        let ghost tags_snap = tags@;
        while i < keys.len()
            invariant
                0 <= i <= keys.len(),
                keys.deep_view() == keys_v,
                keys_v == url_query_keys_of(tile@.click_url),
                url_ok(tile@.click_url),
                spec_check_host(hosts.deep_view(), UrlSpecies::Click, tile@.click_url) is Ok,
                url@ == tile@.click_url,
                first_disallowed(keys_v) == first_disallowed(keys_v.skip(i as int)),
                missing_click_param(keys_v) is None,
                tags@ == tags_snap,
            decreases keys.len() - i,
        {
            let k = &keys[i];
            assert(k@ == keys_v[i as int]);
            assert(keys_v.skip(i as int).first() == keys_v[i as int]);
            assert(keys_v.skip(i as int).drop_first() =~= keys_v.skip(i as int + 1));
            let allowed = str_eq(k.as_str(), "ci") || str_eq(k.as_str(), "ctag") || str_eq(
                k.as_str(),
                "key",
            ) || str_eq(k.as_str(), "version") || str_eq(k.as_str(), "click-status");
            proof {
                let rq = req_click_params();
                assert(rq.len() == 4);
                assert(rq[0] == "ci"@);
                assert(rq[1] == "ctag"@);
                assert(rq[2] == "key"@);
                assert(rq[3] == "version"@);
                if allowed {
                    if k@ == "ci"@ {
                        assert(rq.contains(k@)) by { assert(rq[0] == k@); }
                    } else if k@ == "ctag"@ {
                        assert(rq.contains(k@)) by { assert(rq[1] == k@); }
                    } else if k@ == "key"@ {
                        assert(rq.contains(k@)) by { assert(rq[2] == k@); }
                    } else if k@ == "version"@ {
                        assert(rq.contains(k@)) by { assert(rq[3] == k@); }
                    }
                    assert(click_param_allowed(k@));
                } else {
                    if rq.contains(k@) {
                        let j = choose|j: int| 0 <= j < rq.len() && rq[j] == k@;
                        assert(j == 0 || j == 1 || j == 2 || j == 3);
                        assert(false);
                    }
                    assert(!click_param_allowed(k@));
                }
            }
            if !allowed {
                proof {
                    assert(keys_v.skip(i as int).len() > 0);
                    assert(first_disallowed(keys_v.skip(i as int)) == Some(k@));
                    assert(spec_click_check(hosts.deep_view(), tile@.click_url)
                        == ClickCheck::ExtraParam(k@));
                }
                tags.add_extra("reason", "invalid query param");
                tags.add_extra("param", k.as_str());
                return Err(HandlerErrorKind::InvalidHost(species, url.clone()));
            }
            i += 1;
        }
        assert(keys_v.skip(keys_v.len() as int) =~= Seq::<Seq<char>>::empty());
        Ok(())
    }

    /// Checks the impression URL: the query must carry `id` as its only
    /// key, exactly once (a duplicate counts as a separate key and
    /// rejects), then the host must stand in the effective allowlist;
    /// writes the check's tags. `lemma_emitted_query_keys` states the law
    /// this check enforces for every emitted tile.
    fn check_impression(
        &self,
        hosts: &Vec<String>,
        tile: &AdmTile,
        tags: &mut Tags,
    ) -> (r: Result<(), HandlerErrorKind>)
        ensures
            r is Ok <==> spec_check_impression(hosts.deep_view(), tile@.impression_url) is Ok,
            r is Err ==> r->Err_0@ == spec_check_impression(
                hosts.deep_view(),
                tile@.impression_url,
            )->Err_0,
            final(tags)@ == ({
                let after = with_species_tags(
                    old(tags)@,
                    UrlSpecies::Impression,
                    tile@.name,
                    tile@.impression_url,
                );
                match spec_impression_check(hosts.deep_view(), tile@.impression_url) {
                    ImpressionCheck::BadParams => with_reason_tags(
                        after,
                        "invalid query param"@,
                        "id"@,
                    ),
                    _ => after,
                }
            }),
    {
        let species = UrlSpecies::Impression;
        let url = &tile.impression_url;
        tags.add_tag("type", species.label().as_str());
        tags.add_extra("tile", tile.name.as_str());
        tags.add_extra("url", url.as_str());
        let parts = match parse_url(url.as_str()) {
            None => {
                return Err(HandlerErrorKind::InvalidHost(species, url.clone()));
            },
            Some(parts) => parts,
        };
        let ok_params = parts.query_keys.len() == 1 && str_eq(parts.query_keys[0].as_str(), "id");
        if !ok_params {
            tags.add_extra("reason", "invalid query param");
            tags.add_extra("param", "id");
            return Err(HandlerErrorKind::InvalidHost(species, url.clone()));
        }
        check_url(&parts, species, hosts, url)
    }

    /// Validates one upstream tile: returns the sanitized tile, or the
    /// rejection that stops it; writes the tags of every check that ran.
    pub fn validate(&self, tile: &AdmTile, tags: &mut Tags) -> (r: Result<Tile, HandlerErrorKind>)
        ensures
            r is Ok <==> spec_validate(self@, tile@) is Ok,
            r is Ok ==> r->Ok_0@ == spec_validate(self@, tile@)->Ok_0,
            r is Err ==> r->Err_0@ == spec_validate(self@, tile@)->Err_0,
            final(tags)@ == spec_tags_after(old(tags)@, self@, tile@),
    {
        let name_lc = lowercase(tile.name.as_str());
        let entry = match self.lookup_entry(name_lc.as_str()) {
            None => {
                return Err(HandlerErrorKind::UnexpectedAdvertiser(tile.name.clone()));
            },
            Some(e) => e,
        };
        let none_entry = AdmAdvertiserFilterSettings::default();
        let default = match self.lookup_entry("default") {
            Some(d) => d,
            None => &none_entry,
        };
        let adv_hosts = if entry.advertiser_hosts.len() == 0 {
            &default.advertiser_hosts
        } else {
            &entry.advertiser_hosts
        };
        let click_hosts = if entry.click_hosts.len() == 0 {
            &default.click_hosts
        } else {
            &entry.click_hosts
        };
        let imp_hosts = if entry.impression_hosts.len() == 0 {
            &default.impression_hosts
        } else {
            &entry.impression_hosts
        };
        match self.check_advertiser(adv_hosts, tile, tags) {
            Err(e) => {
                return Err(e);
            },
            Ok(()) => {},
        }
        match self.check_click(click_hosts, tile, tags) {
            Err(e) => {
                return Err(e);
            },
            Ok(()) => {},
        }
        match self.check_impression(imp_hosts, tile, tags) {
            Err(e) => {
                return Err(e);
            },
            Ok(()) => {},
        }
        Ok(Tile::from_adm_tile(tile.duplicate()))
    }

    /// Filters one upstream tile: the sanitized tile where it passes, `None`
    /// where it is rejected (the rejection's tags are written either way).
    pub fn filter_and_process(&self, tile: AdmTile, tags: &mut Tags) -> (r: Option<Tile>)
        ensures
            r is Some <==> spec_validate(self@, tile@) is Ok,
            r is Some ==> r->0@ == spec_validate(self@, tile@)->Ok_0,
            final(tags)@ == spec_tags_after(old(tags)@, self@, tile@),
    {
        match self.validate(&tile, tags) {
            Ok(t) => Some(t),
            Err(_) => None,
        }
    }
}

/// The ruleset map a list of named entries describes: each name lowercased,
/// later entries for one name winning.
pub open spec fn built_map(s: Seq<(String, AdmAdvertiserFilterSettings)>) -> Map<
    Seq<char>,
    EntryView,
>
    decreases s.len(),
{
    if s.len() == 0 {
        Map::empty()
    } else {
        built_map(s.drop_last()).insert(lower_of(s.last().0@), s.last().1@)
    }
}

/// Every entry's `include_regions`, concatenated in entry order.
pub open spec fn regions_union(s: Seq<(String, AdmAdvertiserFilterSettings)>) -> Seq<Seq<char>>
    decreases s.len(),
{
    if s.len() == 0 {
        Seq::empty()
    } else {
        regions_union(s.drop_last()) + s.last().1@.include_regions
    }
}

/// Law: the collected region union holds exactly the regions that some
/// entry serves. A request's country therefore passes `country_allowed`
/// precisely when an advertiser includes it.
pub proof fn lemma_regions_union_membership(
    s: Seq<(String, AdmAdvertiserFilterSettings)>,
    x: Seq<char>,
)
    ensures
        regions_union(s).contains(x) <==> exists|i: int|
            0 <= i < s.len() && s[i].1@.include_regions.contains(x),
    decreases s.len(),
{
    if s.len() > 0 {
        let d = s.drop_last();
        lemma_regions_union_membership(d, x);
        let u = regions_union(d);
        let last_regions = s.last().1@.include_regions;
        assert(regions_union(s) == u + last_regions);
        if u.contains(x) {
            let j = choose|j: int| 0 <= j < u.len() && u[j] == x;
            assert((u + last_regions)[j] == x);
        }
        if last_regions.contains(x) {
            let j = choose|j: int| 0 <= j < last_regions.len() && last_regions[j] == x;
            assert((u + last_regions)[u.len() + j] == x);
        }
        if regions_union(s).contains(x) {
            let j = choose|j: int| 0 <= j < regions_union(s).len() && regions_union(s)[j] == x;
            if j < u.len() {
                assert(u[j] == x);
            } else {
                assert(last_regions[j - u.len()] == x);
            }
        }
        if exists|i: int| 0 <= i < s.len() && s[i].1@.include_regions.contains(x) {
            let i = choose|i: int| 0 <= i < s.len() && s[i].1@.include_regions.contains(x);
            if i < s.len() - 1 {
                assert(d[i] == s[i]);
            } else {
                assert(s[i] == s.last());
            }
        }
        if exists|i: int| 0 <= i < d.len() && d[i].1@.include_regions.contains(x) {
            let i = choose|i: int| 0 <= i < d.len() && d[i].1@.include_regions.contains(x);
            assert(s[i] == d[i]);
        }
    }
}

impl AdmFilter {
    /// Builds the ruleset from named entries: names are lowercased for
    /// lookup, and the region gate's union is collected.
    #[verifier::loop_isolation(false)]
    pub fn from_entries(entries: &Vec<(String, AdmAdvertiserFilterSettings)>) -> (r: AdmFilter)
        ensures
            r@.filter_set == built_map(entries@),
            r@.all_include_regions == regions_union(entries@),
    {
        let mut filter_set: Vec<(String, AdmAdvertiserFilterSettings)> = Vec::new();
        let mut regions: Vec<String> = Vec::new();
        let mut i: usize = 0;
        assert(entries@.take(0) =~= Seq::<(String, AdmAdvertiserFilterSettings)>::empty());
        while i < entries.len()
            invariant
                0 <= i <= entries.len(),
                entries_map(filter_set@) == built_map(entries@.take(i as int)),
                regions.deep_view() == regions_union(entries@.take(i as int)),
            decreases entries.len() - i,
        {
            let entry = &entries[i].1;
            let mut j: usize = 0;
            while j < entry.include_regions.len()
                invariant
                    0 <= j <= entry.include_regions.len(),
                    regions.deep_view() == regions_union(entries@.take(i as int))
                        + entry@.include_regions.take(j as int),
                decreases entry.include_regions.len() - j,
            {
                let ghost rprev = regions.deep_view();
                regions.push(entry.include_regions[j].clone());
                proof {
                    let x = entry@.include_regions[j as int];
                    assert(regions.deep_view() =~= rprev.push(x));
                    assert(entry@.include_regions.take(j as int + 1) =~= entry@.include_regions.take(
                        j as int,
                    ).push(x));
                    assert(regions_union(entries@.take(i as int)) + entry@.include_regions.take(
                        j as int + 1,
                    ) =~= rprev.push(x));
                }
                j += 1;
            }
            assert(entry@.include_regions.take(entry.include_regions@.len() as int)
                =~= entry@.include_regions);
            let ghost fs_prev = filter_set@;
            filter_set.push((lowercase(entries[i].0.as_str()), entry.duplicate()));
            proof {
                assert(filter_set@.drop_last() =~= fs_prev);
                assert(entries@.take(i as int + 1).drop_last() =~= entries@.take(i as int));
                assert(entries@.take(i as int + 1).last() == entries@[i as int]);
                assert(filter_set@.last().0@ == lower_of(entries@[i as int].0@));
                assert(filter_set@.last().1@ == entries@[i as int].1@);
                assert(entries_map(filter_set@) == entries_map(filter_set@.drop_last()).insert(
                    filter_set@.last().0@,
                    filter_set@.last().1@,
                ));
                assert(regions_union(entries@.take(i as int + 1)) == regions_union(
                    entries@.take(i as int),
                ) + entries@[i as int].1@.include_regions);
            }
            i += 1;
        }
        assert(entries@.take(entries@.len() as int) =~= entries@);
        AdmFilter { filter_set, all_include_regions: regions }
    }

    /// The tile position an advertiser's tiles carry: the entry's own, or
    /// the `DEFAULT` entry's where the entry pins none. Carried out-of-band
    /// beside the sanitized tile; the assembly step does not sort by it.
    pub fn effective_position(&self, name: &String) -> (r: Option<u8>)
        ensures
            r == spec_effective_position(self@, name@),
    {
        let name_lc = lowercase(name.as_str());
        match self.lookup_entry(name_lc.as_str()) {
            None => None,
            Some(e) => match e.position {
                Some(p) => Some(p),
                None => {
                    let none_entry = AdmAdvertiserFilterSettings::default();
                    let default = match self.lookup_entry("default") {
                        Some(d) => d,
                        None => &none_entry,
                    };
                    default.position
                },
            },
        }
    }

    /// The early region gate's test: whether some entry serves the country.
    pub fn country_allowed(&self, country: &String) -> (r: bool)
        ensures
            r == self@.all_include_regions.contains(country@),
    {
        vec_contains_str(&self.all_include_regions, country.as_str())
    }
}

/// The sanitized forms of the tiles that pass the filter, in upstream order.
pub open spec fn spec_filtered(f: AdmFilterView, ts: Seq<AdmTileView>) -> Seq<TileView>
    decreases ts.len(),
{
    if ts.len() == 0 {
        Seq::empty()
    } else {
        let rest = spec_filtered(f, ts.drop_first());
        match spec_validate(f, ts.first()) {
            Ok(t) => seq![t] + rest,
            Err(_) => rest,
        }
    }
}

/// `s` cut to at most `max` entries.
pub open spec fn spec_truncated(s: Seq<TileView>, max: int) -> Seq<TileView> {
    if s.len() <= max {
        s
    } else {
        s.take(max)
    }
}

/// Law: filtering preserves the upstream order. The tiles that pass a
/// prefix of the upstream payload come out, in order, before the tiles that
/// pass the rest; so any two emitted tiles stand in the order their raw
/// tiles arrived in.
pub proof fn lemma_filtered_ordered(f: AdmFilterView, a: Seq<AdmTileView>, b: Seq<AdmTileView>)
    ensures
        spec_filtered(f, a + b) == spec_filtered(f, a) + spec_filtered(f, b),
    decreases a.len(),
{
    if a.len() == 0 {
        assert(a + b =~= b);
        assert(Seq::<TileView>::empty() + spec_filtered(f, b) =~= spec_filtered(f, b));
    } else {
        assert((a + b).first() == a.first());
        assert((a + b).drop_first() =~= a.drop_first() + b);
        lemma_filtered_ordered(f, a.drop_first(), b);
        match spec_validate(f, a.first()) {
            Ok(t) => {
                assert(seq![t] + (spec_filtered(f, a.drop_first()) + spec_filtered(f, b)) =~= (
                seq![t] + spec_filtered(f, a.drop_first())) + spec_filtered(f, b));
            },
            Err(_) => {},
        }
    }
}

/// The tags after validating a payload in order: each tile's writes, applied
/// left to right.
pub open spec fn spec_tags_fold(tv: TagsView, f: AdmFilterView, ts: Seq<AdmTileView>) -> TagsView
    decreases ts.len(),
{
    if ts.len() == 0 {
        tv
    } else {
        spec_tags_fold(spec_tags_after(tv, f, ts.first()), f, ts.drop_first())
    }
}

/// Folding one more tile's writes onto a validated payload's tags.
pub proof fn lemma_tags_fold_snoc(tv: TagsView, f: AdmFilterView, ts: Seq<AdmTileView>, t: AdmTileView)
    ensures
        spec_tags_fold(tv, f, ts.push(t)) == spec_tags_after(spec_tags_fold(tv, f, ts), f, t),
    decreases ts.len(),
{
    if ts.len() == 0 {
        assert(ts.push(t).first() == t);
        assert(ts.push(t).drop_first() =~= Seq::<AdmTileView>::empty());
        assert(spec_tags_fold(spec_tags_after(tv, f, t), f, Seq::<AdmTileView>::empty())
            == spec_tags_after(tv, f, t));
        assert(spec_tags_fold(tv, f, ts) == tv);
    } else {
        assert(ts.push(t).first() == ts.first());
        assert(ts.push(t).drop_first() =~= ts.drop_first().push(t));
        lemma_tags_fold_snoc(spec_tags_after(tv, f, ts.first()), f, ts.drop_first(), t);
    }
}

impl AdmFilter {
    /// Filters an upstream payload in order and truncates to `max_tiles`:
    /// the response's tile list before image decoration. The tags receive
    /// each tile's validation writes, in payload order.
    #[verifier::loop_isolation(false)]
    pub fn filter_and_assemble(
        &self,
        tiles: &Vec<AdmTile>,
        max_tiles: usize,
        tags: &mut Tags,
    ) -> (r: Vec<Tile>)
        ensures
            r.deep_view() == spec_truncated(spec_filtered(self@, tiles.deep_view()), max_tiles as int),
            final(tags)@ == spec_tags_fold(old(tags)@, self@, tiles.deep_view()),
    {
        let mut out: Vec<Tile> = Vec::new();
        let mut i: usize = 0;
        assert(tiles.deep_view().take(0) =~= Seq::<AdmTileView>::empty());
        while i < tiles.len()
            invariant
                0 <= i <= tiles.len(),
                out.deep_view() == spec_truncated(
                    spec_filtered(self@, tiles.deep_view().take(i as int)),
                    max_tiles as int,
                ),
                out.len() <= max_tiles,
                tags@ == spec_tags_fold(old(tags)@, self@, tiles.deep_view().take(i as int)),
            decreases tiles.len() - i,
        {
            let tile = tiles[i].duplicate();
            proof {
                let full = tiles.deep_view();
                let pre = full.take(i as int + 1);
                assert(pre =~= full.take(i as int) + seq![full[i as int]]);
                assert(pre =~= full.take(i as int).push(full[i as int]));
                lemma_filtered_ordered(f_v(self), full.take(i as int), seq![full[i as int]]);
                lemma_tags_fold_snoc(old(tags)@, f_v(self), full.take(i as int), full[i as int]);
                assert(seq![full[i as int]].drop_first() =~= Seq::<AdmTileView>::empty());
                assert(seq![full[i as int]].first() == full[i as int]);
                assert(spec_filtered(f_v(self), Seq::<AdmTileView>::empty())
                    == Seq::<TileView>::empty());
                assert(tile@ == full[i as int]);
            }
            let ghost out_prev = out.deep_view();
            match self.filter_and_process(tile, tags) {
                Some(t) => {
                    if out.len() < max_tiles {
                        out.push(t);
                        proof {
                            let full = tiles.deep_view();
                            let fpre = spec_filtered(f_v(self), full.take(i as int));
                            assert(out_prev == fpre);
                            assert(out.deep_view() =~= fpre + spec_filtered(
                                f_v(self),
                                seq![full[i as int]],
                            ));
                        }
                    } else {
                        proof {
                            let full = tiles.deep_view();
                            let fpre = spec_filtered(f_v(self), full.take(i as int));
                            let fnext = spec_filtered(f_v(self), full.take(i as int + 1));
                            assert(fpre.len() >= max_tiles);
                            assert(fnext.take(max_tiles as int) =~= fpre.take(max_tiles as int));
                        }
                    }
                },
                None => {
                    proof {
                        let full = tiles.deep_view();
                        assert(spec_filtered(f_v(self), full.take(i as int + 1)) =~= spec_filtered(
                            f_v(self),
                            full.take(i as int),
                        ));
                    }
                },
            }
            i += 1;
        }
        assert(tiles.deep_view().take(tiles@.len() as int) =~= tiles.deep_view());
        out
    }
}

/// The view of a filter, named so loop proofs can speak of it tersely.
pub open spec fn f_v(f: &AdmFilter) -> AdmFilterView {
    f@
}

/// Law: whatever the assembly emits was validated. Each tile of the
/// filtered output is the sanitized form of some raw tile that the
/// validator accepted, so the allowlist and query-key laws below hold of
/// every tile a client sees.
pub proof fn lemma_filtered_from_validated(f: AdmFilterView, ts: Seq<AdmTileView>, j: int)
    requires
        0 <= j < spec_filtered(f, ts).len(),
    ensures
        exists|i: int|
            0 <= i < ts.len() && spec_validate(f, ts[i]) is Ok && spec_filtered(f, ts)[j]
                == spec_validate(f, ts[i])->Ok_0,
    decreases ts.len(),
{
    let out = spec_filtered(f, ts);
    let rest = spec_filtered(f, ts.drop_first());
    match spec_validate(f, ts.first()) {
        Ok(t) => {
            if j == 0 {
                assert(ts[0] == ts.first());
                assert(out[0] == t);
                assert(spec_validate(f, ts[0]) is Ok && out[0] == spec_validate(f, ts[0])->Ok_0);
            } else {
                lemma_filtered_from_validated(f, ts.drop_first(), j - 1);
                let i0 = choose|i0: int|
                    0 <= i0 < ts.drop_first().len() && spec_validate(f, ts.drop_first()[i0]) is Ok
                        && rest[j - 1] == spec_validate(f, ts.drop_first()[i0])->Ok_0;
                assert(ts[i0 + 1] == ts.drop_first()[i0]);
                assert(out[j] == rest[j - 1]);
                assert(spec_validate(f, ts[i0 + 1]) is Ok && out[j] == spec_validate(
                    f,
                    ts[i0 + 1],
                )->Ok_0);
            }
        },
        Err(_) => {
            lemma_filtered_from_validated(f, ts.drop_first(), j);
            let i0 = choose|i0: int|
                0 <= i0 < ts.drop_first().len() && spec_validate(f, ts.drop_first()[i0]) is Ok
                    && rest[j] == spec_validate(f, ts.drop_first()[i0])->Ok_0;
            assert(ts[i0 + 1] == ts.drop_first()[i0]);
            assert(spec_validate(f, ts[i0 + 1]) is Ok && out[j] == spec_validate(
                f,
                ts[i0 + 1],
            )->Ok_0);
        },
    }
}

/// Law: an emitted tile's advertiser, click and impression URL hosts each
/// stand in the effective allowlist that its advertiser's entry (with the
/// `DEFAULT` fallbacks) prescribes.
pub proof fn lemma_emitted_hosts_allowlisted(f: AdmFilterView, t: AdmTileView)
    requires
        spec_validate(f, t) is Ok,
    ensures
        f.filter_set.contains_key(lower_of(t.name)),
        ({
            let e = f.filter_set[lower_of(t.name)];
            let d = spec_default_entry(f);
            &&& url_host_of(t.advertiser_url) matches Some(h1) && eff_list(
                e.advertiser_hosts,
                d.advertiser_hosts,
            ).contains(h1)
            &&& url_host_of(t.click_url) matches Some(h2) && eff_list(
                e.click_hosts,
                d.click_hosts,
            ).contains(h2)
            &&& url_host_of(t.impression_url) matches Some(h3) && eff_list(
                e.impression_hosts,
                d.impression_hosts,
            ).contains(h3)
        }),
{
}

/// The required click keys, as a seq and as a set, name the same four keys.
pub proof fn lemma_req_click_params_elems(x: Seq<char>)
    ensures
        req_click_params().contains(x) <==> (x == "ci"@ || x == "ctag"@ || x == "key"@ || x
            == "version"@),
        req_click_set().contains(x) <==> (x == "ci"@ || x == "ctag"@ || x == "key"@ || x
            == "version"@),
{
    let rq = req_click_params();
    assert(rq.len() == 4);
    assert(rq[0] == "ci"@);
    assert(rq[1] == "ctag"@);
    assert(rq[2] == "key"@);
    assert(rq[3] == "version"@);
    if rq.contains(x) {
        let j = choose|j: int| 0 <= j < rq.len() && rq[j] == x;
        assert(j == 0 || j == 1 || j == 2 || j == 3);
    }
    if x == "ci"@ {
        assert(rq.contains(x)) by {
            assert(rq[0] == x);
        }
    }
    if x == "ctag"@ {
        assert(rq.contains(x)) by {
            assert(rq[1] == x);
        }
    }
    if x == "key"@ {
        assert(rq.contains(x)) by {
            assert(rq[2] == x);
        }
    }
    if x == "version"@ {
        assert(rq.contains(x)) by {
            assert(rq[3] == x);
        }
    }
}

/// Law: an emitted tile's click URL carries exactly the required query keys
/// `{ci, ctag, key, version}`, or those plus `click-status`; and its
/// impression URL's query key multiset is exactly one `id`.
pub proof fn lemma_emitted_query_keys(f: AdmFilterView, t: AdmTileView)
    requires
        spec_validate(f, t) is Ok,
    ensures
        url_query_keys_of(t.click_url).to_set() == req_click_set() || url_query_keys_of(
            t.click_url,
        ).to_set() == req_click_set().insert("click-status"@),
        url_query_keys_of(t.impression_url).to_multiset() == Multiset::<Seq<char>>::empty().insert(
            "id"@,
        ),
{
    broadcast use vstd::seq_lib::group_to_multiset_ensures;

    let keys = url_query_keys_of(t.click_url);
    lemma_first_disallowed_none(keys);
    assert(missing_click_param(keys) is None);
    assert(forall|i: int| 0 <= i < keys.len() ==> click_param_allowed(keys[i]));
    assert forall|x: Seq<char>| keys.to_set().contains(x) implies (req_click_set().contains(x) || x
        == "click-status"@) by {
        let j = choose|j: int| 0 <= j < keys.len() && keys[j] == x;
        lemma_req_click_params_elems(x);
    }
    lemma_req_click_params_elems("ci"@);
    lemma_req_click_params_elems("ctag"@);
    lemma_req_click_params_elems("key"@);
    lemma_req_click_params_elems("version"@);
    if keys.contains("click-status"@) {
        assert forall|x: Seq<char>| req_click_set().insert("click-status"@).contains(x) implies keys.to_set().contains(
            x,
        ) by {
            lemma_req_click_params_elems(x);
        }
        assert(keys.to_set() =~= req_click_set().insert("click-status"@));
    } else {
        assert forall|x: Seq<char>| req_click_set().contains(x) implies keys.to_set().contains(x) by {
            lemma_req_click_params_elems(x);
        }
        assert forall|x: Seq<char>| keys.to_set().contains(x) implies req_click_set().contains(x) by {
            lemma_req_click_params_elems(x);
        }
        assert(keys.to_set() =~= req_click_set());
    }
    let ikeys = url_query_keys_of(t.impression_url);
    assert(ikeys.len() == 1 && ikeys[0] == "id"@);
    assert(ikeys =~= Seq::<Seq<char>>::empty().push("id"@));
    assert(Seq::<Seq<char>>::empty().push("id"@).to_multiset() =~= Seq::<Seq<char>>::empty().to_multiset().insert("id"@));
    assert(Seq::<Seq<char>>::empty().to_multiset() =~= Multiset::<Seq<char>>::empty()) by {
        assert(Seq::<Seq<char>>::empty().to_multiset().len() == 0);
    }
}

} // verus!
