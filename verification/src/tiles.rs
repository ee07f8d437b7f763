//! Tile data: what the upstream sends, what the client receives, and the
//! steps of the assembly pipeline that compute on them.

use vstd::prelude::*;

verus! {

use crate::error::HandlerErrorKind;
use crate::extractors::DeviceInfo;
use crate::extractors::Location;
use crate::settings::Settings;
use crate::settings::SettingsView;
use crate::settings::TestModes;
use crate::text::dec_str;
use crate::text::is_alnum;
use crate::text::lower_of;
use crate::text::lowercase;
use crate::text::str_chars;
use crate::text::u16_dec;
use crate::text::u32_dec;
use crate::urls::pairs_view;
use crate::urls::url_with_params;
use crate::urls::url_with_params_of;

/// One tile as the upstream provides it.
#[derive(Debug)]
pub struct AdmTile {
    pub id: u64,
    pub name: String,
    pub advertiser_url: String,
    pub click_url: String,
    pub image_url: String,
    pub impression_url: String,
    pub position: Option<u8>,
}

/// The mathematical shape of an `AdmTile`.
pub struct AdmTileView {
    pub id: u64,
    pub name: Seq<char>,
    pub advertiser_url: Seq<char>,
    pub click_url: Seq<char>,
    pub image_url: Seq<char>,
    pub impression_url: Seq<char>,
    pub position: Option<u8>,
}

impl View for AdmTile {
    type V = AdmTileView;

    open spec fn view(&self) -> AdmTileView {
        AdmTileView {
            id: self.id,
            name: self.name@,
            advertiser_url: self.advertiser_url@,
            click_url: self.click_url@,
            image_url: self.image_url@,
            impression_url: self.impression_url@,
            position: self.position,
        }
    }
}

impl DeepView for AdmTile {
    type V = AdmTileView;

    open spec fn deep_view(&self) -> AdmTileView {
        self.view()
    }
}

impl AdmTile {
    /// A value-equal copy.
    pub fn duplicate(&self) -> (r: Self)
        ensures
            r@ == self@,
    {
        AdmTile {
            id: self.id,
            name: self.name.clone(),
            advertiser_url: self.advertiser_url.clone(),
            click_url: self.click_url.clone(),
            image_url: self.image_url.clone(),
            impression_url: self.impression_url.clone(),
            position: self.position,
        }
    }
}

/// The payload provided by the upstream: a list of tiles (possibly empty).
#[derive(Debug)]
pub struct AdmTileResponse {
    pub tiles: Vec<AdmTile>,
}

/// One tile as the client receives it. Differs from `AdmTile` in that
/// `advertiser_url` becomes `url` and an image size may be attached.
#[derive(Debug)]
pub struct Tile {
    pub id: u64,
    pub name: String,
    pub url: String,
    pub click_url: String,
    pub image_url: String,
    pub image_size: Option<u32>,
    pub impression_url: String,
}

/// The mathematical shape of a `Tile`.
pub struct TileView {
    pub id: u64,
    pub name: Seq<char>,
    pub url: Seq<char>,
    pub click_url: Seq<char>,
    pub image_url: Seq<char>,
    pub image_size: Option<u32>,
    pub impression_url: Seq<char>,
}

impl View for Tile {
    type V = TileView;

    open spec fn view(&self) -> TileView {
        TileView {
            id: self.id,
            name: self.name@,
            url: self.url@,
            click_url: self.click_url@,
            image_url: self.image_url@,
            image_size: self.image_size,
            impression_url: self.impression_url@,
        }
    }
}

impl DeepView for Tile {
    type V = TileView;

    open spec fn deep_view(&self) -> TileView {
        self.view()
    }
}

impl Tile {
    /// A value-equal copy.
    pub fn duplicate(&self) -> (r: Self)
        ensures
            r@ == self@,
    {
        Tile {
            id: self.id,
            name: self.name.clone(),
            url: self.url.clone(),
            click_url: self.click_url.clone(),
            image_url: self.image_url.clone(),
            image_size: self.image_size,
            impression_url: self.impression_url.clone(),
        }
    }
}

/// The sanitized form of an upstream tile: the advertiser URL becomes the
/// target `url`, and no image size is attached yet.
pub open spec fn spec_sanitized(t: AdmTileView) -> TileView {
    TileView {
        id: t.id,
        name: t.name,
        url: t.advertiser_url,
        click_url: t.click_url,
        image_url: t.image_url,
        image_size: None,
        impression_url: t.impression_url,
    }
}

impl Tile {
    /// The base client tile for an upstream tile; the image size is still to
    /// be determined by the image store.
    pub fn from_adm_tile(tile: AdmTile) -> (r: Self)
        ensures
            r@ == spec_sanitized(tile@),
    {
        Tile {
            id: tile.id,
            name: tile.name,
            url: tile.advertiser_url,
            click_url: tile.click_url,
            image_url: tile.image_url,
            image_size: None,
            impression_url: tile.impression_url,
        }
    }
}

/// The response payload sent to the client.
#[derive(Debug)]
pub struct TileResponse {
    pub tiles: Vec<Tile>,
}

/// The `dma-code` query value for a DMA: empty when the DMA is excluded or
/// zero, its decimal rendering otherwise.
pub open spec fn spec_filtered_dma(exclude: Option<Seq<u16>>, dma: u16) -> Seq<char> {
    if (exclude matches Some(xs) && xs.contains(dma)) || dma == 0 {
        Seq::empty()
    } else {
        dec_str(dma as nat)
    }
}

/// Renders a DMA code for the upstream query, blanking excluded codes and
/// the absent (zero) code.
pub fn filtered_dma(exclude: &Option<Vec<u16>>, dma: &u16) -> (r: String)
    ensures
        r@ == spec_filtered_dma(exclude.deep_view(), *dma),
{
    let excluded = match exclude {
        Some(xs) => {
            let mut i: usize = 0;
            let mut found = false;
            while i < xs.len()
                invariant
                    0 <= i <= xs.len(),
                    found == exists|j: int| 0 <= j < i && xs@[j] == *dma,
                decreases xs.len() - i,
            {
                if xs[i] == *dma {
                    found = true;
                }
                i += 1;
            }
            assert(xs.deep_view() =~= xs@);
            assert(found == xs@.contains(*dma));
            found
        },
        None => false,
    };
    if excluded || *dma == 0 {
        let r = String::new();
        assert(r@ =~= Seq::<char>::empty());
        r
    } else {
        u16_dec(*dma)
    }
}

/// What the transport layer reports for one upstream fetch, as plain values.
pub enum FetchOutcome {
    /// A 2xx answer whose body parsed as a tile list.
    Tiles(Vec<AdmTile>),
    /// A 2xx answer whose body did not parse; carries the parser's message.
    Unparseable(String),
    /// The request timed out.
    TimedOut,
    /// Any other transport failure or a non-2xx status.
    Failed,
}

/// The fetcher's error taxonomy over a transport outcome: a timeout inside
/// the cold-start window is the soft `AdmLoadError`, any other timeout or
/// failure is `AdmServerError`, and an unparseable body is `BadAdmResponse`
/// with the parser's message. In `TestTimeout` mode every fetch is a
/// cold-start timeout.
pub open spec fn spec_classify_fetch(
    outcome: FetchOutcomeView,
    elapsed_secs: u64,
    adm_timeout: u64,
    test_mode: TestModes,
) -> Result<Seq<AdmTileView>, crate::error::ErrorView> {
    if test_mode == TestModes::TestTimeout {
        Err(crate::error::ErrorView::AdmLoadError)
    } else {
        match outcome {
            FetchOutcomeView::Tiles(ts) => Ok(ts),
            FetchOutcomeView::Unparseable(msg) => Err(crate::error::ErrorView::BadAdmResponse(msg)),
            FetchOutcomeView::TimedOut => if elapsed_secs <= adm_timeout {
                Err(crate::error::ErrorView::AdmLoadError)
            } else {
                Err(crate::error::ErrorView::AdmServerError)
            },
            FetchOutcomeView::Failed => Err(crate::error::ErrorView::AdmServerError),
        }
    }
}

/// The mathematical shape of a `FetchOutcome`.
pub enum FetchOutcomeView {
    Tiles(Seq<AdmTileView>),
    Unparseable(Seq<char>),
    TimedOut,
    Failed,
}

impl View for FetchOutcome {
    type V = FetchOutcomeView;

    open spec fn view(&self) -> FetchOutcomeView {
        match self {
            FetchOutcome::Tiles(ts) => FetchOutcomeView::Tiles(ts.deep_view()),
            FetchOutcome::Unparseable(s) => FetchOutcomeView::Unparseable(s@),
            FetchOutcome::TimedOut => FetchOutcomeView::TimedOut,
            FetchOutcome::Failed => FetchOutcomeView::Failed,
        }
    }
}

/// Turns a transport outcome into the fetcher's result: the tile list on
/// success, the classified error otherwise. `elapsed_secs` is the time since
/// process start when the outcome was observed.
pub fn classify_fetch(
    outcome: FetchOutcome,
    elapsed_secs: u64,
    adm_timeout: u64,
    test_mode: TestModes,
) -> (r: Result<Vec<AdmTile>, HandlerErrorKind>)
    ensures
        r is Ok ==> spec_classify_fetch(outcome@, elapsed_secs, adm_timeout, test_mode) is Ok
            && r->Ok_0.deep_view() == spec_classify_fetch(
            outcome@,
            elapsed_secs,
            adm_timeout,
            test_mode,
        )->Ok_0,
        r is Err ==> spec_classify_fetch(outcome@, elapsed_secs, adm_timeout, test_mode) is Err
            && r->Err_0@ == spec_classify_fetch(
            outcome@,
            elapsed_secs,
            adm_timeout,
            test_mode,
        )->Err_0,
{
    if test_mode == TestModes::TestTimeout {
        return Err(HandlerErrorKind::AdmLoadError);
    }
    match outcome {
        FetchOutcome::Tiles(ts) => Ok(ts),
        FetchOutcome::Unparseable(msg) => Err(HandlerErrorKind::BadAdmResponse(msg)),
        FetchOutcome::TimedOut => if elapsed_secs <= adm_timeout {
            Err(HandlerErrorKind::AdmLoadError)
        } else {
            Err(HandlerErrorKind::AdmServerError)
        },
        FetchOutcome::Failed => Err(HandlerErrorKind::AdmServerError),
    }
}

/// The query pairs of one upstream fetch, in wire order: partner
/// credentials, the audience fields (with the configured fallback country,
/// an empty region for none, and excluded or absent DMAs blanked), the
/// protocol constants, and the configured tile count.
pub open spec fn spec_upstream_query(s: SettingsView, l: crate::extractors::LocationView, d: DeviceInfo) -> Seq<
    (Seq<char>, Seq<char>),
> {
    seq![
        ("partner"@, s.partner_id),
        ("sub1"@, s.sub1),
        ("sub2"@, "newtab"@),
        (
            "country-code"@,
            match l.country {
                Some(c) => c,
                None => s.fallback_country,
            },
        ),
        (
            "region-code"@,
            match l.region {
                Some(r) => r,
                None => Seq::<char>::empty(),
            },
        ),
        (
            "dma-code"@,
            spec_filtered_dma(
                s.excluded_dmas,
                match l.dma {
                    Some(dm) => dm,
                    None => 0u16,
                },
            ),
        ),
        ("form-factor"@, d.form_factor.label_spec()),
        ("os-family"@, d.os_family.label_spec()),
        ("v"@, "1.0"@),
        ("out"@, "json"@),
        ("results"@, dec_str(s.adm_query_tile_count as nat)),
    ]
}

/// Builds the query pairs of one upstream fetch.
pub fn upstream_query(settings: &Settings, location: &Location, device: &DeviceInfo) -> (r: Vec<
    (String, String),
>)
    ensures
        pairs_view(r@) == spec_upstream_query(settings@, location@, *device),
{
    let mut r: Vec<(String, String)> = Vec::new();
    r.push(("partner".to_owned(), settings.partner_id.clone()));
    r.push(("sub1".to_owned(), settings.sub1.clone()));
    r.push(("sub2".to_owned(), "newtab".to_owned()));
    let country = match &location.country {
        Some(c) => c.clone(),
        None => settings.fallback_country.clone(),
    };
    r.push(("country-code".to_owned(), country));
    r.push(("region-code".to_owned(), location.region()));
    r.push(("dma-code".to_owned(), filtered_dma(&settings.excluded_dmas, &location.dma())));
    r.push(("form-factor".to_owned(), device.form_factor.label()));
    r.push(("os-family".to_owned(), device.os_family.label()));
    r.push(("v".to_owned(), "1.0".to_owned()));
    r.push(("out".to_owned(), "json".to_owned()));
    r.push(("results".to_owned(), u32_dec(settings.adm_query_tile_count)));
    assert(pairs_view(r@) =~= spec_upstream_query(settings@, location@, *device));
    r
}

/// Builds the upstream URL for one fetch. It succeeds exactly when the
/// configured endpoint is a well-formed URL; a bad endpoint is an internal
/// error, as nothing the client sent can mend it.
pub fn build_adm_url(settings: &Settings, location: &Location, device: &DeviceInfo) -> (r: Result<
    String,
    HandlerErrorKind,
>)
    ensures
        r is Ok <==> crate::urls::url_ok(settings@.adm_endpoint),
        r is Ok ==> r->Ok_0@ == url_with_params_of(
            settings@.adm_endpoint,
            spec_upstream_query(settings@, location@, *device),
        ),
        r is Err ==> r->Err_0@ == crate::error::ErrorView::Internal("Invalid adm_endpoint"@),
{
    let params = upstream_query(settings, location, device);
    match url_with_params(settings.adm_endpoint.as_str(), &params) {
        Some(u) => Ok(u),
        None => Err(HandlerErrorKind::Internal("Invalid adm_endpoint".to_owned())),
    }
}

/// The characters of `s` that a canned-response name keeps: alphanumerics
/// and underscores.
pub open spec fn retained_name(s: Seq<char>) -> Seq<char>
    decreases s.len(),
{
    if s.len() == 0 {
        Seq::empty()
    } else {
        retained_name(s.drop_last()) + (if is_alnum(s.last()) || s.last() == '_' {
            seq![s.last()]
        } else {
            Seq::<char>::empty()
        })
    }
}

/// The file name a `fake-response` header names: the kept characters,
/// lowercased, with the `.json` extension. A name with nothing left to keep
/// is an internal error.
pub fn fake_response_filename(name: &str) -> (r: Result<String, HandlerErrorKind>)
    ensures
        r is Ok <==> retained_name(name@).len() > 0,
        r is Ok ==> r->Ok_0@ == lower_of(retained_name(name@)) + ".json"@,
        r is Err ==> r->Err_0@ == crate::error::ErrorView::Internal(
            "Invalid test response file specified"@,
        ),
{
    let chars = str_chars(name);
    let mut kept = String::new();
    let mut i: usize = 0;
    assert(name@.take(0) =~= Seq::<char>::empty());
    while i < chars.len()
        invariant
            0 <= i <= chars@.len(),
            chars@ == name@,
            kept@ == retained_name(name@.take(i as int)),
        decreases chars@.len() - i,
    {
        let c = chars[i];
        if c.is_alphanumeric() || c == '_' {
            kept.push(c);
        }
        proof {
            assert(name@.take(i as int + 1).drop_last() =~= name@.take(i as int));
            assert(name@.take(i as int + 1).last() == name@[i as int]);
            assert(kept@ =~= retained_name(name@.take(i as int + 1)));
        }
        i += 1;
    }
    assert(name@.take(name@.len() as int) =~= name@);
    if kept.as_str().is_empty() {
        return Err(HandlerErrorKind::Internal("Invalid test response file specified".to_owned()));
    }
    let mut out = lowercase(kept.as_str());
    out.append(".json");
    Ok(out)
}

/// What the image store reports for one stored image.
pub struct StoredImage {
    /// Where the stored copy can be fetched from.
    pub url: String,
    /// The stored image's width; by contract the height equals it.
    pub width: u32,
}

/// The decorated tile for an image-store outcome: on success the image URL
/// is rewritten and the size stamped; on failure the tile is dropped.
pub open spec fn spec_decorated(t: TileView, stored: Option<(Seq<char>, u32)>) -> Option<TileView> {
    match stored {
        Some((u, w)) => Some(
            TileView {
                image_url: u,
                image_size: Some(w),
                ..t
            },
        ),
        None => None,
    }
}

/// Applies an image-store outcome to one tile: rewrites the image URL and
/// stamps the size on success, drops the tile on failure.
pub fn decorate_tile(tile: Tile, stored: Option<StoredImage>) -> (r: Option<Tile>)
    ensures
        match stored {
            Some(s) => r is Some && r->0@ == spec_decorated(tile@, Some((s.url@, s.width)))->0,
            None => r is None,
        },
{
    match stored {
        Some(s) => {
            let mut t = tile;
            t.image_url = s.url;
            t.image_size = Some(s.width);
            Some(t)
        },
        None => None,
    }
}

} // verus!
