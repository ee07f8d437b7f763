//! Process configuration and per-advertiser filter settings, as plain values.

use vstd::prelude::*;

verus! {

use crate::text::dup_strings;

/// The name of the fallback ruleset entry. Entry names are lowercased when a
/// ruleset is built, so lookups use the lowercased form of this name.
pub const DEFAULT: &'static str = "DEFAULT";

/// How the upstream fetcher behaves under test.
#[derive(Clone, Copy, PartialEq, Eq, Structural, Debug)]
pub enum TestModes {
    /// Ordinary operation.
    NoTest,
    /// Substitute a canned response file for the upstream call.
    TestFakeResponse,
    /// Fail every upstream call as a cold-start timeout.
    TestTimeout,
}

/// Per-advertiser filter settings: allowlists for the three tile URLs, an
/// optional tile position, and the regions the advertiser serves. An empty
/// host list means "inherit that list from the `DEFAULT` entry".
#[derive(Debug)]
pub struct AdmAdvertiserFilterSettings {
    /// Hosts accepted for the advertiser URL.
    pub advertiser_hosts: Vec<String>,
    /// Hosts accepted for the impression URL.
    pub impression_hosts: Vec<String>,
    /// Hosts accepted for the click URL.
    pub click_hosts: Vec<String>,
    /// The tile position, if the advertiser pins one.
    pub position: Option<u8>,
    /// Regions the advertiser's tiles may serve.
    pub include_regions: Vec<String>,
}

/// The mathematical shape of `AdmAdvertiserFilterSettings`.
pub struct EntryView {
    pub advertiser_hosts: Seq<Seq<char>>,
    pub impression_hosts: Seq<Seq<char>>,
    pub click_hosts: Seq<Seq<char>>,
    pub position: Option<u8>,
    pub include_regions: Seq<Seq<char>>,
}

impl View for AdmAdvertiserFilterSettings {
    type V = EntryView;

    open spec fn view(&self) -> EntryView {
        EntryView {
            advertiser_hosts: self.advertiser_hosts.deep_view(),
            impression_hosts: self.impression_hosts.deep_view(),
            click_hosts: self.click_hosts.deep_view(),
            position: self.position,
            include_regions: self.include_regions.deep_view(),
        }
    }
}

/// The entry with nothing set: every list empty, no position.
pub open spec fn empty_entry() -> EntryView {
    EntryView {
        advertiser_hosts: Seq::empty(),
        impression_hosts: Seq::empty(),
        click_hosts: Seq::empty(),
        position: None,
        include_regions: Seq::empty(),
    }
}

impl AdmAdvertiserFilterSettings {
    /// A value-equal copy.
    pub fn duplicate(&self) -> (r: Self)
        ensures
            r@ == self@,
            r.advertiser_hosts@ == self.advertiser_hosts@,
            r.impression_hosts@ == self.impression_hosts@,
            r.click_hosts@ == self.click_hosts@,
            r.position == self.position,
            r.include_regions@ == self.include_regions@,
    {
        let r = AdmAdvertiserFilterSettings {
            advertiser_hosts: dup_strings(&self.advertiser_hosts),
            impression_hosts: dup_strings(&self.impression_hosts),
            click_hosts: dup_strings(&self.click_hosts),
            position: self.position,
            include_regions: dup_strings(&self.include_regions),
        };
        r
    }
}

impl Default for AdmAdvertiserFilterSettings {
    /// The entry with nothing set.
    fn default() -> (r: Self)
        ensures
            r@ == empty_entry(),
            r.advertiser_hosts@.len() == 0,
            r.impression_hosts@.len() == 0,
            r.click_hosts@.len() == 0,
            r.position is None,
            r.include_regions@.len() == 0,
    {
        let r = AdmAdvertiserFilterSettings {
            advertiser_hosts: Vec::new(),
            impression_hosts: Vec::new(),
            click_hosts: Vec::new(),
            position: None,
            include_regions: Vec::new(),
        };
        assert(r@.advertiser_hosts =~= Seq::<Seq<char>>::empty());
        assert(r@.impression_hosts =~= Seq::<Seq<char>>::empty());
        assert(r@.click_hosts =~= Seq::<Seq<char>>::empty());
        assert(r@.include_regions =~= Seq::<Seq<char>>::empty());
        r
    }
}

/// Process configuration, limited to what the core reads.
#[derive(Debug)]
pub struct Settings {
    /// Upstream endpoint URL.
    pub adm_endpoint: String,
    /// Partner id sent as the `partner` query parameter.
    pub partner_id: String,
    /// Value sent as the `sub1` query parameter.
    pub sub1: String,
    /// Per-fetch deadline, in seconds; also the cold-start window.
    pub adm_timeout: u64,
    /// Value sent as the `results` query parameter.
    pub adm_query_tile_count: u32,
    /// Post-filter truncation bound.
    pub adm_max_tiles: u32,
    /// Base TTL of a cached response, in seconds.
    pub tiles_ttl: u32,
    /// TTL jitter bound, in percent; values over 50 count as 50.
    pub jitter: u32,
    /// Country used when the request carries none.
    pub fallback_country: String,
    /// DMA codes forced to absent.
    pub excluded_dmas: Option<Vec<u16>>,
    /// Whether region-excluded requests get 200 with an empty body
    /// instead of 204.
    pub excluded_countries_200: bool,
    /// Upstream test behaviour.
    pub test_mode: TestModes,
    /// Directory of canned response files for `TestFakeResponse`.
    pub test_file_path: String,
}

/// The mathematical shape of `Settings`.
pub struct SettingsView {
    pub adm_endpoint: Seq<char>,
    pub partner_id: Seq<char>,
    pub sub1: Seq<char>,
    pub adm_timeout: u64,
    pub adm_query_tile_count: u32,
    pub adm_max_tiles: u32,
    pub tiles_ttl: u32,
    pub jitter: u32,
    pub fallback_country: Seq<char>,
    pub excluded_dmas: Option<Seq<u16>>,
    pub excluded_countries_200: bool,
    pub test_mode: TestModes,
    pub test_file_path: Seq<char>,
}

impl View for Settings {
    type V = SettingsView;

    open spec fn view(&self) -> SettingsView {
        SettingsView {
            adm_endpoint: self.adm_endpoint@,
            partner_id: self.partner_id@,
            sub1: self.sub1@,
            adm_timeout: self.adm_timeout,
            adm_query_tile_count: self.adm_query_tile_count,
            adm_max_tiles: self.adm_max_tiles,
            tiles_ttl: self.tiles_ttl,
            jitter: self.jitter,
            fallback_country: self.fallback_country@,
            excluded_dmas: self.excluded_dmas.deep_view(),
            excluded_countries_200: self.excluded_countries_200,
            test_mode: self.test_mode,
            test_file_path: self.test_file_path@,
        }
    }
}

} // verus!
