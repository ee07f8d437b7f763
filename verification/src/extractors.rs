//! Request-side data: the client's query parameters, the device classes the
//! user-agent parser produces, and the geolocation fields, all as plain
//! values.

use vstd::prelude::*;

verus! {

use crate::error::HandlerErrorKind;
use crate::text::lower_of;
use crate::text::lowercase;
use crate::text::str_eq;
use crate::text::upper_of;
use crate::text::uppercase;

/// The device's form factor, as the user-agent parser reports it.
#[derive(Clone, Copy, PartialEq, Eq, Structural, Debug, Hash)]
pub enum FormFactor {
    Desktop,
    Phone,
    Tablet,
    Other,
}

impl FormFactor {
    /// The name used in query parameters and telemetry.
    pub open spec fn label_spec(self) -> Seq<char> {
        match self {
            FormFactor::Desktop => "desktop"@,
            FormFactor::Phone => "phone"@,
            FormFactor::Tablet => "tablet"@,
            FormFactor::Other => "other"@,
        }
    }

    /// The name used in query parameters and telemetry.
    pub fn label(&self) -> (r: String)
        ensures
            r@ == self.label_spec(),
    {
        match self {
            FormFactor::Desktop => "desktop".to_owned(),
            FormFactor::Phone => "phone".to_owned(),
            FormFactor::Tablet => "tablet".to_owned(),
            FormFactor::Other => "other".to_owned(),
        }
    }
}

/// The device's operating-system family, as the user-agent parser reports
/// it.
#[derive(Clone, Copy, PartialEq, Eq, Structural, Debug, Hash)]
pub enum OsFamily {
    Windows,
    MacOs,
    Linux,
    IOs,
    Android,
    ChromeOs,
    BlackBerry,
    Other,
}

impl OsFamily {
    /// The name used in query parameters and telemetry.
    pub open spec fn label_spec(self) -> Seq<char> {
        match self {
            OsFamily::Windows => "windows"@,
            OsFamily::MacOs => "macos"@,
            OsFamily::Linux => "linux"@,
            OsFamily::IOs => "ios"@,
            OsFamily::Android => "android"@,
            OsFamily::ChromeOs => "chromeos"@,
            OsFamily::BlackBerry => "blackberry"@,
            OsFamily::Other => "other"@,
        }
    }

    /// The name used in query parameters and telemetry.
    pub fn label(&self) -> (r: String)
        ensures
            r@ == self.label_spec(),
    {
        match self {
            OsFamily::Windows => "windows".to_owned(),
            OsFamily::MacOs => "macos".to_owned(),
            OsFamily::Linux => "linux".to_owned(),
            OsFamily::IOs => "ios".to_owned(),
            OsFamily::Android => "android".to_owned(),
            OsFamily::ChromeOs => "chromeos".to_owned(),
            OsFamily::BlackBerry => "blackberry".to_owned(),
            OsFamily::Other => "other".to_owned(),
        }
    }
}

/// What the user-agent parser reports of the client's device.
#[derive(Clone, Copy, PartialEq, Eq, Structural, Debug)]
pub struct DeviceInfo {
    pub form_factor: FormFactor,
    pub os_family: OsFamily,
    /// Whether the client only understands the legacy tile shape.
    pub legacy_client: bool,
}

impl DeviceInfo {
    /// Whether the device is a phone or a tablet.
    pub fn is_mobile(&self) -> (r: bool)
        ensures
            r == (self.form_factor == FormFactor::Phone || self.form_factor == FormFactor::Tablet),
    {
        match self.form_factor {
            FormFactor::Phone => true,
            FormFactor::Tablet => true,
            _ => false,
        }
    }

    /// Whether the client only understands the legacy tile shape.
    pub fn legacy_only(&self) -> (r: bool)
        ensures
            r == self.legacy_client,
    {
        self.legacy_client
    }
}

/// What geolocation reports of the client, as plain values.
#[derive(Debug)]
pub struct Location {
    pub country: Option<String>,
    pub region: Option<String>,
    pub dma: Option<u16>,
}

/// The mathematical shape of a `Location`.
pub struct LocationView {
    pub country: Option<Seq<char>>,
    pub region: Option<Seq<char>>,
    pub dma: Option<u16>,
}

impl View for Location {
    type V = LocationView;

    open spec fn view(&self) -> LocationView {
        LocationView {
            country: self.country.deep_view(),
            region: self.region.deep_view(),
            dma: self.dma,
        }
    }
}

impl Location {
    /// The country, or the empty string where none was derived.
    pub fn country(&self) -> (r: String)
        ensures
            r@ == match self@.country {
                Some(c) => c,
                None => Seq::<char>::empty(),
            },
    {
        match &self.country {
            Some(c) => c.clone(),
            None => {
                let r = String::new();
                assert(r@ =~= Seq::<char>::empty());
                r
            },
        }
    }

    /// The region, or the empty string where none was derived.
    pub fn region(&self) -> (r: String)
        ensures
            r@ == match self@.region {
                Some(c) => c,
                None => Seq::<char>::empty(),
            },
    {
        match &self.region {
            Some(c) => c.clone(),
            None => {
                let r = String::new();
                assert(r@ =~= Seq::<char>::empty());
                r
            },
        }
    }

    /// The DMA code, or zero where none was derived.
    pub fn dma(&self) -> (r: u16)
        ensures
            r == match self@.dma {
                Some(d) => d,
                None => 0u16,
            },
    {
        match self.dma {
            Some(d) => d,
            None => 0,
        }
    }
}

/// The query parameters of a tiles request, as extracted by the front door.
#[derive(Debug)]
pub struct TilesParams {
    pub country: String,
    pub placement: String,
}

/// A normalized tiles request: country uppercased, placement lowercased and
/// checked.
#[derive(Debug)]
pub struct TilesRequest {
    pub country: String,
    pub placement: String,
    pub ua: String,
}

/// The placements the service knows.
pub open spec fn spec_valid_placement(p: Seq<char>) -> bool {
    p == "urlbar"@ || p == "newtab"@ || p == "search"@
}

/// Whether `placement` names a placement the service knows.
pub fn validate_placement(placement: &str) -> (r: bool)
    ensures
        r == spec_valid_placement(placement@),
{
    str_eq(placement, "urlbar") || str_eq(placement, "newtab") || str_eq(placement, "search")
}

impl TilesRequest {
    /// Normalizes the client's parameters: the placement is lowercased and
    /// must name a known placement, the country is uppercased. A bad
    /// placement is a validation error.
    pub fn from_params(params: &TilesParams, ua: &String) -> (r: Result<TilesRequest, HandlerErrorKind>)
        ensures
            r is Ok <==> spec_valid_placement(lower_of(params.placement@)),
            r is Ok ==> ({
                let t = r->Ok_0;
                &&& t.country@ == upper_of(params.country@)
                &&& t.placement@ == lower_of(params.placement@)
                &&& t.ua@ == ua@
            }),
            r is Err ==> r->Err_0@ == crate::error::ErrorView::Validation(
                "Invalid placement parameter"@,
            ),
    {
        let placement = lowercase(params.placement.as_str());
        if !validate_placement(placement.as_str()) {
            return Err(HandlerErrorKind::Validation("Invalid placement parameter".to_owned()));
        }
        Ok(TilesRequest { country: uppercase(params.country.as_str()), placement, ua: ua.clone() })
    }
}

} // verus!
