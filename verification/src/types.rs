use vstd::prelude::*;
use vstd::string::StringSliceAdditionalSpecFns;
use vstd::string::StrSliceExecFns;

verus! {

/// A geographic point in units of 1e-5 degree, the resolution of the
/// encoded-polyline wire format. `latitude_e5 == 3850000` stands for
/// latitude 38.5.
///
/// Points decoded from a provider path are not bounds-checked; points used
/// as explicit search inputs are expected to satisfy `in_bounds`.
#[derive(Debug, Clone, Copy, PartialEq, Eq, Structural)]
pub struct LatLngE5 {
    pub latitude_e5: i64,
    pub longitude_e5: i64,
}

impl LatLngE5 {
    /// Whether the point lies in the valid coordinate range:
    /// latitude within +/-90 degrees, longitude within +/-180 degrees.
    pub open spec fn in_bounds(self) -> bool {
        -9000000 <= self.latitude_e5 <= 9000000 && -18000000 <= self.longitude_e5 <= 18000000
    }
}

/// The travel mode of a route request, as the directions provider names them.
#[derive(Debug, Clone, Copy, PartialEq, Eq, Structural)]
pub enum TravelMode {
    Drive,
    Walk,
    Bicycle,
    TwoWheeler,
    Transit,
}

/// The provider's wire name for a travel mode.
pub open spec fn travel_mode_api_str(m: TravelMode) -> Seq<char> {
    match m {
        TravelMode::Drive => "DRIVE"@,
        TravelMode::Walk => "WALK"@,
        TravelMode::Bicycle => "BICYCLE"@,
        TravelMode::TwoWheeler => "TWO_WHEELER"@,
        TravelMode::Transit => "TRANSIT"@,
    }
}

impl TravelMode {
    pub fn as_api_str(&self) -> (s: &'static str)
        ensures
            s@ == travel_mode_api_str(*self),
    {
        match self {
            TravelMode::Drive => "DRIVE",
            TravelMode::Walk => "WALK",
            TravelMode::Bicycle => "BICYCLE",
            TravelMode::TwoWheeler => "TWO_WHEELER",
            TravelMode::Transit => "TRANSIT",
        }
    }
}

/// Whether two string slices hold the same characters, decided by their
/// UTF-8 bytes: the encoding determines the characters and the other way
/// round.
pub(crate) fn str_eq(a: &str, b: &str) -> (r: bool)
    ensures
        r == (a@ == b@),
{
    proof {
        vstd::utf8::encode_utf8_decode_utf8(a@);
        vstd::utf8::encode_utf8_decode_utf8(b@);
    }
    let ab: Vec<u8> = a.as_bytes_vec();
    let bb: Vec<u8> = b.as_bytes_vec();
    if ab.len() != bb.len() {
        return false;
    }
    let mut i: usize = 0;
    while i < ab.len()
        invariant
            i <= ab@.len(),
            ab@.len() == bb@.len(),
            forall|q: int| 0 <= q < i ==> ab@[q] == bb@[q],
            ab@ == a.spec_bytes(),
            bb@ == b.spec_bytes(),
        decreases ab@.len() - i,
    {
        if ab[i] != bb[i] {
            return false;
        }
        i = i + 1;
    }
    proof {
        assert(ab@ =~= bb@);
    }
    true
}

/// The provider's wire name for a numeric price level, for levels 0 to 4.
pub open spec fn price_level_api_str(level: u8) -> Seq<char> {
    if level == 0 {
        "PRICE_LEVEL_FREE"@
    } else if level == 1 {
        "PRICE_LEVEL_INEXPENSIVE"@
    } else if level == 2 {
        "PRICE_LEVEL_MODERATE"@
    } else if level == 3 {
        "PRICE_LEVEL_EXPENSIVE"@
    } else if level == 4 {
        "PRICE_LEVEL_VERY_EXPENSIVE"@
    } else {
        Seq::empty()
    }
}

/// Maps a numeric price level to the provider's wire name; levels above 4
/// have none.
pub fn price_level_to_api(level: u8) -> (r: Option<&'static str>)
    ensures
        r is Some <==> level <= 4,
        r matches Some(s) ==> s@ == price_level_api_str(level),
{
    match level {
        0 => Some("PRICE_LEVEL_FREE"),
        1 => Some("PRICE_LEVEL_INEXPENSIVE"),
        2 => Some("PRICE_LEVEL_MODERATE"),
        3 => Some("PRICE_LEVEL_EXPENSIVE"),
        4 => Some("PRICE_LEVEL_VERY_EXPENSIVE"),
        _ => None,
    }
}

/// The display form of a price-level wire name; an unrecognised name is
/// displayed as itself.
pub open spec fn price_level_display_spec(level: Seq<char>) -> Seq<char> {
    if level == "PRICE_LEVEL_FREE"@ {
        "Free"@
    } else if level == "PRICE_LEVEL_INEXPENSIVE"@ {
        "$"@
    } else if level == "PRICE_LEVEL_MODERATE"@ {
        "$$"@
    } else if level == "PRICE_LEVEL_EXPENSIVE"@ {
        "$$$"@
    } else if level == "PRICE_LEVEL_VERY_EXPENSIVE"@ {
        "$$$$"@
    } else {
        level
    }
}

/// Maps a price-level wire name to its display form.
pub fn price_level_display<'a>(level: &'a str) -> (r: &'a str)
    ensures
        r@ == price_level_display_spec(level@),
{
    if str_eq(level, "PRICE_LEVEL_FREE") {
        "Free"
    } else if str_eq(level, "PRICE_LEVEL_INEXPENSIVE") {
        "$"
    } else if str_eq(level, "PRICE_LEVEL_MODERATE") {
        "$$"
    } else if str_eq(level, "PRICE_LEVEL_EXPENSIVE") {
        "$$$"
    } else if str_eq(level, "PRICE_LEVEL_VERY_EXPENSIVE") {
        "$$$$"
    } else {
        level
    }
}

// ─── Place data model ───────────────────────────────────────────────────────
// Plain mirrors of the provider's wire schema, as far as the verified crate
// carries them. Serialisation lives outside the library.

/// A localised display name.
#[derive(Debug, Clone)]
pub struct DisplayName {
    pub text: String,
    pub language_code: Option<String>,
}

/// A short editorial description of a place.
#[derive(Debug, Clone)]
pub struct EditorialSummary {
    pub text: Option<String>,
    pub language_code: Option<String>,
}

/// Opening-hours information for a place.
#[derive(Debug, Clone)]
pub struct OpeningHours {
    pub open_now: Option<bool>,
    pub weekday_descriptions: Option<Vec<String>>,
}

/// The author of a review or photo.
#[derive(Debug, Clone)]
pub struct AuthorAttribution {
    pub display_name: String,
    pub uri: Option<String>,
    pub photo_uri: Option<String>,
}

/// A localised piece of text.
#[derive(Debug, Clone)]
pub struct LocalizedText {
    pub text: String,
    pub language_code: Option<String>,
}

/// A reference to a place photo.
#[derive(Debug, Clone)]
pub struct Photo {
    pub name: String,
    pub width_px: Option<u32>,
    pub height_px: Option<u32>,
    pub author_attributions: Option<Vec<AuthorAttribution>>,
}

// ─── Autocomplete ───────────────────────────────────────────────────────────

/// The suggestions returned by an autocomplete query.
#[derive(Debug, Clone)]
pub struct AutocompleteResponse {
    pub suggestions: Vec<Suggestion>,
}

/// One autocomplete suggestion: a place or a query prediction.
#[derive(Debug, Clone)]
pub struct Suggestion {
    pub place_prediction: Option<PlacePrediction>,
    pub query_prediction: Option<QueryPrediction>,
}

/// A predicted place for a partial input.
#[derive(Debug, Clone)]
pub struct PlacePrediction {
    pub place: Option<String>,
    pub place_id: Option<String>,
    pub text: Option<FormattedText>,
    pub structured_format: Option<StructuredFormat>,
    pub types: Option<Vec<String>>,
}

/// A predicted query for a partial input.
#[derive(Debug, Clone)]
pub struct QueryPrediction {
    pub text: Option<FormattedText>,
    pub structured_format: Option<StructuredFormat>,
}

/// Text with the ranges that matched the input.
#[derive(Debug, Clone)]
pub struct FormattedText {
    pub text: String,
    pub matches: Option<Vec<TextMatch>>,
}

/// A matched range inside a formatted text.
#[derive(Debug, Clone)]
pub struct TextMatch {
    pub start_offset: Option<u32>,
    pub end_offset: Option<u32>,
}

/// A suggestion's main and secondary text.
#[derive(Debug, Clone)]
pub struct StructuredFormat {
    pub main_text: Option<FormattedText>,
    pub secondary_text: Option<FormattedText>,
}

// ─── Place details, photo media, location resolve ───────────────────────────

/// A request for the details of one place.
#[derive(Debug, Clone)]
pub struct DetailsRequest {
    pub place_id: String,
    pub include_reviews: bool,
    pub include_photos: bool,
    pub language: Option<String>,
    pub region: Option<String>,
}

/// A request for the media URI of a photo.
#[derive(Debug, Clone)]
pub struct PhotoMediaRequest {
    pub name: String,
    pub max_width: Option<u32>,
    pub max_height: Option<u32>,
}

/// The media URI of a photo.
#[derive(Debug, Clone)]
pub struct PhotoMediaResponse {
    pub name: String,
    pub photo_uri: String,
}

/// A request to resolve a free-text location to places.
#[derive(Debug, Clone)]
pub struct ResolveRequest {
    pub location: String,
    pub limit: Option<u32>,
    pub language: Option<String>,
    pub region: Option<String>,
}

} // verus!
