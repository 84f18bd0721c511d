//! The decisions of location resolution: which endpoint to ask, what query to
//! send, and how the providers' answers become one `Location`.

use vstd::prelude::*;

use crate::location::model::{
    or_not_defined, unwrap_or_not_defined, Coordinates, Location, NOT_DEFINED, ZERO_COORDINATE,
};
use crate::text::{join_with, lemma_join_split, lemma_split_on_nonempty, split_on, trim, trimmed};

verus! {

/// Number of network-address location providers.
pub const PROVIDER_COUNT: usize = 4;

/// Forward-geocoding endpoint for free-text place queries.
pub const URL_QUERY_LOCATION: &'static str = "https://api.openweathermap.org/geo/1.0/direct";

/// Index of a network-address location provider.
pub type LocationProvider = i8;

/// Why a location could not be resolved.
#[derive(Clone, Debug)]
pub enum LocationClientError {
    /// The transport or the decoding of an answer failed; the text says how.
    Client(String),
    /// The provider index is outside the provider table.
    WrongLocationProvider,
    /// The place query is too short to send.
    WrongQueryParam,
    /// The place query matched several places: their number and a listing.
    MoreThanOne(usize, String),
}

/// Endpoint of provider `k`.
pub open spec fn provider_url_spec(k: int) -> Seq<char> {
    if k == 0 {
        "http://ip-api.com/json/"@
    } else if k == 1 {
        "https://ipapi.co/json/"@
    } else if k == 2 {
        "https://freegeoip.app/json/"@
    } else {
        "https://ipwhois.app/json/"@
    }
}

/// Endpoint of provider `k`.
pub fn provider_url(k: usize) -> (r: &'static str)
    requires
        k < PROVIDER_COUNT,
    ensures
        r@ == provider_url_spec(k as int),
{
    match k {
        0 => "http://ip-api.com/json/",
        1 => "https://ipapi.co/json/",
        2 => "https://freegeoip.app/json/",
        _ => "https://ipwhois.app/json/",
    }
}

/// The provider index that is asked for: the first one when none is given.
pub open spec fn chosen_provider(provider: Option<LocationProvider>) -> int {
    match provider {
        Some(p) => p as int,
        None => 0,
    }
}

/// The one endpoint to ask for the caller's location, or
/// `WrongLocationProvider` when the index is outside the provider table.
pub fn endpoint_for(provider: Option<LocationProvider>) -> (r: Result<
    &'static str,
    LocationClientError,
>)
    ensures
        r is Err <==> (chosen_provider(provider) < 0 || chosen_provider(provider)
            >= PROVIDER_COUNT),
        r is Err ==> r matches Err(LocationClientError::WrongLocationProvider),
        r is Ok ==> r->Ok_0@ == provider_url_spec(chosen_provider(provider)),
{
    let p: i8 = match provider {
        Some(p) => p,
        None => 0,
    };
    if p < 0 || p as usize >= PROVIDER_COUNT {
        return Err(LocationClientError::WrongLocationProvider);
    }
    Ok(provider_url(p as usize))
}

/// A free-text place query: a city name, then optionally a state code and a
/// country code, written joined by commas.
#[derive(Clone, Debug)]
pub struct LocationQuery {
    pub city_name: String,
    pub state_code: Option<String>,
    pub country_code: Option<String>,
}

/// The city, state and country parts of the comma-joined text `s`: the first
/// three pieces between commas, the last two when present.
pub open spec fn parse_query_spec(s: Seq<char>) -> (Seq<char>, Option<Seq<char>>, Option<Seq<char>>) {
    let parts = split_on(s, ',');
    (
        parts[0],
        if parts.len() > 1 {
            Some(parts[1])
        } else {
            None
        },
        if parts.len() > 2 {
            Some(parts[2])
        } else {
            None
        },
    )
}

/// The comma-joined text of a query's parts, absent parts left out.
pub open spec fn query_text_spec(
    city: Seq<char>,
    state: Option<Seq<char>>,
    country: Option<Seq<char>>,
) -> Seq<char> {
    let with_state = match state {
        Some(s) => city.push(',') + s,
        None => city,
    };
    match country {
        Some(c) => with_state.push(',') + c,
        None => with_state,
    }
}

/// The parts of a query as text.
pub open spec fn query_parts(q: LocationQuery) -> (Seq<char>, Option<Seq<char>>, Option<Seq<char>>) {
    (q.city_name@, q.state_code.deep_view(), q.country_code.deep_view())
}

/// Parsing comma-joined text with at most two commas into a query and writing
/// the query back gives the text back.
pub proof fn lemma_query_round_trip(s: Seq<char>)
    requires
        split_on(s, ',').len() <= 3,
    ensures
        ({
            let (city, state, country) = parse_query_spec(s);
            query_text_spec(city, state, country) == s
        }),
{
    let parts = split_on(s, ',');
    lemma_split_on_nonempty(s, ',');
    lemma_join_split(s, ',');
    if parts.len() == 2 {
        assert(parts.drop_last().len() == 1);
        assert(join_with(parts, ',') == join_with(parts.drop_last(), ',').push(',') + parts[1]);
    } else if parts.len() == 3 {
        let two = parts.drop_last();
        assert(two.drop_last().len() == 1);
        assert(join_with(two, ',') == join_with(two.drop_last(), ',').push(',') + two[1]);
        assert(join_with(parts, ',') == join_with(two, ',').push(',') + parts[2]);
    }
}

/// Splits `s` at every comma, as `str::split` does.
fn split_commas(s: &str) -> (r: Vec<&str>)
    ensures
        r@.len() == split_on(s@, ',').len(),
        forall|k: int| 0 <= k < r@.len() ==> #[trigger] r@[k]@ == split_on(s@, ',')[k],
{
    let n = s.unicode_len();
    let mut pieces: Vec<&str> = Vec::new();
    let mut start: usize = 0;
    let mut i: usize = 0;
    proof {
        assert(s@.subrange(0, 0) =~= Seq::<char>::empty());
    }
    while i < n
        invariant
            n == s@.len(),
            start <= i <= n,
            split_on(s@.subrange(0, i as int), ',').len() == pieces@.len() + 1,
            split_on(s@.subrange(0, i as int), ',').last() == s@.subrange(start as int, i as int),
            forall|k: int|
                0 <= k < pieces@.len() ==> #[trigger] pieces@[k]@ == split_on(
                    s@.subrange(0, i as int),
                    ',',
                )[k],
        decreases n - i,
    {
        let ghost prev = split_on(s@.subrange(0, i as int), ',');
        let ghost next_s = s@.subrange(0, i + 1);
        assert(next_s.drop_last() =~= s@.subrange(0, i as int));
        assert(next_s.last() == s@[i as int]);
        let c = s.get_char(i);
        if c == ',' {
            let piece = s.substring_char(start, i);
            let ghost old_pieces = pieces@;
            pieces.push(piece);
            proof {
                let next = split_on(next_s, ',');
                assert(next == prev.push(Seq::<char>::empty()));
                assert forall|k: int| 0 <= k < pieces@.len() implies #[trigger] pieces@[k]@
                    == next[k] by {
                    if k < old_pieces.len() {
                        assert(pieces@[k] == old_pieces[k]);
                    }
                }
                assert(s@.subrange(i + 1, i + 1) =~= Seq::<char>::empty());
            }
            start = i + 1;
        } else {
            proof {
                let next = split_on(next_s, ',');
                assert(next == prev.update(prev.len() - 1, prev.last().push(c)));
                assert(s@.subrange(start as int, i + 1) =~= prev.last().push(c));
                assert forall|k: int| 0 <= k < pieces@.len() implies #[trigger] pieces@[k]@
                    == next[k] by {
                    assert(next[k] == prev[k]);
                }
            }
        }
        i = i + 1;
    }
    let piece = s.substring_char(start, n);
    let ghost old_pieces = pieces@;
    pieces.push(piece);
    proof {
        assert(s@.subrange(0, n as int) =~= s@);
        assert forall|k: int| 0 <= k < pieces@.len() implies #[trigger] pieces@[k]@ == split_on(
            s@,
            ',',
        )[k] by {
            if k < old_pieces.len() {
                assert(pieces@[k] == old_pieces[k]);
            }
        }
    }
    pieces
}

impl LocationQuery {
    /// Reads a query from comma-joined text: the first piece is the city name,
    /// the second the state code, the third the country code; further pieces
    /// are not read.
    pub fn from(query: String) -> (r: LocationQuery)
        ensures
            query_parts(r) == parse_query_spec(query@),
    {
        let pieces = split_commas(query.as_str());
        proof {
            lemma_split_on_nonempty(query@, ',');
        }
        let city_name = String::from_str(pieces[0]);
        let state_code = if pieces.len() > 1 {
            Some(String::from_str(pieces[1]))
        } else {
            None
        };
        let country_code = if pieces.len() > 2 {
            Some(String::from_str(pieces[2]))
        } else {
            None
        };
        LocationQuery { city_name, state_code, country_code }
    }

    /// The query as comma-joined text, absent parts left out.
    pub fn to_string(&self) -> (r: String)
        ensures
            r@ == query_text_spec(
                self.city_name@,
                self.state_code.deep_view(),
                self.country_code.deep_view(),
            ),
    {
        let mut text = self.city_name.clone();
        match &self.state_code {
            Some(s) => {
                text = text.concat(",");
                text = text.concat(s.as_str());
            },
            None => {},
        }
        match &self.country_code {
            Some(c) => {
                text = text.concat(",");
                text = text.concat(c.as_str());
            },
            None => {},
        }
        proof {
            reveal_strlit(",");
        }
        text
    }
}

/// Least number of characters, whitespace around it not counted, of a city
/// name that is sent.
pub const MIN_CITY_NAME_LEN: usize = 2;

/// Most places a forward-geocode answer lists.
pub const QUERY_LIMIT: &'static str = "5";

/// The forward-geocode request for a query's text, with API key `appid`.
pub open spec fn query_url_spec(query: Seq<char>, appid: Seq<char>) -> Seq<char> {
    URL_QUERY_LOCATION@ + "?q="@ + query + "&limit="@ + QUERY_LIMIT@ + "&appid="@ + appid
}

/// The forward-geocode request for `query`, or `WrongQueryParam` when its
/// city name has fewer than two characters once whitespace around it is
/// left out.
pub fn query_url(query: &LocationQuery, appid: &str) -> (r: Result<String, LocationClientError>)
    ensures
        r is Err <==> trimmed(query.city_name@).len() < MIN_CITY_NAME_LEN,
        r is Err ==> r matches Err(LocationClientError::WrongQueryParam),
        r is Ok ==> r->Ok_0@ == query_url_spec(
            query_text_spec(
                query.city_name@,
                query.state_code.deep_view(),
                query.country_code.deep_view(),
            ),
            appid@,
        ),
{
    if trim(query.city_name.as_str()).unicode_len() < MIN_CITY_NAME_LEN {
        return Err(LocationClientError::WrongQueryParam);
    }
    let text = query.to_string();
    let url = String::from_str(URL_QUERY_LOCATION).concat("?q=").concat(text.as_str()).concat(
        "&limit=",
    ).concat(QUERY_LIMIT).concat("&appid=").concat(appid);
    Ok(url)
}

/// A network-address provider's answer. Providers name the country by code,
/// by full name, or both.
#[derive(Clone, Debug)]
pub struct LocationResponse {
    pub city: Option<String>,
    pub country: Option<String>,
    pub country_name: Option<String>,
    pub latitude: String,
    pub longitude: String,
}

impl LocationResponse {
    /// The location it reports: the full country name when given, else the
    /// country code, else the stand-in; the stand-in for a missing city.
    pub fn into_location(self) -> (r: Location)
        ensures
            r@ == (
                or_not_defined(self.city.deep_view()),
                match self.country_name.deep_view() {
                    Some(n) => n,
                    None => or_not_defined(self.country.deep_view()),
                },
                self.latitude@,
                self.longitude@,
            ),
    {
        let country = match self.country_name {
            Some(n) => n,
            None => unwrap_or_not_defined(self.country),
        };
        Location {
            city: unwrap_or_not_defined(self.city),
            country,
            coordinates: Coordinates::new(self.latitude, self.longitude),
        }
    }
}

/// One place that a forward-geocode answer lists.
#[derive(Clone, Debug)]
pub struct LocationQueryResponse {
    pub name: String,
    pub state: Option<String>,
    pub country: Option<String>,
    pub lat: String,
    pub lon: String,
}

impl Default for LocationQueryResponse {
    /// The place assumed when an answer lists none: the stand-in name and
    /// zero coordinates.
    fn default() -> (r: Self)
        ensures
            r.name@ == NOT_DEFINED@,
            r.state is None,
            r.country is None,
            r.lat@ == ZERO_COORDINATE@,
            r.lon@ == ZERO_COORDINATE@,
    {
        LocationQueryResponse {
            name: String::from_str(NOT_DEFINED),
            state: None,
            country: None,
            lat: String::from_str(ZERO_COORDINATE),
            lon: String::from_str(ZERO_COORDINATE),
        }
    }
}

/// A labelled line for a value that is present, nothing for one that is not.
pub open spec fn optional_line(label: Seq<char>, v: Option<Seq<char>>) -> Seq<char> {
    match v {
        Some(x) => label + x + "\n"@,
        None => Seq::<char>::empty(),
    }
}

/// The block of lines that shows one listed place: its name, its state and
/// country codes when present, and its two coordinates.
pub open spec fn candidate_block(r: LocationQueryResponse) -> Seq<char> {
    "City: "@ + r.name@ + "\n"@ + optional_line("State code: "@, r.state.deep_view())
        + optional_line("Country code: "@, r.country.deep_view()) + "Coordinates:\n"@
        + "  Latitude: "@ + r.lat@ + "\n"@ + "  Longitude: "@ + r.lon@
}

/// The places, each block preceded and followed by a line break, so that
/// blocks are parted by a blank line.
pub open spec fn listing_spec(rs: Seq<LocationQueryResponse>) -> Seq<char>
    decreases rs.len(),
{
    if rs.len() == 0 {
        Seq::<char>::empty()
    } else {
        listing_spec(rs.drop_last()) + "\n"@ + candidate_block(rs.last()) + "\n"@
    }
}

/// The location of one listed place: the stand-in when it has no country code.
pub open spec fn query_location_spec(r: LocationQueryResponse) -> (
    Seq<char>,
    Seq<char>,
    Seq<char>,
    Seq<char>,
) {
    (r.name@, or_not_defined(r.country.deep_view()), r.lat@, r.lon@)
}

fn append_optional_line(text: String, label: &str, v: &Option<String>) -> (r: String)
    ensures
        r@ == text@ + optional_line(label@, v.deep_view()),
{
    match v {
        Some(x) => {
            let r = text.concat(label).concat(x.as_str()).concat("\n");
            assert(r@ =~= text@ + optional_line(label@, v.deep_view()));
            r
        },
        None => {
            assert(text@ + Seq::<char>::empty() =~= text@);
            text
        },
    }
}

impl LocationQueryResponse {
    /// The block of lines that shows the place.
    pub fn to_string(&self) -> (r: String)
        ensures
            r@ == candidate_block(*self),
    {
        let text = String::from_str("City: ").concat(self.name.as_str()).concat("\n");
        let text = append_optional_line(text, "State code: ", &self.state);
        let text = append_optional_line(text, "Country code: ", &self.country);
        let text = text.concat("Coordinates:\n").concat("  Latitude: ").concat(
            self.lat.as_str(),
        ).concat("\n").concat("  Longitude: ").concat(self.lon.as_str());
        text
    }

    /// The location of the place.
    pub fn into_location(self) -> (r: Location)
        ensures
            r@ == query_location_spec(self),
    {
        Location {
            city: self.name,
            country: unwrap_or_not_defined(self.country),
            coordinates: Coordinates::new(self.lat, self.lon),
        }
    }
}

/// All places that a forward-geocode answer lists, in its order.
#[derive(Clone, Debug)]
pub struct LocationQueryResponses {
    vec: Vec<LocationQueryResponse>,
}

impl View for LocationQueryResponses {
    type V = Seq<LocationQueryResponse>;

    closed spec fn view(&self) -> Seq<LocationQueryResponse> {
        self.vec@
    }
}

impl LocationQueryResponses {
    pub fn new(vec: Vec<LocationQueryResponse>) -> (r: Self)
        ensures
            r@ == vec@,
    {
        LocationQueryResponses { vec }
    }

    /// Number of places listed.
    pub fn len(&self) -> (r: usize)
        ensures
            r == self@.len(),
    {
        self.vec.len()
    }

    /// The listing of all places, for a person to choose from.
    pub fn to_string(&self) -> (r: String)
        ensures
            r@ == listing_spec(self@),
    {
        let mut text = String::new();
        let mut i: usize = 0;
        proof {
            assert(self.vec@.subrange(0, 0) =~= Seq::<LocationQueryResponse>::empty());
        }
        while i < self.vec.len()
            invariant
                i <= self.vec@.len(),
                text@ == listing_spec(self.vec@.subrange(0, i as int)),
            decreases self.vec@.len() - i,
        {
            let block = self.vec[i].to_string();
            proof {
                let next = self.vec@.subrange(0, i + 1);
                assert(next.drop_last() =~= self.vec@.subrange(0, i as int));
                assert(next.last() == self.vec@[i as int]);
            }
            text = text.concat("\n").concat(block.as_str()).concat("\n");
            i = i + 1;
        }
        proof {
            assert(self.vec@.subrange(0, i as int) =~= self.vec@);
        }
        text
    }

    /// The one location the answer gives: the assumed place when it lists
    /// none, the listed place when it lists one, and `MoreThanOne` with the
    /// number of places and their listing when it lists several. No place is
    /// ever picked from several.
    pub fn resolve(self) -> (r: Result<Location, LocationClientError>)
        ensures
            self@.len() == 0 ==> r is Ok && r->Ok_0@ == (
                NOT_DEFINED@,
                NOT_DEFINED@,
                ZERO_COORDINATE@,
                ZERO_COORDINATE@,
            ),
            self@.len() == 1 ==> r is Ok && r->Ok_0@ == query_location_spec(self@[0]),
            self@.len() >= 2 ==> match r {
                Err(LocationClientError::MoreThanOne(n, listing)) => n == self@.len()
                    && listing@ == listing_spec(self@),
                _ => false,
            },
    {
        let n = self.vec.len();
        if n > 1 {
            let listing = self.to_string();
            return Err(LocationClientError::MoreThanOne(n, listing));
        }
        let mut vec = self.vec;
        match vec.pop() {
            Some(place) => Ok(place.into_location()),
            None => {
                let place = LocationQueryResponse::default();
                Ok(place.into_location())
            },
        }
    }
}

} // verus!
