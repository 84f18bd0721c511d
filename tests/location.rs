use wethr::location::client::{
    endpoint_for, query_url, LocationClientError, LocationQuery, LocationQueryResponse,
    LocationQueryResponses, LocationResponse,
};
use wethr::location::model::{Coordinates, Location};

fn s(text: &str) -> String {
    text.to_string()
}

fn london(lat: &str, lon: &str, country: &str, state: Option<&str>) -> LocationQueryResponse {
    LocationQueryResponse {
        name: s("London"),
        state: state.map(s),
        country: Some(s(country)),
        lat: s(lat),
        lon: s(lon),
    }
}

fn five_londons() -> Vec<LocationQueryResponse> {
    vec![
        london("51.5085", "-0.1257", "GB", None),
        london("42.9834", "-81.233", "CA", None),
        london("39.8865", "-83.4483", "US", Some("OH")),
        london("37.129", "-84.0833", "US", Some("KY")),
        london("36.4761", "-119.4432", "US", Some("CA")),
    ]
}

const FIVE_LONDONS: &str = "
City: London
Country code: GB
Coordinates:
  Latitude: 51.5085
  Longitude: -0.1257

City: London
Country code: CA
Coordinates:
  Latitude: 42.9834
  Longitude: -81.233

City: London
State code: OH
Country code: US
Coordinates:
  Latitude: 39.8865
  Longitude: -83.4483

City: London
State code: KY
Country code: US
Coordinates:
  Latitude: 37.129
  Longitude: -84.0833

City: London
State code: CA
Country code: US
Coordinates:
  Latitude: 36.4761
  Longitude: -119.4432
";

#[test]
fn location_from_response() {
    let response = LocationResponse {
        city: Some(s("Monteiro")),
        country: None,
        country_name: Some(s("Brazil")),
        latitude: s("-7.9194"),
        longitude: s("-37.175"),
    };
    let location: Location = response.into_location();
    assert_eq!(location.city, "Monteiro");
    assert_eq!(location.country, "Brazil");
    assert_eq!(location.coordinates.latitude, "-7.9194");
    assert_eq!(location.coordinates.longitude, "-37.175");
}

#[test]
fn location_response_country_precedence() {
    let both = LocationResponse {
        city: Some(s("Monteiro")),
        country: Some(s("BR")),
        country_name: Some(s("Brazil")),
        latitude: s("1"),
        longitude: s("2"),
    };
    assert_eq!(both.into_location().country, "Brazil");
    let code_only = LocationResponse {
        city: Some(s("Monteiro")),
        country: Some(s("BR")),
        country_name: None,
        latitude: s("1"),
        longitude: s("2"),
    };
    assert_eq!(code_only.into_location().country, "BR");
    let neither = LocationResponse {
        city: None,
        country: None,
        country_name: None,
        latitude: s("1"),
        longitude: s("2"),
    };
    let location = neither.into_location();
    assert_eq!(location.country, "N/D");
    assert_eq!(location.city, "N/D");
}

#[test]
fn location_from_query_response() {
    let response = LocationQueryResponse {
        name: s("Monteiro"),
        state: Some(s("PB")),
        country: Some(s("BR")),
        lat: s("-7.9194"),
        lon: s("-37.175"),
    };
    let location: Location = response.into_location();
    assert_eq!(location.city, "Monteiro");
    assert_eq!(location.country, "BR");
    assert_eq!(location.coordinates.latitude, "-7.9194");
    assert_eq!(location.coordinates.longitude, "-37.175");
}

#[test]
fn location_query_display() {
    let query = LocationQuery::from("".to_string());
    assert_eq!(query.to_string(), "");
    let query = LocationQuery::from("joão pessoa".to_string());
    assert_eq!(query.to_string(), "joão pessoa");
    let query = LocationQuery::from("joão pessoa,pb".to_string());
    assert_eq!(query.to_string(), "joão pessoa,pb");
    let query = LocationQuery::from("joão pessoa,pb,br".to_string());
    assert_eq!(query.to_string(), "joão pessoa,pb,br");
}

#[test]
fn location_query_parts() {
    let query = LocationQuery::from("joão pessoa,pb,br".to_string());
    assert_eq!(query.city_name, "joão pessoa");
    assert_eq!(query.state_code.as_deref(), Some("pb"));
    assert_eq!(query.country_code.as_deref(), Some("br"));
    let query = LocationQuery::from("a,,b,c".to_string());
    assert_eq!(query.city_name, "a");
    assert_eq!(query.state_code.as_deref(), Some(""));
    assert_eq!(query.country_code.as_deref(), Some("b"));
    assert_eq!(query.to_string(), "a,,b");
}

#[test]
fn location_query_response_display() {
    let location = LocationQueryResponse {
        name: "Monteiro".to_string(),
        state: Some("PB".to_string()),
        country: Some("BR".to_string()),
        lat: "12.34".to_string(),
        lon: "56.78".to_string(),
    };
    let text = "City: Monteiro
State code: PB
Country code: BR
Coordinates:
  Latitude: 12.34
  Longitude: 56.78";
    assert_eq!(location.to_string(), text);

    let location = LocationQueryResponse {
        name: "Monteiro".to_string(),
        state: None,
        country: Some("BR".to_string()),
        lat: "12.34".to_string(),
        lon: "56.78".to_string(),
    };
    let text = "City: Monteiro
Country code: BR
Coordinates:
  Latitude: 12.34
  Longitude: 56.78";
    assert_eq!(location.to_string(), text);

    let location = LocationQueryResponse {
        name: "Monteiro".to_string(),
        state: None,
        country: None,
        lat: "12.34".to_string(),
        lon: "56.78".to_string(),
    };
    let text = "City: Monteiro
Coordinates:
  Latitude: 12.34
  Longitude: 56.78";
    assert_eq!(location.to_string(), text);
}

#[test]
fn location_query_responses_display() {
    let res = LocationQueryResponses::new(five_londons());
    assert_eq!(res.to_string(), FIVE_LONDONS);
}

#[test]
fn several_candidates_are_listed_not_picked() {
    let res = LocationQueryResponses::new(five_londons());
    assert_eq!(res.len(), 5);
    match res.resolve() {
        Err(LocationClientError::MoreThanOne(n, listing)) => {
            assert_eq!(n, 5);
            assert_eq!(listing, FIVE_LONDONS);
            let blocks: Vec<&str> = listing.trim_matches('\n').split("\n\n").collect();
            assert_eq!(blocks.len(), 5);
            assert!(blocks[2].contains("State code: OH"));
            assert!(!blocks[0].contains("State code"));
        }
        other => panic!("expected several candidates, got {:?}", other),
    }
}

#[test]
fn two_candidates_are_ambiguous() {
    let mut two = five_londons();
    two.truncate(2);
    assert!(matches!(
        LocationQueryResponses::new(two).resolve(),
        Err(LocationClientError::MoreThanOne(2, _))
    ));
}

#[test]
fn no_candidate_degrades_to_placeholder() {
    let location = LocationQueryResponses::new(vec![]).resolve().unwrap();
    assert_eq!(location.city, "N/D");
    assert_eq!(location.country, "N/D");
    assert_eq!(location.coordinates.latitude, "0");
    assert_eq!(location.coordinates.longitude, "0");
}

#[test]
fn one_candidate_is_the_location() {
    let mut one = five_londons();
    one.truncate(1);
    let location = LocationQueryResponses::new(one).resolve().unwrap();
    assert_eq!(location.city, "London");
    assert_eq!(location.country, "GB");
    assert_eq!(location.coordinates.latitude, "51.5085");
    assert_eq!(location.coordinates.longitude, "-0.1257");
}

#[test]
fn provider_index_is_checked() {
    assert_eq!(endpoint_for(None).unwrap(), "http://ip-api.com/json/");
    assert_eq!(endpoint_for(Some(0)).unwrap(), "http://ip-api.com/json/");
    assert_eq!(endpoint_for(Some(1)).unwrap(), "https://ipapi.co/json/");
    assert_eq!(endpoint_for(Some(2)).unwrap(), "https://freegeoip.app/json/");
    assert_eq!(endpoint_for(Some(3)).unwrap(), "https://ipwhois.app/json/");
    assert!(matches!(endpoint_for(Some(-1)), Err(LocationClientError::WrongLocationProvider)));
    assert!(matches!(endpoint_for(Some(4)), Err(LocationClientError::WrongLocationProvider)));
    assert!(matches!(endpoint_for(Some(10)), Err(LocationClientError::WrongLocationProvider)));
    assert!(matches!(endpoint_for(Some(i8::MIN)), Err(LocationClientError::WrongLocationProvider)));
}

#[test]
fn short_queries_are_rejected() {
    for text in ["", "a", " a ", "   ", "\tx\n", "ã"] {
        let query = LocationQuery::from(text.to_string());
        assert!(
            matches!(query_url(&query, "key"), Err(LocationClientError::WrongQueryParam)),
            "{:?}",
            text
        );
    }
    let query = LocationQuery::from(" ab ".to_string());
    assert!(query_url(&query, "key").is_ok());
}

#[test]
fn query_url_carries_the_query() {
    let query = LocationQuery::from("joão pessoa,pb,br".to_string());
    assert_eq!(
        query_url(&query, "key").unwrap(),
        "https://api.openweathermap.org/geo/1.0/direct?q=joão pessoa,pb,br&limit=5&appid=key"
    );
}

#[test]
fn coordinates_new_keeps_text() {
    let c = Coordinates::new(s("-7.9194"), s("-37.175"));
    assert_eq!(c.latitude, "-7.9194");
    assert_eq!(c.longitude, "-37.175");
}
