use flight_search::json::{JsonNumber, JsonValue};
use flight_search::req::{serialize_date, CabinClass, CreateRequest, QueryDate, QueryLeg, QueryPlace};

fn s(text: &str) -> JsonValue {
    JsonValue::String(text.to_string())
}

fn n(v: u64) -> JsonValue {
    JsonValue::Number(JsonNumber::PosInt(v))
}

fn object(members: Vec<(&str, JsonValue)>) -> JsonValue {
    JsonValue::Object(members.into_iter().map(|(k, v)| (k.to_string(), v)).collect())
}

fn lax_to_ber() -> QueryLeg {
    QueryLeg {
        origin_place_id: "LAX".into(),
        destination_place_id: QueryPlace::from("BER".to_string()),
        date: QueryDate { year: 2030, month: 1, day: 2 },
    }
}

#[test]
fn default_request() {
    let r = CreateRequest::default();
    assert_eq!(r.market, "UK");
    assert_eq!(r.locale, "en-GB");
    assert_eq!(r.currency, "EUR");
    assert!(r.query_legs.is_empty());
    assert_eq!(r.adults, 1);
    assert!(r.children_ages.is_empty());
    assert_eq!(r.nearby_airports, Some(true));
    assert_eq!(r.cabin_class, CabinClass::CabinClassEconomy);
}

#[test]
fn a_bare_string_is_an_iata_code() {
    assert_eq!(QueryPlace::from("LAX"), QueryPlace::Iata { iata: "LAX".to_string() });
    assert_eq!(QueryPlace::from("LAX".to_string()), QueryPlace::Iata { iata: "LAX".to_string() });
    assert_eq!(QueryPlace::iata("BER"), QueryPlace::Iata { iata: "BER".to_string() });
    assert_eq!(
        QueryPlace::entity_id("27544008"),
        QueryPlace::EntityId { entity_id: "27544008".to_string() }
    );
}

#[test]
fn place_has_one_member() {
    assert_eq!(QueryPlace::iata("LAX").to_json(), object(vec![("iata", s("LAX"))]));
    assert_eq!(
        QueryPlace::entity_id("27544008").to_json(),
        object(vec![("entityId", s("27544008"))])
    );
}

#[test]
fn date_has_year_month_day() {
    let date = QueryDate { year: 2030, month: 1, day: 2 };
    let expected = object(vec![("year", n(2030)), ("month", n(1)), ("day", n(2))]);
    assert_eq!(serialize_date(&date), expected);
    assert_eq!(date.to_json(), expected);
}

#[test]
fn date_before_the_common_era() {
    let date = QueryDate { year: -44, month: 3, day: 15 };
    assert_eq!(
        date.to_json(),
        object(vec![
            ("year", JsonValue::Number(JsonNumber::NegInt(-44))),
            ("month", n(3)),
            ("day", n(15)),
        ])
    );
}

#[test]
fn leg_names_origin_destination_and_date() {
    assert_eq!(
        lax_to_ber().to_json(),
        object(vec![
            ("originPlaceId", object(vec![("iata", s("LAX"))])),
            ("destinationPlaceId", object(vec![("iata", s("BER"))])),
            ("date", object(vec![("year", n(2030)), ("month", n(1)), ("day", n(2))])),
        ])
    );
}

#[test]
fn cabin_class_names() {
    assert_eq!(CabinClass::CabinClassUnspecified.tag(), "CABIN_CLASS_UNSPECIFIED");
    assert_eq!(CabinClass::CabinClassEconomy.tag(), "CABIN_CLASS_ECONOMY");
    assert_eq!(CabinClass::CabinClassPremiumEconomy.tag(), "CABIN_CLASS_PREMIUM_ECONOMY");
    assert_eq!(CabinClass::CabinClassBusiness.tag(), "CABIN_CLASS_BUSINESS");
    assert_eq!(CabinClass::CabinClassFirst.tag(), "CABIN_CLASS_FIRST");
}

#[test]
fn request_without_children_leaves_their_ages_out() {
    let request = CreateRequest { query_legs: vec![lax_to_ber()], ..Default::default() };
    assert_eq!(
        request.to_json(),
        object(vec![
            ("market", s("UK")),
            ("locale", s("en-GB")),
            ("currency", s("EUR")),
            ("queryLegs", JsonValue::Array(vec![lax_to_ber().to_json()])),
            ("adults", n(1)),
            ("nearbyAirports", JsonValue::Bool(true)),
            ("cabinClass", s("CABIN_CLASS_ECONOMY")),
        ])
    );
}

#[test]
fn request_with_children_and_without_nearby_airports() {
    let request = CreateRequest {
        market: "DE".to_string(),
        locale: "de-DE".to_string(),
        currency: "CHF".to_string(),
        query_legs: vec![],
        adults: 2,
        children_ages: vec![3, 11],
        nearby_airports: None,
        cabin_class: CabinClass::CabinClassBusiness,
    };
    assert_eq!(
        request.to_json(),
        object(vec![
            ("market", s("DE")),
            ("locale", s("de-DE")),
            ("currency", s("CHF")),
            ("queryLegs", JsonValue::Array(vec![])),
            ("adults", n(2)),
            ("childrenAges", JsonValue::Array(vec![n(3), n(11)])),
            ("nearbyAirports", JsonValue::Null),
            ("cabinClass", s("CABIN_CLASS_BUSINESS")),
        ])
    );
}

#[test]
fn body_wraps_the_request_in_query() {
    let request = CreateRequest::default();
    assert_eq!(request.to_body(), object(vec![("query", request.to_json())]));
}

#[test]
fn body_is_what_serde_json_would_send() {
    let request = CreateRequest { query_legs: vec![lax_to_ber()], ..Default::default() };
    let expected: serde_json::Value = serde_json::from_str(
        "{\"query\":{\"market\":\"UK\",\"locale\":\"en-GB\",\"currency\":\"EUR\",\
         \"queryLegs\":[{\"originPlaceId\":{\"iata\":\"LAX\"},\
         \"destinationPlaceId\":{\"iata\":\"BER\"},\
         \"date\":{\"year\":2030,\"month\":1,\"day\":2}}],\
         \"adults\":1,\"nearbyAirports\":true,\"cabinClass\":\"CABIN_CLASS_ECONOMY\"}}",
    )
    .unwrap();
    assert_eq!(to_serde(&request.to_body()), expected);
}

fn to_serde(v: &JsonValue) -> serde_json::Value {
    match v {
        JsonValue::Null => serde_json::Value::Null,
        JsonValue::Bool(b) => serde_json::Value::Bool(*b),
        JsonValue::Number(JsonNumber::PosInt(u)) => serde_json::Value::from(*u),
        JsonValue::Number(JsonNumber::NegInt(i)) => serde_json::Value::from(*i),
        JsonValue::Number(JsonNumber::Float(bits)) => serde_json::Value::from(f64::from_bits(*bits)),
        JsonValue::String(s) => serde_json::Value::String(s.clone()),
        JsonValue::Array(items) => serde_json::Value::Array(items.iter().map(to_serde).collect()),
        JsonValue::Object(members) => serde_json::Value::Object(
            members.iter().map(|(k, v)| (k.clone(), to_serde(v))).collect(),
        ),
    }
}
