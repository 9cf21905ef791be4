use flight_search::decode::{Decode, DecodeError};
use flight_search::json::{JsonNumber, JsonValue};
use flight_search::req::{CreateRequest, QueryDate, QueryLeg, QueryPlace};
use flight_search::resp::{
    FlightsLiveSearchContent, LiveCoordinates, LiveItinerary, LiveItineraryStats, LiveLeg,
    LiveLocalDateTime, LivePlace, LivePlaceType, LiveSortingOption, LiveStats, LiveTransferType,
    Price, PriceUnit, PriceUpdateStatus, ResultAction, ResultStatus, SearchCreateResponse,
};
use flight_search::schema::{decode_create_response, decode_poll_response};
use flight_search::stream::{create_url, poll_url, Call, SessionState};
use flight_search::table::Table;
use flight_search::util::{EntityKind, OptionSummary, ReferentialError};

fn from_serde(v: &serde_json::Value) -> JsonValue {
    match v {
        serde_json::Value::Null => JsonValue::Null,
        serde_json::Value::Bool(b) => JsonValue::Bool(*b),
        serde_json::Value::Number(n) => JsonValue::Number(if let Some(u) = n.as_u64() {
            JsonNumber::PosInt(u)
        } else if let Some(i) = n.as_i64() {
            JsonNumber::NegInt(i)
        } else {
            JsonNumber::Float(n.as_f64().unwrap().to_bits())
        }),
        serde_json::Value::String(s) => JsonValue::String(s.clone()),
        serde_json::Value::Array(items) => JsonValue::Array(items.iter().map(from_serde).collect()),
        serde_json::Value::Object(members) => JsonValue::Object(
            members.iter().map(|(k, v)| (k.clone(), from_serde(v))).collect(),
        ),
    }
}

fn json(text: &str) -> JsonValue {
    from_serde(&serde_json::from_str::<serde_json::Value>(text).unwrap())
}

const PRICE: &str = "{\"amount\":\"50000\",\"unit\":\"PRICE_UNIT_CENTI\",\
    \"updateStatus\":\"PRICE_UPDATE_STATUS_CURRENT\"}";

const DEPARTURE: &str =
    "{\"year\":2030,\"month\":1,\"day\":2,\"hour\":8,\"minute\":5,\"second\":0}";

const ARRIVAL: &str =
    "{\"year\":2030,\"month\":1,\"day\":3,\"hour\":6,\"minute\":45,\"second\":30}";

fn option_text() -> String {
    format!(
        "{{\"price\":{},\"agentIds\":[\"agentChain\"],\"items\":[{{\"deepLink\":\"x\"}}],\
         \"transferType\":\"TRANSFER_TYPE_MANAGED\",\"id\":\"po-1\",\
         \"pricingOptionFare\":{{\"anything\":[1,2,{{\"goes\":null}}]}}}}",
        PRICE
    )
}

fn itinerary_text() -> String {
    format!(
        "{{\"pricingOptions\":[{}],\"legIds\":[\"leg-1\"],\
         \"sustainabilityData\":{{\"isEcoContender\":false,\"ecoContenderDelta\":0.5}}}}",
        option_text()
    )
}

fn leg_text() -> String {
    format!(
        "{{\"originPlaceId\":\"p-lax\",\"destinationPlaceId\":\"p-ber\",\
         \"departureDateTime\":{},\"arrivalDateTime\":{},\"durationInMinutes\":820,\
         \"stopCount\":0,\"marketingCarrierIds\":[\"c-1\"],\"operatingCarrierIds\":[\"c-1\",\"c-2\"],\
         \"segmentIds\":[\"s-1\"]}}",
        DEPARTURE, ARRIVAL
    )
}

const LAX: &str = "{\"name\":\"Los Angeles International\",\"type\":\"PLACE_TYPE_AIRPORT\",\
    \"iata\":\"LAX\",\"coordinates\":{\"latitude\":33.9425,\"longitude\":-118.408},\
    \"entityId\":\"p-lax\",\"parentId\":\"city-la\"}";

const BER: &str = "{\"name\":\"Berlin Brandenburg\",\"type\":\"PLACE_TYPE_AIRPORT\",\
    \"iata\":\"BER\",\"coordinates\":null,\"entityId\":\"p-ber\"}";

fn content_text() -> String {
    format!(
        "{{\"results\":{{\"itineraries\":{{\"it-1\":{}}},\"legs\":{{\"leg-1\":{}}},\
         \"segments\":{{\"s-1\":{{\"free\":\"form\"}}}},\
         \"places\":{{\"p-lax\":{},\"p-ber\":{}}},\
         \"carriers\":{{\"c-1\":{{\"name\":\"One\"}},\"c-2\":17}},\
         \"agents\":{{\"agentChain\":{{\"name\":\"Agent\"}}}},\
         \"alliances\":{{\"a-1\":{{\"name\":\"Alliance\"}}}}}},\
         \"stats\":{{\"itineraries\":null}},\
         \"sortingOptions\":{{\"best\":[{{\"score\":1.5,\"itineraryId\":\"it-1\"}}],\
         \"cheapest\":[{{\"score\":1,\"itineraryId\":\"it-1\"}}],\"fastest\":[]}}}}",
        itinerary_text(),
        leg_text(),
        LAX,
        BER
    )
}

fn empty_content_text() -> String {
    "{\"results\":{\"itineraries\":{},\"legs\":{},\"segments\":{},\"places\":{},\"carriers\":{},\
     \"agents\":{},\"alliances\":{}},\"stats\":{},\
     \"sortingOptions\":{\"best\":[],\"cheapest\":[],\"fastest\":[]}}"
        .to_string()
}

fn response_text(token: &str, status: &str, action: &str, content: &str) -> String {
    format!(
        "{{\"sessionToken\":\"{}\",\"status\":\"RESULT_STATUS_{}\",\
         \"action\":\"RESULT_ACTION_{}\",\"content\":{}}}",
        token, status, action, content
    )
}

fn response(token: &str, status: &str, action: &str) -> JsonValue {
    json(&response_text(token, status, action, &content_text()))
}

fn decode_ok(text: &str) -> SearchCreateResponse {
    match decode_create_response(&json(text)) {
        Ok(envelope) => envelope,
        Err(e) => panic!("the response does not decode: {:?}", e),
    }
}

fn decode_err(text: &str) -> DecodeError {
    match decode_create_response(&json(text)) {
        Ok(_) => panic!("the response decodes"),
        Err(e) => e,
    }
}

fn sample() -> SearchCreateResponse {
    decode_ok(&response_text("tok-1", "INCOMPLETE", "REPLACED", &content_text()))
}

fn request() -> CreateRequest {
    CreateRequest {
        query_legs: vec![QueryLeg {
            origin_place_id: QueryPlace::from("LAX"),
            destination_place_id: QueryPlace::from("BER"),
            date: QueryDate { year: 2030, month: 1, day: 2 },
        }],
        ..Default::default()
    }
}

/// Drives a session over the scripted responses, as a transport that
/// answers from a list would, and gives back what the session gave out, the
/// calls it asked for, and the state it ended in.
fn run(
    request: CreateRequest,
    script: Vec<JsonValue>,
) -> (Vec<FlightsLiveSearchContent>, Vec<Call>, Result<SessionState, DecodeError>) {
    let mut state = SessionState::new(request);
    let mut emitted = Vec::new();
    let mut calls = Vec::new();
    let mut script = script.into_iter();
    loop {
        let call = match state.next_call() {
            Some(call) => call,
            None => return (emitted, calls, Ok(state.settle())),
        };
        calls.push(call);
        let raw = match script.next() {
            Some(raw) => raw,
            None => panic!("the session asks for a call that the script does not answer"),
        };
        match state.accept(&raw) {
            Ok((next, out)) => {
                state = next;
                emitted.extend(out);
            }
            Err(e) => return (emitted, calls, Err(e)),
        }
    }
}

fn is_done(state: &Result<SessionState, DecodeError>) -> bool {
    matches!(state, Ok(SessionState::Done))
}

// Decoding.

#[test]
fn envelope_decodes() {
    let envelope = sample();
    assert_eq!(envelope.session_token, "tok-1");
    assert_eq!(envelope.status, ResultStatus::ResultStatusIncomplete);
    assert_eq!(envelope.action, ResultAction::ResultActionReplaced);
    assert_eq!(envelope.content.results.itineraries.len(), 1);
    assert_eq!(envelope.content.results.legs.len(), 1);
    assert_eq!(envelope.content.results.places.len(), 2);
    assert_eq!(envelope.content.results.carriers.len(), 2);
    assert_eq!(envelope.content.stats, LiveStats { itineraries: None });
}

#[test]
fn extra_top_level_member_is_refused() {
    let with = "{\"sessionToken\":\"t\",\"status\":\"RESULT_STATUS_COMPLETE\",\
         \"action\":\"RESULT_ACTION_OMITTED\",\"content\":CONTENT,\"debug\":true}"
        .replace("CONTENT", &empty_content_text());
    let without = "{\"sessionToken\":\"t\",\"status\":\"RESULT_STATUS_COMPLETE\",\
         \"action\":\"RESULT_ACTION_OMITTED\",\"content\":CONTENT}"
        .replace("CONTENT", &empty_content_text());
    assert_eq!(decode_err(&with), DecodeError::UnknownField);
    let envelope = decode_ok(&without);
    assert_eq!(envelope.session_token, "t");
    assert_eq!(envelope.status, ResultStatus::ResultStatusComplete);
    assert_eq!(envelope.action, ResultAction::ResultActionOmitted);
}

#[test]
fn extra_nested_member_is_refused() {
    let text = response_text("t", "COMPLETE", "REPLACED", &content_text());
    for (known, with_extra) in [
        ("\"stopCount\":0", "\"stopCount\":0,\"stops\":0"),
        ("\"minute\":5", "\"minute\":5,\"zone\":\"UTC\""),
        ("\"updateStatus\"", "\"currency\":\"EUR\",\"updateStatus\""),
        ("\"entityId\":\"p-ber\"", "\"entityId\":\"p-ber\",\"population\":1"),
        ("\"fastest\":[]", "\"fastest\":[],\"greenest\":[]"),
        ("\"stats\":{", "\"stats\":{\"carriers\":{},"),
        ("\"alliances\":{", "\"airports\":{},\"alliances\":{"),
        ("\"score\":1.5", "\"score\":1.5,\"rank\":1"),
        ("\"latitude\":33.9425", "\"latitude\":33.9425,\"altitude\":38"),
    ] {
        assert!(text.contains(known));
        assert_eq!(decode_err(&text.replacen(known, with_extra, 1)), DecodeError::UnknownField);
    }
    assert!(decode_create_response(&json(&text)).is_ok());
}

#[test]
fn opaque_regions_are_carried_as_they_came() {
    let envelope = sample();
    let results = &envelope.content.results;
    assert_eq!(results.segments.get("s-1"), Some(&json("{\"free\":\"form\"}")));
    assert_eq!(results.carriers.get("c-1"), Some(&json("{\"name\":\"One\"}")));
    assert_eq!(results.carriers.get("c-2"), Some(&json("17")));
    assert_eq!(results.agents.get("agentChain"), Some(&json("{\"name\":\"Agent\"}")));
    let itinerary = results.itineraries.get("it-1").unwrap();
    assert_eq!(
        itinerary.sustainability_data,
        json("{\"isEcoContender\":false,\"ecoContenderDelta\":0.5}")
    );
    let option = &itinerary.pricing_options[0];
    assert_eq!(option.pricing_option_fare, json("{\"anything\":[1,2,{\"goes\":null}]}"));
    assert_eq!(option.items, json("[{\"deepLink\":\"x\"}]"));
}

#[test]
fn itinerary_decodes() {
    let envelope = sample();
    let itinerary = envelope.content.results.itineraries.get("it-1").unwrap();
    assert_eq!(itinerary.leg_ids, vec!["leg-1".to_string()]);
    assert_eq!(itinerary.pricing_options.len(), 1);
    let option = &itinerary.pricing_options[0];
    assert_eq!(
        option.price,
        Price {
            amount: Some(50000),
            unit: PriceUnit::PriceUnitCenti,
            update_status: PriceUpdateStatus::PriceUpdateStatusCurrent,
        }
    );
    assert_eq!(option.agent_ids, vec!["agentChain".to_string()]);
    assert_eq!(option.transfer_type, LiveTransferType::TransferTypeManaged);
    assert_eq!(option.id, "po-1");
}

#[test]
fn leg_decodes() {
    let envelope = sample();
    let leg = envelope.content.results.legs.get("leg-1").unwrap();
    assert_eq!(
        *leg,
        LiveLeg {
            origin_place_id: "p-lax".to_string(),
            destination_place_id: "p-ber".to_string(),
            departure_date_time: LiveLocalDateTime {
                year: 2030,
                month: 1,
                day: 2,
                hour: 8,
                minute: 5,
                second: 0,
            },
            arrival_date_time: LiveLocalDateTime {
                year: 2030,
                month: 1,
                day: 3,
                hour: 6,
                minute: 45,
                second: 30,
            },
            duration_in_minutes: 820,
            stop_count: 0,
            marketing_carrier_ids: vec!["c-1".to_string()],
            operating_carrier_ids: vec!["c-1".to_string(), "c-2".to_string()],
            segment_ids: vec!["s-1".to_string()],
        }
    );
}

#[test]
fn place_decodes_with_and_without_what_may_be_left_out() {
    let envelope = sample();
    let places = &envelope.content.results.places;
    assert_eq!(
        *places.get("p-lax").unwrap(),
        LivePlace {
            name: "Los Angeles International".to_string(),
            place_type: LivePlaceType::PlaceTypeAirport,
            iata: Some("LAX".to_string()),
            coordinates: Some(LiveCoordinates {
                latitude: JsonNumber::Float(33.9425f64.to_bits()),
                longitude: JsonNumber::Float((-118.408f64).to_bits()),
            }),
            entity_id: "p-lax".to_string(),
            parent_id: Some("city-la".to_string()),
        }
    );
    assert_eq!(
        *places.get("p-ber").unwrap(),
        LivePlace {
            name: "Berlin Brandenburg".to_string(),
            place_type: LivePlaceType::PlaceTypeAirport,
            iata: Some("BER".to_string()),
            coordinates: None,
            entity_id: "p-ber".to_string(),
            parent_id: None,
        }
    );
}

#[test]
fn rankings_decode_in_the_order_given() {
    let text = response_text("t", "COMPLETE", "REPLACED", &content_text()).replace(
        "\"fastest\":[]",
        "\"fastest\":[{\"score\":3,\"itineraryId\":\"c\"},{\"score\":-2,\"itineraryId\":\"a\"},\
         {\"score\":2.5,\"itineraryId\":\"b\"}]",
    );
    let envelope = decode_ok(&text);
    let fastest = envelope.content.sorting_options.index(LiveSortingOption::Fastest);
    let ids: Vec<&str> = fastest.iter().map(|item| item.itinerary_id.as_str()).collect();
    assert_eq!(ids, vec!["c", "a", "b"]);
    assert_eq!(fastest[0].score, JsonNumber::PosInt(3));
    assert_eq!(fastest[1].score, JsonNumber::NegInt(-2));
    assert_eq!(fastest[2].score, JsonNumber::Float(2.5f64.to_bits()));
    let best = envelope.content.sorting_options.index(LiveSortingOption::Best);
    assert_eq!(best.len(), 1);
    assert_eq!(best[0].itinerary_id, "it-1");
    let cheapest = envelope.content.sorting_options.index(LiveSortingOption::Cheapest);
    assert_eq!(cheapest[0].score, JsonNumber::PosInt(1));
}

#[test]
fn statistics_decode() {
    let summary = format!("{{\"count\":3,\"minPrice\":{}}}", PRICE);
    let tickets = format!(
        "{{\"singleTicket\":{s},\"multiTicketNonNpt\":{s},\"multiTicketNpt\":{s}}}",
        s = summary
    );
    let stop = format!("{{\"total\":{},\"ticketTypes\":{}}}", summary, tickets);
    let stops = format!("{{\"direct\":{s},\"oneStop\":{s},\"twoPlusStops\":{s}}}", s = stop);
    let stats = format!(
        "{{\"minDuration\":95,\"maxDuration\":1440,\"total\":{},\"stops\":{},\
         \"hasChangeAirportTransfer\":true}}",
        summary, stops
    );
    let decoded = LiveItineraryStats::decode(&json(&stats)).unwrap();
    assert_eq!(decoded.min_duration, 95);
    assert_eq!(decoded.max_duration, 1440);
    assert!(decoded.has_change_airport_transfer);
    assert_eq!(decoded.total.count, 3);
    assert_eq!(decoded.total.min_price.amount, Some(50000));
    assert_eq!(decoded.stops.one_stop.ticket_types.multi_ticket_npt.count, 3);
    let wrapped = LiveStats::decode(&json(&format!("{{\"itineraries\":{}}}", stats))).unwrap();
    assert_eq!(wrapped.itineraries, Some(decoded));
    assert_eq!(LiveStats::decode(&json("{}")), Ok(LiveStats { itineraries: None }));
}

#[test]
fn value_of_another_type_is_refused() {
    let text = response_text("t", "COMPLETE", "REPLACED", &content_text());
    for (good, bad) in [
        ("\"sessionToken\":\"t\"", "\"sessionToken\":7"),
        ("\"status\":\"RESULT_STATUS_COMPLETE\"", "\"status\":2"),
        ("\"stopCount\":0", "\"stopCount\":\"0\""),
        ("\"stopCount\":0", "\"stopCount\":0.5"),
        ("\"stopCount\":0", "\"stopCount\":null"),
        ("\"legIds\":[\"leg-1\"]", "\"legIds\":\"leg-1\""),
        ("\"legIds\":[\"leg-1\"]", "\"legIds\":[1]"),
        ("\"fastest\":[]", "\"fastest\":{}"),
        ("\"segments\":{\"s-1\":{\"free\":\"form\"}}", "\"segments\":[]"),
        ("\"score\":1.5", "\"score\":\"1.5\""),
        ("\"stats\":{\"itineraries\":null}", "\"stats\":[]"),
        ("\"amount\":\"50000\"", "\"amount\":null"),
    ] {
        assert!(text.contains(good));
        assert_eq!(decode_err(&text.replacen(good, bad, 1)), DecodeError::WrongType);
    }
    assert_eq!(decode_create_response(&json("[]")).err(), Some(DecodeError::WrongType));
    assert_eq!(decode_create_response(&json("null")).err(), Some(DecodeError::WrongType));
}

#[test]
fn name_outside_an_enumeration_is_refused() {
    let text = response_text("t", "COMPLETE", "REPLACED", &content_text());
    for (good, bad) in [
        ("RESULT_STATUS_COMPLETE", "RESULT_STATUS_DONE"),
        ("RESULT_STATUS_COMPLETE", "result_status_complete"),
        ("RESULT_ACTION_REPLACED", "REPLACED"),
        ("PRICE_UNIT_CENTI", "PRICE_UNIT_DECI"),
        ("PRICE_UPDATE_STATUS_CURRENT", ""),
        ("TRANSFER_TYPE_MANAGED", "TRANSFER_TYPE_UNMANAGED"),
        ("PLACE_TYPE_AIRPORT", "PLACE_TYPE_STATION"),
    ] {
        assert!(text.contains(good));
        assert_eq!(decode_err(&text.replacen(good, bad, 1)), DecodeError::UnknownTag);
    }
}

#[test]
fn every_name_of_an_enumeration_is_known() {
    let decode = |tag: &str| LivePlaceType::decode(&JsonValue::String(tag.to_string()));
    assert_eq!(decode("PLACE_TYPE_UNSPECIFIED"), Ok(LivePlaceType::PlaceTypeUnspecified));
    assert_eq!(decode("PLACE_TYPE_AIRPORT"), Ok(LivePlaceType::PlaceTypeAirport));
    assert_eq!(decode("PLACE_TYPE_CITY"), Ok(LivePlaceType::PlaceTypeCity));
    assert_eq!(decode("PLACE_TYPE_COUNTRY"), Ok(LivePlaceType::PlaceTypeCountry));
    assert_eq!(decode("PLACE_TYPE_CONTINENT"), Ok(LivePlaceType::PlaceTypeContinent));
    assert_eq!(decode("PLACE_TYPE_ISLAND"), Ok(LivePlaceType::PlaceTypeIsland));
    assert_eq!(ResultStatus::from_tag("RESULT_STATUS_UNSPECIFIED"), Some(ResultStatus::ResultStatusUnspecified));
    assert_eq!(ResultStatus::from_tag("RESULT_STATUS_COMPLETE"), Some(ResultStatus::ResultStatusComplete));
    assert_eq!(ResultStatus::from_tag("RESULT_STATUS_INCOMPLETE"), Some(ResultStatus::ResultStatusIncomplete));
    assert_eq!(ResultStatus::from_tag("RESULT_STATUS_FAILED"), Some(ResultStatus::ResultStatusFailed));
    assert_eq!(ResultAction::from_tag("RESULT_ACTION_UNSPECIFIED"), Some(ResultAction::ResultActionUnspecified));
    assert_eq!(ResultAction::from_tag("RESULT_ACTION_REPLACED"), Some(ResultAction::ResultActionReplaced));
    assert_eq!(ResultAction::from_tag("RESULT_ACTION_NOT_MODIFIED"), Some(ResultAction::ResultActionNotModified));
    assert_eq!(ResultAction::from_tag("RESULT_ACTION_OMITTED"), Some(ResultAction::ResultActionOmitted));
    assert_eq!(PriceUnit::from_tag("PRICE_UNIT_UNSPECIFIED"), Some(PriceUnit::PriceUnitUnspecified));
    assert_eq!(PriceUnit::from_tag("PRICE_UNIT_WHOLE"), Some(PriceUnit::PriceUnitWhole));
    assert_eq!(PriceUnit::from_tag("PRICE_UNIT_CENTI"), Some(PriceUnit::PriceUnitCenti));
    assert_eq!(PriceUnit::from_tag("PRICE_UNIT_MILLI"), Some(PriceUnit::PriceUnitMilli));
    assert_eq!(PriceUnit::from_tag("PRICE_UNIT_MICRO"), Some(PriceUnit::PriceUnitMicro));
    assert_eq!(PriceUpdateStatus::from_tag("PRICE_UPDATE_STATUS_UNSPECIFIED"), Some(PriceUpdateStatus::PriceUpdateStatusUnspecified));
    assert_eq!(PriceUpdateStatus::from_tag("PRICE_UPDATE_STATUS_PENDING"), Some(PriceUpdateStatus::PriceUpdateStatusPending));
    assert_eq!(PriceUpdateStatus::from_tag("PRICE_UPDATE_STATUS_CURRENT"), Some(PriceUpdateStatus::PriceUpdateStatusCurrent));
    assert_eq!(LiveSortingOption::from_tag("BEST"), Some(LiveSortingOption::Best));
    assert_eq!(LiveSortingOption::from_tag("CHEAPEST"), Some(LiveSortingOption::Cheapest));
    assert_eq!(LiveSortingOption::from_tag("FASTEST"), Some(LiveSortingOption::Fastest));
    assert_eq!(LiveSortingOption::from_tag("best"), None);
    assert_eq!(LiveTransferType::from_tag("TRANSFER_TYPE_UNSPECIFIED"), Some(LiveTransferType::TransferTypeUnspecified));
    assert_eq!(LiveTransferType::from_tag("TRANSFER_TYPE_MANAGED"), Some(LiveTransferType::TransferTypeManaged));
    assert_eq!(LiveTransferType::from_tag("TRANSFER_TYPE_SELF_TRANSFER"), Some(LiveTransferType::TransferTypeSelfTransfer));
    assert_eq!(
        LiveTransferType::from_tag("TRANSFER_TYPE_PROTECTED_SELF_TRANSFER"),
        Some(LiveTransferType::TransferTypeProtectedSelfTransfer)
    );
}

#[test]
fn member_that_is_missing_is_refused() {
    let text = response_text("t", "COMPLETE", "REPLACED", &content_text());
    for present in [
        "\"sessionToken\":\"t\",",
        "\"stopCount\":0,",
        "\"amount\":\"50000\",",
        "\"id\":\"po-1\",",
        "\"legIds\":[\"leg-1\"],",
        "\"name\":\"Berlin Brandenburg\",",
        "\"stats\":{\"itineraries\":null},",
        "\"score\":1.5,",
    ] {
        assert!(text.contains(present));
        assert_eq!(decode_err(&text.replacen(present, "", 1)), DecodeError::MissingField);
    }
    assert_eq!(decode_create_response(&json("{}")).err(), Some(DecodeError::MissingField));
}

#[test]
fn integer_that_does_not_fit_is_refused() {
    let text = response_text("t", "COMPLETE", "REPLACED", &content_text());
    for bad in ["2147483648", "-2147483649", "18446744073709551615"] {
        let changed = text.replacen("\"durationInMinutes\":820", &format!("\"durationInMinutes\":{}", bad), 1);
        assert_eq!(decode_err(&changed), DecodeError::OutOfRange);
    }
    for good in ["2147483647", "-2147483648", "0"] {
        let changed = text.replacen("\"durationInMinutes\":820", &format!("\"durationInMinutes\":{}", good), 1);
        let envelope = decode_ok(&changed);
        let leg = envelope.content.results.legs.get("leg-1").unwrap();
        assert_eq!(leg.duration_in_minutes.to_string(), good);
    }
}

#[test]
fn price_amount_that_is_no_integer_is_refused() {
    let text = response_text("t", "COMPLETE", "REPLACED", &content_text());
    for bad in ["\"12.5\"", "\"cheap\"", "12.5", "9223372036854775808"] {
        let changed = text.replacen("\"amount\":\"50000\"", &format!("\"amount\":{}", bad), 1);
        assert_eq!(decode_err(&changed), DecodeError::BadPrice);
    }
    for (good, amount) in [("\"\"", None), ("50000", Some(50000)), ("\"-1\"", Some(-1))] {
        let changed = text.replacen("\"amount\":\"50000\"", &format!("\"amount\":{}", good), 1);
        let envelope = decode_ok(&changed);
        let itinerary = envelope.content.results.itineraries.get("it-1").unwrap();
        assert_eq!(itinerary.pricing_options[0].price.amount, amount);
    }
}

#[test]
fn later_member_of_a_name_counts() {
    let members = vec![
        ("name".to_string(), JsonValue::String("first".to_string())),
        ("name".to_string(), JsonValue::String("second".to_string())),
    ];
    assert_eq!(
        JsonValue::member(&members, "name"),
        Some(&JsonValue::String("second".to_string()))
    );
    assert_eq!(JsonValue::member(&members, "other"), None);
    let table = Table::<String>::decode(&JsonValue::Object(members)).unwrap();
    assert_eq!(table.len(), 1);
    assert_eq!(table.get("name"), Some(&"second".to_string()));
    assert!(table.contains("name"));
    assert!(!table.contains("first"));
}

#[test]
fn poll_response_may_rename_the_token() {
    let renamed = response_text("tok-2", "COMPLETE", "REPLACED", &empty_content_text())
        .replace("sessionToken", "refreshSessionToken");
    let envelope = decode_poll_response(&json(&renamed)).unwrap_or_else(|e| panic!("{:?}", e));
    assert_eq!(envelope.session_token, "tok-2");
    let plain = response_text("tok-3", "COMPLETE", "REPLACED", &empty_content_text());
    let envelope = decode_poll_response(&json(&plain)).unwrap_or_else(|e| panic!("{:?}", e));
    assert_eq!(envelope.session_token, "tok-3");
    // The create response knows one name only.
    assert_eq!(decode_err(&renamed), DecodeError::UnknownField);
}

#[test]
fn poll_response_with_both_or_neither_token_is_refused() {
    let plain = response_text("tok", "COMPLETE", "REPLACED", &empty_content_text());
    let both = plain.replacen("{", "{\"refreshSessionToken\":\"other\",", 1);
    assert_eq!(decode_poll_response(&json(&both)).err(), Some(DecodeError::DuplicateField));
    let neither = plain.replacen("\"sessionToken\":\"tok\",", "", 1);
    assert_eq!(decode_poll_response(&json(&neither)).err(), Some(DecodeError::MissingField));
    let extra = plain.replacen("{", "{\"debug\":1,", 1);
    assert_eq!(decode_poll_response(&json(&extra)).err(), Some(DecodeError::UnknownField));
    let number = plain.replace("sessionToken\":\"tok\"", "refreshSessionToken\":5");
    assert_eq!(decode_poll_response(&json(&number)).err(), Some(DecodeError::WrongType));
}

// The session.

#[test]
fn session_starts_with_the_create_call() {
    let state = SessionState::new(request());
    assert!(!state.is_done());
    assert_eq!(state.next_call(), Some(Call::Create(request().to_body())));
}

#[test]
fn addresses_of_the_calls() {
    assert_eq!(
        create_url(),
        "https://partners.api.skyscanner.net/apiservices/v3/flights/live/search/create"
    );
    assert_eq!(
        poll_url("tok-1"),
        "https://partners.api.skyscanner.net/apiservices/v3/flights/live/search/poll/tok-1"
    );
    assert_eq!(
        poll_url(""),
        "https://partners.api.skyscanner.net/apiservices/v3/flights/live/search/poll/"
    );
}

#[test]
fn replaced_is_given_out_and_the_rest_is_skipped() {
    let script = vec![
        response("t1", "INCOMPLETE", "REPLACED"),
        response("t2", "INCOMPLETE", "NOT_MODIFIED"),
        response("t3", "INCOMPLETE", "REPLACED"),
        response("t4", "COMPLETE", "OMITTED"),
        response("never", "INCOMPLETE", "REPLACED"),
    ];
    let (emitted, calls, state) = run(request(), script);
    assert_eq!(emitted.len(), 2);
    assert_eq!(calls.len(), 4);
    assert!(is_done(&state));
    assert_eq!(
        calls,
        vec![
            Call::Create(request().to_body()),
            Call::Poll("t1".to_string()),
            Call::Poll("t2".to_string()),
            Call::Poll("t3".to_string()),
        ]
    );
}

#[test]
fn snapshots_come_in_the_order_of_the_calls() {
    let first = response_text("t1", "INCOMPLETE", "REPLACED", &content_text());
    let second = response_text("t2", "INCOMPLETE", "REPLACED", &empty_content_text());
    let third = response_text("t3", "COMPLETE", "REPLACED", &content_text())
        .replace("Berlin Brandenburg", "Berlin");
    let (emitted, calls, state) = run(request(), vec![json(&first), json(&second), json(&third)]);
    assert_eq!(calls.len(), 3);
    assert!(is_done(&state));
    assert_eq!(emitted.len(), 3);
    assert_eq!(emitted[0].results.places.get("p-ber").unwrap().name, "Berlin Brandenburg");
    assert_eq!(emitted[1].results.places.len(), 0);
    assert_eq!(emitted[2].results.places.get("p-ber").unwrap().name, "Berlin");
}

#[test]
fn session_ends_with_the_first_status_that_is_not_incomplete() {
    for last in ["COMPLETE", "FAILED", "UNSPECIFIED"] {
        for n in 1..6 {
            let mut script = Vec::new();
            for i in 1..n {
                script.push(response(&format!("t{}", i), "INCOMPLETE", "NOT_MODIFIED"));
            }
            script.push(response("last", last, "NOT_MODIFIED"));
            script.push(response("never", "INCOMPLETE", "REPLACED"));
            let (emitted, calls, state) = run(request(), script);
            assert_eq!(calls.len(), n);
            assert!(emitted.is_empty());
            assert!(is_done(&state));
        }
    }
}

#[test]
fn ended_session_asks_for_no_call() {
    let state = SessionState::new(request());
    let (state, _) = state.accept(&response("t", "COMPLETE", "REPLACED")).ok().unwrap();
    assert!(state.is_done());
    assert_eq!(state.next_call(), None);
    let state = state.settle();
    assert!(matches!(state, SessionState::Done));
    assert_eq!(state.next_call(), None);
    assert!(state.is_done());
    // A response that nobody asked for is not looked at.
    let (state, out) = state.accept(&JsonValue::Null).ok().unwrap();
    assert!(matches!(state, SessionState::Done));
    assert!(out.is_none());
    let (state, out) = state.advance(sample());
    assert!(matches!(state, SessionState::Done));
    assert!(out.is_none());
}

#[test]
fn failed_search_still_gives_its_content() {
    let (emitted, calls, state) = run(request(), vec![response("t", "FAILED", "REPLACED")]);
    assert_eq!(emitted.len(), 1);
    assert_eq!(calls.len(), 1);
    assert!(is_done(&state));
}

#[test]
fn session_without_output_is_no_failure() {
    let script = vec![
        response("t1", "INCOMPLETE", "OMITTED"),
        response("t2", "INCOMPLETE", "NOT_MODIFIED"),
        response("t3", "COMPLETE", "UNSPECIFIED"),
    ];
    let (emitted, calls, state) = run(request(), script);
    assert!(emitted.is_empty());
    assert_eq!(calls.len(), 3);
    assert!(is_done(&state));
}

#[test]
fn poll_goes_to_the_latest_token() {
    let state = SessionState::new(request());
    let (state, _) = state.accept(&response("first", "INCOMPLETE", "REPLACED")).ok().unwrap();
    assert_eq!(state.next_call(), Some(Call::Poll("first".to_string())));
    let rotated = response_text("second", "INCOMPLETE", "OMITTED", &empty_content_text())
        .replace("sessionToken", "refreshSessionToken");
    let (state, out) = state.accept(&json(&rotated)).ok().unwrap();
    assert!(out.is_none());
    assert_eq!(state.next_call(), Some(Call::Poll("second".to_string())));
    assert!(
        matches!(&state, SessionState::Polling { token, status } if token == "second" && *status == ResultStatus::ResultStatusIncomplete)
    );
}

#[test]
fn response_that_does_not_decode_ends_the_session_with_the_error() {
    let broken = response_text("t2", "INCOMPLETE", "REPLACED", &content_text())
        .replace("\"stopCount\":0", "\"stopCount\":0,\"surprise\":1");
    let script = vec![
        response("t1", "INCOMPLETE", "REPLACED"),
        json(&broken),
        response("t3", "COMPLETE", "REPLACED"),
    ];
    let (emitted, calls, state) = run(request(), script);
    assert_eq!(emitted.len(), 1);
    assert_eq!(calls.len(), 2);
    assert_eq!(state.err(), Some(DecodeError::UnknownField));
}

#[test]
fn create_response_must_name_its_token_session_token() {
    let renamed = response_text("t", "INCOMPLETE", "REPLACED", &empty_content_text())
        .replace("sessionToken", "refreshSessionToken");
    let state = SessionState::new(request());
    assert_eq!(state.accept(&json(&renamed)).err(), Some(DecodeError::UnknownField));
}

#[test]
fn advance_takes_token_and_status_from_the_envelope() {
    let state = SessionState::new(request());
    let (state, out) = state.advance(sample());
    assert!(out.is_some());
    assert!(
        matches!(&state, SessionState::Polling { token, status } if token == "tok-1" && *status == ResultStatus::ResultStatusIncomplete)
    );
}

// The views.

fn content() -> FlightsLiveSearchContent {
    sample().content
}

fn missing(kind: EntityKind, id: &str) -> ReferentialError {
    ReferentialError { kind, id: id.to_string() }
}

#[test]
fn ranking_gives_the_itineraries_it_names() {
    let content = content();
    let cheapest = content.sorted(LiveSortingOption::Cheapest);
    assert_eq!(cheapest.len(), 1);
    let itinerary = cheapest[0].as_ref().ok().unwrap();
    assert_eq!(**itinerary, *content.results.itineraries.get("it-1").unwrap());
    assert_eq!(content.sorted(LiveSortingOption::Best).len(), 1);
    assert!(content.sorted(LiveSortingOption::Fastest).is_empty());
}

#[test]
fn ranking_keeps_the_order_of_the_provider() {
    let text = response_text("t", "COMPLETE", "REPLACED", &content_text())
        .replace(
            "\"itineraries\":{\"it-1\":",
            &format!(
                "\"itineraries\":{{\"it-3\":{},\"it-2\":{},\"it-1\":",
                itinerary_text().replace("po-1", "po-3"),
                itinerary_text().replace("po-1", "po-2")
            ),
        )
        .replace(
            "\"fastest\":[]",
            "\"fastest\":[{\"score\":1,\"itineraryId\":\"it-2\"},{\"score\":9,\"itineraryId\":\"it-3\"},\
             {\"score\":5,\"itineraryId\":\"it-1\"},{\"score\":5,\"itineraryId\":\"it-2\"}]",
        );
    let content = decode_ok(&text).content;
    let ids: Vec<String> = content
        .sorted(LiveSortingOption::Fastest)
        .iter()
        .map(|r| r.as_ref().ok().unwrap().pricing_options[0].id.clone())
        .collect();
    assert_eq!(ids, vec!["po-2", "po-3", "po-1", "po-2"]);
    // Asking again gives the same, with no effect on the snapshot.
    let again: Vec<String> = content
        .sorted(LiveSortingOption::Fastest)
        .iter()
        .map(|r| r.as_ref().ok().unwrap().pricing_options[0].id.clone())
        .collect();
    assert_eq!(again, ids);
}

#[test]
fn ranking_reports_an_itinerary_that_is_not_there() {
    let text = response_text("t", "COMPLETE", "REPLACED", &content_text()).replace(
        "\"fastest\":[]",
        "\"fastest\":[{\"score\":1,\"itineraryId\":\"it-1\"},{\"score\":2,\"itineraryId\":\"gone\"},\
         {\"score\":3,\"itineraryId\":\"it-1\"}]",
    );
    let content = decode_ok(&text).content;
    let fastest = content.sorted(LiveSortingOption::Fastest);
    assert_eq!(fastest.len(), 3);
    assert!(fastest[0].is_ok());
    assert_eq!(fastest[1], Err(missing(EntityKind::Itinerary, "gone")));
    assert!(fastest[2].is_ok());
}

#[test]
fn ranking_is_resolved_entry_by_entry() {
    let text = response_text("t", "COMPLETE", "REPLACED", &content_text()).replace(
        "\"fastest\":[]",
        "\"fastest\":[{\"score\":1,\"itineraryId\":\"it-1\"},{\"score\":2,\"itineraryId\":\"gone\"}]",
    );
    let content = decode_ok(&text).content;
    assert!(content.ranked(LiveSortingOption::Fastest, 0).unwrap().is_ok());
    assert_eq!(
        content.ranked(LiveSortingOption::Fastest, 1),
        Some(Err(missing(EntityKind::Itinerary, "gone")))
    );
    assert_eq!(content.ranked(LiveSortingOption::Fastest, 2), None);
    assert_eq!(content.ranked(LiveSortingOption::Fastest, usize::MAX), None);
    assert!(content.ranked(LiveSortingOption::Best, 0).unwrap().is_ok());
    assert_eq!(content.ranked(LiveSortingOption::Best, 1), None);
}

#[test]
fn lookups_of_every_kind() {
    let content = content();
    let results = &content.results;
    assert!(results.itinerary("it-1").is_ok());
    assert!(results.leg("leg-1").is_ok());
    assert!(results.segment("s-1").is_ok());
    assert!(results.place("p-lax").is_ok());
    assert!(results.carrier("c-1").is_ok());
    assert!(results.agent("agentChain").is_ok());
    assert_eq!(results.alliance("a-1").ok().unwrap().name, "Alliance");
    assert_eq!(results.itinerary("x").err(), Some(missing(EntityKind::Itinerary, "x")));
    assert_eq!(results.leg("it-1").err(), Some(missing(EntityKind::Leg, "it-1")));
    assert_eq!(results.segment("").err(), Some(missing(EntityKind::Segment, "")));
    assert_eq!(results.place("P-LAX").err(), Some(missing(EntityKind::Place, "P-LAX")));
    assert_eq!(results.carrier("c-3").err(), Some(missing(EntityKind::Carrier, "c-3")));
    assert_eq!(results.agent("a-1").err(), Some(missing(EntityKind::Agent, "a-1")));
    assert_eq!(results.alliance("c-1").err(), Some(missing(EntityKind::Alliance, "c-1")));
}

#[test]
fn later_snapshot_does_not_fall_back_on_an_earlier_one() {
    let earlier = content();
    let later = decode_ok(
        &response_text("t", "COMPLETE", "REPLACED", &content_text())
            .replace("\"carriers\":{\"c-1\":{\"name\":\"One\"},\"c-2\":17}", "\"carriers\":{\"c-9\":{}}")
            .replace("\"p-lax\":{", "\"p-sfo\":{"),
    )
    .content;
    assert!(earlier.results.carrier("c-1").is_ok());
    assert_eq!(later.results.carrier("c-1").err(), Some(missing(EntityKind::Carrier, "c-1")));
    assert_eq!(later.results.carrier("c-2").err(), Some(missing(EntityKind::Carrier, "c-2")));
    assert!(later.results.carrier("c-9").is_ok());
    assert!(earlier.results.carrier("c-9").is_err());
    // The itinerary of the later snapshot is resolved in the later snapshot.
    let itinerary = later.results.itineraries.get("it-1").unwrap();
    assert_eq!(later.summarize(itinerary).err(), Some(missing(EntityKind::Place, "p-lax")));
    assert!(earlier.summarize(itinerary).is_ok());
}

#[test]
fn summary_of_an_itinerary() {
    let content = content();
    let itinerary = content.results.itineraries.get("it-1").unwrap();
    let summary = content.summarize(itinerary).ok().unwrap();
    assert_eq!(summary.departure.to_string(), "2030-01-02 08:05:00");
    assert_eq!(summary.arrival.to_string(), "2030-01-03 06:45:30");
    assert_eq!(summary.origin, "Los Angeles International");
    assert_eq!(summary.destinations, vec!["Berlin Brandenburg".to_string()]);
    assert_eq!(summary.options.len(), 1);
    assert_eq!(summary.options[0].agent_ids, vec!["agentChain".to_string()]);
    assert_eq!(summary.options[0].price, itinerary.pricing_options[0].price.decimal());
    assert_eq!(summary.options[0].to_text(), "agentChain: 500.00");
    assert_eq!(
        summary.to_line(),
        "2030-01-02 08:05:00 - 2030-01-03 06:45:30 || Los Angeles International -> \
         Berlin Brandenburg || agentChain: 500.00"
    );
    assert_eq!(content.format_itinerary(itinerary).ok().unwrap(), summary.to_line());
}

fn two_leg_content() -> FlightsLiveSearchContent {
    let second_leg = leg_text()
        .replace("\"originPlaceId\":\"p-lax\"", "\"originPlaceId\":\"p-ber\"")
        .replace("\"destinationPlaceId\":\"p-ber\"", "\"destinationPlaceId\":\"p-lax\"")
        .replace("\"day\":3", "\"day\":9");
    let second_option = option_text()
        .replace("\"amount\":\"50000\"", "\"amount\":\"\"")
        .replace("[\"agentChain\"]", "[\"a\",\"b\",\"c\"]");
    let third_option = option_text()
        .replace("\"amount\":\"50000\"", "\"amount\":7")
        .replace("PRICE_UNIT_CENTI", "PRICE_UNIT_MICRO")
        .replace("[\"agentChain\"]", "[]");
    let text = response_text("t", "COMPLETE", "REPLACED", &content_text())
        .replace("\"legs\":{", &format!("\"legs\":{{\"leg-2\":{},", second_leg))
        .replace("\"legIds\":[\"leg-1\"]", "\"legIds\":[\"leg-1\",\"leg-2\"]")
        .replace(
            "\"pricingOptions\":[",
            &format!("\"pricingOptions\":[{},{},", second_option, third_option),
        );
    decode_ok(&text).content
}

#[test]
fn line_of_a_journey_with_two_legs_and_three_options() {
    let content = two_leg_content();
    let itinerary = content.results.itineraries.get("it-1").unwrap();
    assert_eq!(
        content.format_itinerary(itinerary).ok().unwrap(),
        "2030-01-02 08:05:00 - 2030-01-09 06:45:30 || Los Angeles International -> \
         Berlin Brandenburg->Los Angeles International || a.b.c:  / : 0.000007 / \
         agentChain: 500.00"
    );
    let summary = content.summarize(itinerary).ok().unwrap();
    assert_eq!(summary.destinations.len(), 2);
    assert_eq!(summary.options[0].price, None);
    assert_eq!(summary.options[0].to_text(), "a.b.c: ");
    assert_eq!(summary.options[1].to_text(), ": 0.000007");
}

#[test]
fn line_of_an_itinerary_without_options() {
    let content = content();
    let mut itinerary = LiveItinerary {
        pricing_options: vec![],
        leg_ids: vec!["leg-1".to_string()],
        sustainability_data: JsonValue::Null,
    };
    assert_eq!(
        content.format_itinerary(&itinerary).ok().unwrap(),
        "2030-01-02 08:05:00 - 2030-01-03 06:45:30 || Los Angeles International -> \
         Berlin Brandenburg || "
    );
    itinerary.leg_ids.push("leg-1".to_string());
    let summary = content.summarize(&itinerary).ok().unwrap();
    assert_eq!(summary.destinations, vec!["Berlin Brandenburg".to_string(); 2]);
    assert!(summary.options.is_empty());
}

#[test]
fn option_text_joins_agents_and_price() {
    let option = OptionSummary {
        agent_ids: vec!["x".to_string(), "y".to_string()],
        price: Price {
            amount: Some(-5),
            unit: PriceUnit::PriceUnitWhole,
            update_status: PriceUpdateStatus::PriceUpdateStatusPending,
        }
        .decimal(),
    };
    assert_eq!(option.to_text(), "x.y: -5");
}

#[test]
fn summary_reports_the_first_reference_that_does_not_resolve() {
    let content = two_leg_content();
    let legs = |ids: &[&str]| LiveItinerary {
        pricing_options: vec![],
        leg_ids: ids.iter().map(|id| id.to_string()).collect(),
        sustainability_data: JsonValue::Null,
    };
    assert_eq!(
        content.summarize(&legs(&["nope", "leg-1"])).err(),
        Some(missing(EntityKind::Leg, "nope"))
    );
    assert_eq!(
        content.summarize(&legs(&["leg-1", "nope", "never"])).err(),
        Some(missing(EntityKind::Leg, "nope"))
    );
    assert_eq!(
        content.format_itinerary(&legs(&["leg-2", "leg-1", "x"])).err(),
        Some(missing(EntityKind::Leg, "x"))
    );
    let without_origin = decode_ok(
        &response_text("t", "COMPLETE", "REPLACED", &content_text())
            .replace("\"originPlaceId\":\"p-lax\"", "\"originPlaceId\":\"p-sfo\""),
    )
    .content;
    assert_eq!(
        without_origin.summarize(&legs(&["leg-1"])).err(),
        Some(missing(EntityKind::Place, "p-sfo"))
    );
    let without_destination = decode_ok(
        &response_text("t", "COMPLETE", "REPLACED", &content_text())
            .replace("\"destinationPlaceId\":\"p-ber\"", "\"destinationPlaceId\":\"p-txl\""),
    )
    .content;
    assert_eq!(
        without_destination.format_itinerary(&legs(&["leg-1"])).err(),
        Some(missing(EntityKind::Place, "p-txl"))
    );
}

#[test]
fn one_leg_search_from_request_to_summary() {
    let state = SessionState::new(request());
    let call = state.next_call().unwrap();
    assert_eq!(call, Call::Create(request().to_body()));
    let answer = response("tok-1", "INCOMPLETE", "REPLACED");
    let (state, emitted) = state.accept(&answer).ok().unwrap();
    let snapshot = emitted.unwrap();
    assert_eq!(state.next_call(), Some(Call::Poll("tok-1".to_string())));
    let cheapest = snapshot.sorted(LiveSortingOption::Cheapest);
    assert_eq!(cheapest.len(), 1);
    let itinerary = *cheapest[0].as_ref().ok().unwrap();
    assert_eq!(itinerary.leg_ids.len(), 1);
    assert_eq!(itinerary.pricing_options.len(), 1);
    let summary = snapshot.summarize(itinerary).ok().unwrap();
    assert_eq!(summary.origin, "Los Angeles International");
    assert_eq!(summary.destinations, vec!["Berlin Brandenburg".to_string()]);
    assert_eq!(summary.options[0].to_text(), "agentChain: 500.00");
    let (emitted, calls, state) = run(request(), vec![answer, response("tok-2", "COMPLETE", "OMITTED")]);
    assert_eq!(emitted.len(), 1);
    assert_eq!(calls.len(), 2);
    assert!(is_done(&state));
}
