//! The request that starts a search, and its JSON form.

use crate::json::{integer_number, items_model, lemma_view_unfolds, members_model, Json, JsonValue};
use vstd::prelude::*;

verus! {

/// A place of a query: by the provider's entity id, or by IATA code.
#[derive(Debug, PartialEq)]
pub enum QueryPlace {
    EntityId { entity_id: String },
    Iata { iata: String },
}

/// The calendar date of a query leg.
#[derive(Clone, Copy, Debug, PartialEq, Eq)]
pub struct QueryDate {
    pub year: i32,
    pub month: u32,
    pub day: u32,
}

/// One leg of a query: from where, to where, and on which day.
#[derive(Debug, PartialEq)]
pub struct QueryLeg {
    pub origin_place_id: QueryPlace,
    pub destination_place_id: QueryPlace,
    pub date: QueryDate,
}

/// The cabin class to search in.
#[derive(Clone, Copy, Debug, PartialEq, Eq, Structural)]
pub enum CabinClass {
    CabinClassUnspecified,
    CabinClassEconomy,
    CabinClassPremiumEconomy,
    CabinClassBusiness,
    CabinClassFirst,
}

/// The request that starts a search.
#[derive(Debug, PartialEq)]
pub struct CreateRequest {
    pub market: String,
    pub locale: String,
    pub currency: String,
    pub query_legs: Vec<QueryLeg>,
    pub adults: u32,
    pub children_ages: Vec<u32>,
    pub nearby_airports: Option<bool>,
    pub cabin_class: CabinClass,
}

impl QueryPlace {
    /// The JSON form: an object with the one member `entityId` or `iata`.
    pub open spec fn spec_json(self) -> Json {
        match self {
            QueryPlace::EntityId { entity_id } => Json::Object(
                seq![("entityId"@, Json::String(entity_id@))],
            ),
            QueryPlace::Iata { iata } => Json::Object(seq![("iata"@, Json::String(iata@))]),
        }
    }

    /// The place with the IATA code `code`.
    pub fn iata(code: &str) -> (r: QueryPlace)
        ensures
            r matches QueryPlace::Iata { iata } && iata@ == code@,
    {
        QueryPlace::Iata { iata: code.to_owned() }
    }

    /// The place with the provider's entity id `id`.
    pub fn entity_id(id: &str) -> (r: QueryPlace)
        ensures
            r matches QueryPlace::EntityId { entity_id } && entity_id@ == id@,
    {
        QueryPlace::EntityId { entity_id: id.to_owned() }
    }

    /// The JSON form of the place.
    pub fn to_json(&self) -> (r: JsonValue)
        ensures
            r@ == self.spec_json(),
    {
        let mut members: Vec<(String, JsonValue)> = Vec::new();
        match self {
            QueryPlace::EntityId { entity_id } => {
                members.push(("entityId".to_owned(), JsonValue::string(entity_id.as_str())));
            },
            QueryPlace::Iata { iata } => {
                members.push(("iata".to_owned(), JsonValue::string(iata.as_str())));
            },
        }
        let r = JsonValue::Object(members);
        proof {
            lemma_view_unfolds(r);
            assert(members_model(members@) =~= self.spec_json()->Object_0);
        }
        r
    }
}

impl vstd::std_specs::convert::FromSpecImpl<String> for QueryPlace {
    open spec fn obeys_from_spec() -> bool {
        true
    }

    open spec fn from_spec(s: String) -> QueryPlace {
        QueryPlace::Iata { iata: s }
    }
}

impl From<String> for QueryPlace {
    /// A bare string names a place by its IATA code.
    fn from(s: String) -> (r: QueryPlace) {
        QueryPlace::Iata { iata: s }
    }
}

impl<'a> vstd::std_specs::convert::FromSpecImpl<&'a str> for QueryPlace {
    open spec fn obeys_from_spec() -> bool {
        false
    }

    open spec fn from_spec(s: &'a str) -> QueryPlace {
        arbitrary()
    }
}

impl<'a> From<&'a str> for QueryPlace {
    /// A bare string names a place by its IATA code.
    fn from(s: &'a str) -> (r: QueryPlace)
        ensures
            r matches QueryPlace::Iata { iata } && iata@ == s@,
    {
        QueryPlace::iata(s)
    }
}

impl<'a> vstd::std_specs::convert::FromSpecImpl<&'a String> for QueryPlace {
    open spec fn obeys_from_spec() -> bool {
        false
    }

    open spec fn from_spec(s: &'a String) -> QueryPlace {
        arbitrary()
    }
}

impl<'a> From<&'a String> for QueryPlace {
    /// A bare string names a place by its IATA code.
    fn from(s: &'a String) -> (r: QueryPlace)
        ensures
            r matches QueryPlace::Iata { iata } && iata@ == s@,
    {
        QueryPlace::iata(s.as_str())
    }
}

impl QueryDate {
    /// The JSON form: an object with the members `year`, `month` and `day`.
    pub open spec fn spec_json(self) -> Json {
        Json::Object(
            seq![
                ("year"@, Json::Number(integer_number(self.year as int))),
                ("month"@, Json::Number(integer_number(self.month as int))),
                ("day"@, Json::Number(integer_number(self.day as int))),
            ],
        )
    }

    /// The JSON form of the date.
    pub fn to_json(&self) -> (r: JsonValue)
        ensures
            r@ == self.spec_json(),
    {
        let mut members: Vec<(String, JsonValue)> = Vec::new();
        members.push(("year".to_owned(), JsonValue::integer(self.year as i64)));
        members.push(("month".to_owned(), JsonValue::integer(self.month as i64)));
        members.push(("day".to_owned(), JsonValue::integer(self.day as i64)));
        let r = JsonValue::Object(members);
        proof {
            lemma_view_unfolds(r);
            assert(members_model(members@) =~= self.spec_json()->Object_0);
        }
        r
    }
}

/// The JSON form of a query date.
pub fn serialize_date(date: &QueryDate) -> (r: JsonValue)
    ensures
        r@ == date.spec_json(),
{
    date.to_json()
}

impl QueryLeg {
    /// The JSON form: an object with the members `originPlaceId`,
    /// `destinationPlaceId` and `date`.
    pub open spec fn spec_json(self) -> Json {
        Json::Object(
            seq![
                ("originPlaceId"@, self.origin_place_id.spec_json()),
                ("destinationPlaceId"@, self.destination_place_id.spec_json()),
                ("date"@, self.date.spec_json()),
            ],
        )
    }

    /// The JSON form of the leg.
    pub fn to_json(&self) -> (r: JsonValue)
        ensures
            r@ == self.spec_json(),
    {
        let mut members: Vec<(String, JsonValue)> = Vec::new();
        members.push(("originPlaceId".to_owned(), self.origin_place_id.to_json()));
        members.push(("destinationPlaceId".to_owned(), self.destination_place_id.to_json()));
        members.push(("date".to_owned(), serialize_date(&self.date)));
        let r = JsonValue::Object(members);
        proof {
            lemma_view_unfolds(r);
            assert(members_model(members@) =~= self.spec_json()->Object_0);
        }
        r
    }
}

impl CabinClass {
    /// The name of the class on the wire.
    pub open spec fn spec_tag(self) -> Seq<char> {
        match self {
            CabinClass::CabinClassUnspecified => "CABIN_CLASS_UNSPECIFIED"@,
            CabinClass::CabinClassEconomy => "CABIN_CLASS_ECONOMY"@,
            CabinClass::CabinClassPremiumEconomy => "CABIN_CLASS_PREMIUM_ECONOMY"@,
            CabinClass::CabinClassBusiness => "CABIN_CLASS_BUSINESS"@,
            CabinClass::CabinClassFirst => "CABIN_CLASS_FIRST"@,
        }
    }

    /// The name of the class on the wire.
    pub fn tag(self) -> (r: &'static str)
        ensures
            r@ == self.spec_tag(),
    {
        match self {
            CabinClass::CabinClassUnspecified => "CABIN_CLASS_UNSPECIFIED",
            CabinClass::CabinClassEconomy => "CABIN_CLASS_ECONOMY",
            CabinClass::CabinClassPremiumEconomy => "CABIN_CLASS_PREMIUM_ECONOMY",
            CabinClass::CabinClassBusiness => "CABIN_CLASS_BUSINESS",
            CabinClass::CabinClassFirst => "CABIN_CLASS_FIRST",
        }
    }
}

/// The JSON forms of the legs, in order.
pub open spec fn legs_json(legs: Seq<QueryLeg>) -> Seq<Json> {
    Seq::new(legs.len(), |i: int| legs[i].spec_json())
}

/// The JSON numbers of the ages, in order.
pub open spec fn ages_json(ages: Seq<u32>) -> Seq<Json> {
    Seq::new(ages.len(), |i: int| Json::Number(integer_number(ages[i] as int)))
}

impl CreateRequest {
    /// The members that come before `childrenAges`.
    pub open spec fn spec_head(self) -> Seq<(Seq<char>, Json)> {
        seq![
            ("market"@, Json::String(self.market@)),
            ("locale"@, Json::String(self.locale@)),
            ("currency"@, Json::String(self.currency@)),
            ("queryLegs"@, Json::Array(legs_json(self.query_legs@))),
            ("adults"@, Json::Number(integer_number(self.adults as int))),
        ]
    }

    /// The member `childrenAges`, which is left out where there are no
    /// children.
    pub open spec fn spec_children(self) -> Seq<(Seq<char>, Json)> {
        if self.children_ages@.len() == 0 {
            Seq::empty()
        } else {
            seq![("childrenAges"@, Json::Array(ages_json(self.children_ages@)))]
        }
    }

    /// The members that come after `childrenAges`. An absent
    /// `nearbyAirports` is written as `null`.
    pub open spec fn spec_tail(self) -> Seq<(Seq<char>, Json)> {
        seq![
            (
                "nearbyAirports"@,
                match self.nearby_airports {
                    Some(b) => Json::Bool(b),
                    None => Json::Null,
                },
            ),
            ("cabinClass"@, Json::String(self.cabin_class.spec_tag())),
        ]
    }

    /// The JSON form of the request.
    pub open spec fn spec_json(self) -> Json {
        Json::Object(self.spec_head() + self.spec_children() + self.spec_tail())
    }

    /// The body of the create call: an object whose one member, `query`,
    /// is the request.
    pub open spec fn spec_body(self) -> Json {
        Json::Object(seq![("query"@, self.spec_json())])
    }

    fn legs_to_json(&self) -> (r: JsonValue)
        ensures
            r@ == Json::Array(legs_json(self.query_legs@)),
    {
        let mut items: Vec<JsonValue> = Vec::new();
        let mut i: usize = 0;
        while i < self.query_legs.len()
            invariant
                i <= self.query_legs.len(),
                items@.len() == i,
                forall|k: int| 0 <= k < i ==> (#[trigger] items@[k])@ == self.query_legs@[k].spec_json(),
            decreases self.query_legs.len() - i,
        {
            items.push(self.query_legs[i].to_json());
            i += 1;
        }
        let r = JsonValue::Array(items);
        proof {
            lemma_view_unfolds(r);
            assert(items_model(items@) =~= legs_json(self.query_legs@));
        }
        r
    }

    fn ages_to_json(&self) -> (r: JsonValue)
        ensures
            r@ == Json::Array(ages_json(self.children_ages@)),
    {
        let mut items: Vec<JsonValue> = Vec::new();
        let mut i: usize = 0;
        while i < self.children_ages.len()
            invariant
                i <= self.children_ages.len(),
                items@.len() == i,
                forall|k: int|
                    0 <= k < i ==> (#[trigger] items@[k])@ == Json::Number(
                        integer_number(self.children_ages@[k] as int),
                    ),
            decreases self.children_ages.len() - i,
        {
            items.push(JsonValue::integer(self.children_ages[i] as i64));
            i += 1;
        }
        let r = JsonValue::Array(items);
        proof {
            lemma_view_unfolds(r);
            assert(items_model(items@) =~= ages_json(self.children_ages@));
        }
        r
    }

    /// The JSON form of the request.
    pub fn to_json(&self) -> (r: JsonValue)
        ensures
            r@ == self.spec_json(),
    {
        let mut members: Vec<(String, JsonValue)> = Vec::new();
        members.push(("market".to_owned(), JsonValue::string(self.market.as_str())));
        members.push(("locale".to_owned(), JsonValue::string(self.locale.as_str())));
        members.push(("currency".to_owned(), JsonValue::string(self.currency.as_str())));
        members.push(("queryLegs".to_owned(), self.legs_to_json()));
        members.push(("adults".to_owned(), JsonValue::integer(self.adults as i64)));
        if self.children_ages.len() > 0 {
            members.push(("childrenAges".to_owned(), self.ages_to_json()));
        }
        let nearby = match self.nearby_airports {
            Some(b) => JsonValue::Bool(b),
            None => JsonValue::Null,
        };
        members.push(("nearbyAirports".to_owned(), nearby));
        members.push(("cabinClass".to_owned(), JsonValue::string(self.cabin_class.tag())));
        let r = JsonValue::Object(members);
        proof {
            lemma_view_unfolds(r);
            assert(members_model(members@) =~= self.spec_json()->Object_0);
        }
        r
    }

    /// The body of the create call for this request.
    pub fn to_body(&self) -> (r: JsonValue)
        ensures
            r@ == self.spec_body(),
    {
        let mut members: Vec<(String, JsonValue)> = Vec::new();
        members.push(("query".to_owned(), self.to_json()));
        let r = JsonValue::Object(members);
        proof {
            lemma_view_unfolds(r);
            assert(members_model(members@) =~= self.spec_body()->Object_0);
        }
        r
    }
}

impl Default for CreateRequest {
    /// A request without legs: one adult, economy class, nearby airports
    /// included, for the market `UK` in `en-GB` and `EUR`.
    fn default() -> (r: CreateRequest)
        ensures
            r.market@ == "UK"@,
            r.locale@ == "en-GB"@,
            r.currency@ == "EUR"@,
            r.query_legs@.len() == 0,
            r.adults == 1,
            r.children_ages@.len() == 0,
            r.nearby_airports == Some(true),
            r.cabin_class == CabinClass::CabinClassEconomy,
    {
        CreateRequest {
            market: "UK".to_owned(),
            locale: "en-GB".to_owned(),
            currency: "EUR".to_owned(),
            query_legs: Vec::new(),
            adults: 1,
            children_ages: Vec::new(),
            nearby_airports: Some(true),
            cabin_class: CabinClass::CabinClassEconomy,
        }
    }
}

} // verus!
