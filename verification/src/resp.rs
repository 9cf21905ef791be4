//! The response of a search call: the envelope, the result graph it carries
//! and the entities of that graph, each with its mathematical model.

use crate::decimal::ExactDecimal;
use crate::decode::DecodeError;
use crate::json::{same_text, Json, JsonNumber, JsonValue};
use crate::table::Table;
use crate::text::{padded, parse_i64, push_padded, spec_parse_i64};
use vstd::prelude::*;
use vstd::string::*;

verus! {

/// How far the provider has come with the search.
#[derive(Clone, Copy, Debug, PartialEq, Eq, Structural)]
pub enum ResultStatus {
    ResultStatusUnspecified,
    ResultStatusComplete,
    ResultStatusIncomplete,
    ResultStatusFailed,
}

/// Whether the content of a response differs from what was sent before.
#[derive(Clone, Copy, Debug, PartialEq, Eq, Structural)]
pub enum ResultAction {
    ResultActionUnspecified,
    ResultActionReplaced,
    ResultActionNotModified,
    ResultActionOmitted,
}

/// The scale in which a price amount is expressed.
#[derive(Clone, Copy, Debug, PartialEq, Eq, Structural)]
pub enum PriceUnit {
    PriceUnitUnspecified,
    PriceUnitWhole,
    PriceUnitCenti,
    PriceUnitMilli,
    PriceUnitMicro,
}

/// Whether a price is still being refreshed.
#[derive(Clone, Copy, Debug, PartialEq, Eq, Structural)]
pub enum PriceUpdateStatus {
    PriceUpdateStatusUnspecified,
    PriceUpdateStatusPending,
    PriceUpdateStatusCurrent,
}

/// One of the provider's three rankings of the itineraries.
#[derive(Clone, Copy, Debug, PartialEq, Eq, Structural)]
pub enum LiveSortingOption {
    Best,
    Cheapest,
    Fastest,
}

/// How the parts of a journey sold by one pricing option connect.
#[derive(Clone, Copy, Debug, PartialEq, Eq, Structural)]
pub enum LiveTransferType {
    TransferTypeUnspecified,
    TransferTypeManaged,
    TransferTypeSelfTransfer,
    TransferTypeProtectedSelfTransfer,
}

/// What kind of place a place is.
#[derive(Clone, Copy, Debug, PartialEq, Eq, Structural)]
pub enum LivePlaceType {
    PlaceTypeUnspecified,
    PlaceTypeAirport,
    PlaceTypeCity,
    PlaceTypeCountry,
    PlaceTypeContinent,
    PlaceTypeIsland,
}

/// A monetary amount: an integer, absent while the provider has none, and
/// the unit that scales it.
#[derive(Clone, Copy, Debug, PartialEq, Eq)]
pub struct Price {
    pub amount: Option<i64>,
    pub unit: PriceUnit,
    pub update_status: PriceUpdateStatus,
}

/// A count of itineraries and the lowest price among them.
#[derive(Clone, Copy, Debug, PartialEq, Eq)]
pub struct LiveItinerarySummary {
    pub count: i32,
    pub min_price: Price,
}

/// Statistics of the itineraries with a given number of stops, by ticket type.
#[derive(Clone, Copy, Debug, PartialEq, Eq)]
pub struct LiveItineraryStopTicketStats {
    pub single_ticket: LiveItinerarySummary,
    pub multi_ticket_non_npt: LiveItinerarySummary,
    pub multi_ticket_npt: LiveItinerarySummary,
}

/// Statistics of the itineraries with a given number of stops.
#[derive(Clone, Copy, Debug, PartialEq, Eq)]
pub struct LiveItineraryStopSummaryStats {
    pub total: LiveItinerarySummary,
    pub ticket_types: LiveItineraryStopTicketStats,
}

/// Statistics of the itineraries by number of stops.
#[derive(Clone, Copy, Debug, PartialEq, Eq)]
pub struct LiveItineraryStopStats {
    pub direct: LiveItineraryStopSummaryStats,
    pub one_stop: LiveItineraryStopSummaryStats,
    pub two_plus_stops: LiveItineraryStopSummaryStats,
}

/// Statistics over all itineraries of a result.
#[derive(Clone, Copy, Debug, PartialEq, Eq)]
pub struct LiveItineraryStats {
    pub min_duration: i32,
    pub max_duration: i32,
    pub total: LiveItinerarySummary,
    pub stops: LiveItineraryStopStats,
    pub has_change_airport_transfer: bool,
}

/// The statistics part of a result.
#[derive(Clone, Copy, Debug, PartialEq, Eq)]
pub struct LiveStats {
    pub itineraries: Option<LiveItineraryStats>,
}

/// A local calendar date and time of day, as the provider gives it: no time
/// zone, and no field is checked against a calendar.
#[derive(Clone, Copy, Debug, PartialEq, Eq)]
pub struct LiveLocalDateTime {
    pub year: i32,
    pub month: i32,
    pub day: i32,
    pub hour: i32,
    pub minute: i32,
    pub second: i32,
}

/// A position on the globe; each coordinate is carried as the number that
/// the provider sent.
#[derive(Clone, Copy, Debug, PartialEq, Eq)]
pub struct LiveCoordinates {
    pub latitude: JsonNumber,
    pub longitude: JsonNumber,
}

/// An airline alliance.
#[derive(Debug, PartialEq)]
pub struct LiveAlliance {
    pub name: String,
}

/// One entry of a ranking: the provider's score and the itinerary it ranks.
#[derive(Debug, PartialEq)]
pub struct LiveSortingOptionItem {
    pub score: JsonNumber,
    pub itinerary_id: String,
}

/// The three rankings of a result.
#[derive(Debug, PartialEq)]
pub struct LiveSortingOptions {
    pub best: Vec<LiveSortingOptionItem>,
    pub cheapest: Vec<LiveSortingOptionItem>,
    pub fastest: Vec<LiveSortingOptionItem>,
}

/// One way to buy an itinerary: a price and the chain of agents selling it.
#[derive(Debug, PartialEq)]
pub struct LivePricingOption {
    pub price: Price,
    pub agent_ids: Vec<String>,
    pub items: JsonValue,
    pub transfer_type: LiveTransferType,
    pub id: String,
    pub pricing_option_fare: JsonValue,
}

/// A travel proposal: its legs in journey order and the ways to buy it.
#[derive(Debug, PartialEq)]
pub struct LiveItinerary {
    pub pricing_options: Vec<LivePricingOption>,
    pub leg_ids: Vec<String>,
    pub sustainability_data: JsonValue,
}

/// One leg of a journey, from an origin place to a destination place.
#[derive(Debug, PartialEq)]
pub struct LiveLeg {
    pub origin_place_id: String,
    pub destination_place_id: String,
    pub departure_date_time: LiveLocalDateTime,
    pub arrival_date_time: LiveLocalDateTime,
    pub duration_in_minutes: i32,
    pub stop_count: i32,
    pub marketing_carrier_ids: Vec<String>,
    pub operating_carrier_ids: Vec<String>,
    pub segment_ids: Vec<String>,
}

/// A place of the provider's place hierarchy.
#[derive(Debug, PartialEq)]
pub struct LivePlace {
    pub name: String,
    pub place_type: LivePlaceType,
    pub iata: Option<String>,
    pub coordinates: Option<LiveCoordinates>,
    pub entity_id: String,
    pub parent_id: Option<String>,
}

/// The entities of one snapshot, each kind keyed by its id.
pub struct LiveSearchResults {
    pub itineraries: Table<LiveItinerary>,
    pub legs: Table<LiveLeg>,
    pub segments: Table<JsonValue>,
    pub places: Table<LivePlace>,
    pub carriers: Table<JsonValue>,
    pub agents: Table<JsonValue>,
    pub alliances: Table<LiveAlliance>,
}

/// One snapshot of a search: the entities, their statistics and rankings.
pub struct FlightsLiveSearchContent {
    pub results: LiveSearchResults,
    pub stats: LiveStats,
    pub sorting_options: LiveSortingOptions,
}

/// The envelope of a create or poll response.
pub struct SearchCreateResponse {
    pub session_token: String,
    pub status: ResultStatus,
    pub action: ResultAction,
    pub content: FlightsLiveSearchContent,
}

/// The response of a poll call has the shape of the response of a create call.
pub type SearchPollResponse = SearchCreateResponse;

/// The model of a [`LiveAlliance`].
pub ghost struct AllianceModel {
    pub name: Seq<char>,
}

/// The model of a [`LiveSortingOptionItem`].
pub ghost struct SortingItemModel {
    pub score: JsonNumber,
    pub itinerary_id: Seq<char>,
}

/// The model of a [`LiveSortingOptions`].
pub ghost struct SortingOptionsModel {
    pub best: Seq<SortingItemModel>,
    pub cheapest: Seq<SortingItemModel>,
    pub fastest: Seq<SortingItemModel>,
}

/// The model of a [`LivePricingOption`].
pub ghost struct PricingOptionModel {
    pub price: Price,
    pub agent_ids: Seq<Seq<char>>,
    pub items: Json,
    pub transfer_type: LiveTransferType,
    pub id: Seq<char>,
    pub pricing_option_fare: Json,
}

/// The model of a [`LiveItinerary`].
pub ghost struct ItineraryModel {
    pub pricing_options: Seq<PricingOptionModel>,
    pub leg_ids: Seq<Seq<char>>,
    pub sustainability_data: Json,
}

/// The model of a [`LiveLeg`].
pub ghost struct LegModel {
    pub origin_place_id: Seq<char>,
    pub destination_place_id: Seq<char>,
    pub departure_date_time: LiveLocalDateTime,
    pub arrival_date_time: LiveLocalDateTime,
    pub duration_in_minutes: i32,
    pub stop_count: i32,
    pub marketing_carrier_ids: Seq<Seq<char>>,
    pub operating_carrier_ids: Seq<Seq<char>>,
    pub segment_ids: Seq<Seq<char>>,
}

/// The model of a [`LivePlace`].
pub ghost struct PlaceModel {
    pub name: Seq<char>,
    pub place_type: LivePlaceType,
    pub iata: Option<Seq<char>>,
    pub coordinates: Option<LiveCoordinates>,
    pub entity_id: Seq<char>,
    pub parent_id: Option<Seq<char>>,
}

/// The model of a [`LiveSearchResults`].
pub ghost struct ResultsModel {
    pub itineraries: Map<Seq<char>, ItineraryModel>,
    pub legs: Map<Seq<char>, LegModel>,
    pub segments: Map<Seq<char>, Json>,
    pub places: Map<Seq<char>, PlaceModel>,
    pub carriers: Map<Seq<char>, Json>,
    pub agents: Map<Seq<char>, Json>,
    pub alliances: Map<Seq<char>, AllianceModel>,
}

/// The model of a [`FlightsLiveSearchContent`].
pub ghost struct ContentModel {
    pub results: ResultsModel,
    pub stats: LiveStats,
    pub sorting_options: SortingOptionsModel,
}

/// The model of a [`SearchCreateResponse`].
pub ghost struct ResponseModel {
    pub session_token: Seq<char>,
    pub status: ResultStatus,
    pub action: ResultAction,
    pub content: ContentModel,
}

impl DeepView for ResultStatus {
    type V = ResultStatus;

    open spec fn deep_view(&self) -> ResultStatus {
        *self
    }
}

impl DeepView for ResultAction {
    type V = ResultAction;

    open spec fn deep_view(&self) -> ResultAction {
        *self
    }
}

impl DeepView for PriceUnit {
    type V = PriceUnit;

    open spec fn deep_view(&self) -> PriceUnit {
        *self
    }
}

impl DeepView for PriceUpdateStatus {
    type V = PriceUpdateStatus;

    open spec fn deep_view(&self) -> PriceUpdateStatus {
        *self
    }
}

impl DeepView for LiveSortingOption {
    type V = LiveSortingOption;

    open spec fn deep_view(&self) -> LiveSortingOption {
        *self
    }
}

impl DeepView for LiveTransferType {
    type V = LiveTransferType;

    open spec fn deep_view(&self) -> LiveTransferType {
        *self
    }
}

impl DeepView for LivePlaceType {
    type V = LivePlaceType;

    open spec fn deep_view(&self) -> LivePlaceType {
        *self
    }
}

impl DeepView for Price {
    type V = Price;

    open spec fn deep_view(&self) -> Price {
        *self
    }
}

impl DeepView for LiveItinerarySummary {
    type V = LiveItinerarySummary;

    open spec fn deep_view(&self) -> LiveItinerarySummary {
        *self
    }
}

impl DeepView for LiveItineraryStopTicketStats {
    type V = LiveItineraryStopTicketStats;

    open spec fn deep_view(&self) -> LiveItineraryStopTicketStats {
        *self
    }
}

impl DeepView for LiveItineraryStopSummaryStats {
    type V = LiveItineraryStopSummaryStats;

    open spec fn deep_view(&self) -> LiveItineraryStopSummaryStats {
        *self
    }
}

impl DeepView for LiveItineraryStopStats {
    type V = LiveItineraryStopStats;

    open spec fn deep_view(&self) -> LiveItineraryStopStats {
        *self
    }
}

impl DeepView for LiveItineraryStats {
    type V = LiveItineraryStats;

    open spec fn deep_view(&self) -> LiveItineraryStats {
        *self
    }
}

impl DeepView for LiveStats {
    type V = LiveStats;

    open spec fn deep_view(&self) -> LiveStats {
        *self
    }
}

impl DeepView for LiveLocalDateTime {
    type V = LiveLocalDateTime;

    open spec fn deep_view(&self) -> LiveLocalDateTime {
        *self
    }
}

impl DeepView for LiveCoordinates {
    type V = LiveCoordinates;

    open spec fn deep_view(&self) -> LiveCoordinates {
        *self
    }
}

impl DeepView for LiveAlliance {
    type V = AllianceModel;

    open spec fn deep_view(&self) -> AllianceModel {
        AllianceModel { name: self.name@ }
    }
}

impl DeepView for LiveSortingOptionItem {
    type V = SortingItemModel;

    open spec fn deep_view(&self) -> SortingItemModel {
        SortingItemModel { score: self.score, itinerary_id: self.itinerary_id@ }
    }
}

impl DeepView for LiveSortingOptions {
    type V = SortingOptionsModel;

    open spec fn deep_view(&self) -> SortingOptionsModel {
        SortingOptionsModel {
            best: self.best.deep_view(),
            cheapest: self.cheapest.deep_view(),
            fastest: self.fastest.deep_view(),
        }
    }
}

impl DeepView for LivePricingOption {
    type V = PricingOptionModel;

    open spec fn deep_view(&self) -> PricingOptionModel {
        PricingOptionModel {
            price: self.price,
            agent_ids: self.agent_ids.deep_view(),
            items: self.items@,
            transfer_type: self.transfer_type,
            id: self.id@,
            pricing_option_fare: self.pricing_option_fare@,
        }
    }
}

impl DeepView for LiveItinerary {
    type V = ItineraryModel;

    open spec fn deep_view(&self) -> ItineraryModel {
        ItineraryModel {
            pricing_options: self.pricing_options.deep_view(),
            leg_ids: self.leg_ids.deep_view(),
            sustainability_data: self.sustainability_data@,
        }
    }
}

impl DeepView for LiveLeg {
    type V = LegModel;

    open spec fn deep_view(&self) -> LegModel {
        LegModel {
            origin_place_id: self.origin_place_id@,
            destination_place_id: self.destination_place_id@,
            departure_date_time: self.departure_date_time,
            arrival_date_time: self.arrival_date_time,
            duration_in_minutes: self.duration_in_minutes,
            stop_count: self.stop_count,
            marketing_carrier_ids: self.marketing_carrier_ids.deep_view(),
            operating_carrier_ids: self.operating_carrier_ids.deep_view(),
            segment_ids: self.segment_ids.deep_view(),
        }
    }
}

impl DeepView for LivePlace {
    type V = PlaceModel;

    open spec fn deep_view(&self) -> PlaceModel {
        PlaceModel {
            name: self.name@,
            place_type: self.place_type,
            iata: self.iata.deep_view(),
            coordinates: self.coordinates,
            entity_id: self.entity_id@,
            parent_id: self.parent_id.deep_view(),
        }
    }
}

impl DeepView for LiveSearchResults {
    type V = ResultsModel;

    open spec fn deep_view(&self) -> ResultsModel {
        ResultsModel {
            itineraries: self.itineraries.deep_view(),
            legs: self.legs.deep_view(),
            segments: self.segments.deep_view(),
            places: self.places.deep_view(),
            carriers: self.carriers.deep_view(),
            agents: self.agents.deep_view(),
            alliances: self.alliances.deep_view(),
        }
    }
}

impl DeepView for FlightsLiveSearchContent {
    type V = ContentModel;

    open spec fn deep_view(&self) -> ContentModel {
        ContentModel {
            results: self.results.deep_view(),
            stats: self.stats,
            sorting_options: self.sorting_options.deep_view(),
        }
    }
}

impl DeepView for SearchCreateResponse {
    type V = ResponseModel;

    open spec fn deep_view(&self) -> ResponseModel {
        ResponseModel {
            session_token: self.session_token@,
            status: self.status,
            action: self.action,
            content: self.content.deep_view(),
        }
    }
}

impl PriceUnit {
    /// The number of decimal places of the unit, where it has one.
    pub open spec fn spec_exponent(self) -> Option<nat> {
        match self {
            PriceUnit::PriceUnitUnspecified => None,
            PriceUnit::PriceUnitWhole => Some(0nat),
            PriceUnit::PriceUnitCenti => Some(2nat),
            PriceUnit::PriceUnitMilli => Some(3nat),
            PriceUnit::PriceUnitMicro => Some(6nat),
        }
    }

    /// The number of decimal places of the unit, where it has one.
    pub fn exponent(self) -> (r: Option<u32>)
        ensures
            match r {
                Some(e) => self.spec_exponent() == Some(e as nat),
                None => self.spec_exponent() is None,
            },
    {
        match self {
            PriceUnit::PriceUnitUnspecified => None,
            PriceUnit::PriceUnitWhole => Some(0),
            PriceUnit::PriceUnitCenti => Some(2),
            PriceUnit::PriceUnitMilli => Some(3),
            PriceUnit::PriceUnitMicro => Some(6),
        }
    }
}

impl Price {
    /// The value of the price: `amount` with the unit's number of decimal
    /// places, and unknown where the amount is absent or the unit unspecified.
    pub open spec fn spec_decimal(self) -> Option<(int, nat)> {
        match (self.amount, self.unit.spec_exponent()) {
            (Some(amount), Some(places)) => Some((amount as int, places)),
            _ => None,
        }
    }

    /// Decodes the price exactly: the result is `amount × 10^-places`, held
    /// as the pair of `amount` and `places`, with no rounding.
    pub fn decimal(&self) -> (r: Option<ExactDecimal>)
        ensures
            r.deep_view() == self.spec_decimal(),
    {
        match self.amount {
            Some(amount) => match self.unit.exponent() {
                Some(places) => ExactDecimal::new(amount, places),
                None => None,
            },
            None => None,
        }
    }
}

/// The amount that the member `amount` of a price stands for. The amount
/// comes as a number or as a string of decimal digits, and the empty string
/// stands for an amount that is absent for the time being.
pub open spec fn spec_price_amount(j: Json) -> Result<Option<i64>, DecodeError> {
    match j {
        Json::String(s) => if s.len() == 0 {
            Ok(None)
        } else {
            match spec_parse_i64(s) {
                Some(amount) => Ok(Some(amount)),
                None => Err(DecodeError::BadPrice),
            }
        },
        Json::Number(n) => match n.spec_as_i64() {
            Some(amount) => Ok(Some(amount)),
            None => Err(DecodeError::BadPrice),
        },
        _ => Err(DecodeError::WrongType),
    }
}

/// Decodes the member `amount` of a price.
pub fn deserialize_price_amount(v: &JsonValue) -> (r: Result<Option<i64>, DecodeError>)
    ensures
        r == spec_price_amount(v@),
{
    match v {
        JsonValue::String(s) => {
            if s.as_str().is_empty() {
                return Ok(None);
            }
            match parse_i64(s.as_str()) {
                Some(amount) => Ok(Some(amount)),
                None => Err(DecodeError::BadPrice),
            }
        },
        JsonValue::Number(n) => match n.as_i64() {
            Some(amount) => Ok(Some(amount)),
            None => Err(DecodeError::BadPrice),
        },
        _ => Err(DecodeError::WrongType),
    }
}

impl ResultStatus {
    /// The status that the wire name `tag` names.
    pub open spec fn spec_from_tag(tag: Seq<char>) -> Option<ResultStatus> {
        if tag == "RESULT_STATUS_UNSPECIFIED"@ {
            Some(ResultStatus::ResultStatusUnspecified)
        } else if tag == "RESULT_STATUS_COMPLETE"@ {
            Some(ResultStatus::ResultStatusComplete)
        } else if tag == "RESULT_STATUS_INCOMPLETE"@ {
            Some(ResultStatus::ResultStatusIncomplete)
        } else if tag == "RESULT_STATUS_FAILED"@ {
            Some(ResultStatus::ResultStatusFailed)
        } else {
            None
        }
    }

    /// The status that the wire name `tag` names.
    pub fn from_tag(tag: &str) -> (r: Option<ResultStatus>)
        ensures
            r == Self::spec_from_tag(tag@),
    {
        if same_text(tag, "RESULT_STATUS_UNSPECIFIED") {
            Some(ResultStatus::ResultStatusUnspecified)
        } else if same_text(tag, "RESULT_STATUS_COMPLETE") {
            Some(ResultStatus::ResultStatusComplete)
        } else if same_text(tag, "RESULT_STATUS_INCOMPLETE") {
            Some(ResultStatus::ResultStatusIncomplete)
        } else if same_text(tag, "RESULT_STATUS_FAILED") {
            Some(ResultStatus::ResultStatusFailed)
        } else {
            None
        }
    }
}

impl ResultAction {
    /// The action that the wire name `tag` names.
    pub open spec fn spec_from_tag(tag: Seq<char>) -> Option<ResultAction> {
        if tag == "RESULT_ACTION_UNSPECIFIED"@ {
            Some(ResultAction::ResultActionUnspecified)
        } else if tag == "RESULT_ACTION_REPLACED"@ {
            Some(ResultAction::ResultActionReplaced)
        } else if tag == "RESULT_ACTION_NOT_MODIFIED"@ {
            Some(ResultAction::ResultActionNotModified)
        } else if tag == "RESULT_ACTION_OMITTED"@ {
            Some(ResultAction::ResultActionOmitted)
        } else {
            None
        }
    }

    /// The action that the wire name `tag` names.
    pub fn from_tag(tag: &str) -> (r: Option<ResultAction>)
        ensures
            r == Self::spec_from_tag(tag@),
    {
        if same_text(tag, "RESULT_ACTION_UNSPECIFIED") {
            Some(ResultAction::ResultActionUnspecified)
        } else if same_text(tag, "RESULT_ACTION_REPLACED") {
            Some(ResultAction::ResultActionReplaced)
        } else if same_text(tag, "RESULT_ACTION_NOT_MODIFIED") {
            Some(ResultAction::ResultActionNotModified)
        } else if same_text(tag, "RESULT_ACTION_OMITTED") {
            Some(ResultAction::ResultActionOmitted)
        } else {
            None
        }
    }
}

impl PriceUnit {
    /// The unit that the wire name `tag` names.
    pub open spec fn spec_from_tag(tag: Seq<char>) -> Option<PriceUnit> {
        if tag == "PRICE_UNIT_UNSPECIFIED"@ {
            Some(PriceUnit::PriceUnitUnspecified)
        } else if tag == "PRICE_UNIT_WHOLE"@ {
            Some(PriceUnit::PriceUnitWhole)
        } else if tag == "PRICE_UNIT_CENTI"@ {
            Some(PriceUnit::PriceUnitCenti)
        } else if tag == "PRICE_UNIT_MILLI"@ {
            Some(PriceUnit::PriceUnitMilli)
        } else if tag == "PRICE_UNIT_MICRO"@ {
            Some(PriceUnit::PriceUnitMicro)
        } else {
            None
        }
    }

    /// The unit that the wire name `tag` names.
    pub fn from_tag(tag: &str) -> (r: Option<PriceUnit>)
        ensures
            r == Self::spec_from_tag(tag@),
    {
        if same_text(tag, "PRICE_UNIT_UNSPECIFIED") {
            Some(PriceUnit::PriceUnitUnspecified)
        } else if same_text(tag, "PRICE_UNIT_WHOLE") {
            Some(PriceUnit::PriceUnitWhole)
        } else if same_text(tag, "PRICE_UNIT_CENTI") {
            Some(PriceUnit::PriceUnitCenti)
        } else if same_text(tag, "PRICE_UNIT_MILLI") {
            Some(PriceUnit::PriceUnitMilli)
        } else if same_text(tag, "PRICE_UNIT_MICRO") {
            Some(PriceUnit::PriceUnitMicro)
        } else {
            None
        }
    }
}

impl PriceUpdateStatus {
    /// The update status that the wire name `tag` names.
    pub open spec fn spec_from_tag(tag: Seq<char>) -> Option<PriceUpdateStatus> {
        if tag == "PRICE_UPDATE_STATUS_UNSPECIFIED"@ {
            Some(PriceUpdateStatus::PriceUpdateStatusUnspecified)
        } else if tag == "PRICE_UPDATE_STATUS_PENDING"@ {
            Some(PriceUpdateStatus::PriceUpdateStatusPending)
        } else if tag == "PRICE_UPDATE_STATUS_CURRENT"@ {
            Some(PriceUpdateStatus::PriceUpdateStatusCurrent)
        } else {
            None
        }
    }

    /// The update status that the wire name `tag` names.
    pub fn from_tag(tag: &str) -> (r: Option<PriceUpdateStatus>)
        ensures
            r == Self::spec_from_tag(tag@),
    {
        if same_text(tag, "PRICE_UPDATE_STATUS_UNSPECIFIED") {
            Some(PriceUpdateStatus::PriceUpdateStatusUnspecified)
        } else if same_text(tag, "PRICE_UPDATE_STATUS_PENDING") {
            Some(PriceUpdateStatus::PriceUpdateStatusPending)
        } else if same_text(tag, "PRICE_UPDATE_STATUS_CURRENT") {
            Some(PriceUpdateStatus::PriceUpdateStatusCurrent)
        } else {
            None
        }
    }
}

impl LiveSortingOption {
    /// The ranking that the wire name `tag` names.
    pub open spec fn spec_from_tag(tag: Seq<char>) -> Option<LiveSortingOption> {
        if tag == "BEST"@ {
            Some(LiveSortingOption::Best)
        } else if tag == "CHEAPEST"@ {
            Some(LiveSortingOption::Cheapest)
        } else if tag == "FASTEST"@ {
            Some(LiveSortingOption::Fastest)
        } else {
            None
        }
    }

    /// The ranking that the wire name `tag` names.
    pub fn from_tag(tag: &str) -> (r: Option<LiveSortingOption>)
        ensures
            r == Self::spec_from_tag(tag@),
    {
        if same_text(tag, "BEST") {
            Some(LiveSortingOption::Best)
        } else if same_text(tag, "CHEAPEST") {
            Some(LiveSortingOption::Cheapest)
        } else if same_text(tag, "FASTEST") {
            Some(LiveSortingOption::Fastest)
        } else {
            None
        }
    }
}

impl LiveTransferType {
    /// The transfer type that the wire name `tag` names.
    pub open spec fn spec_from_tag(tag: Seq<char>) -> Option<LiveTransferType> {
        if tag == "TRANSFER_TYPE_UNSPECIFIED"@ {
            Some(LiveTransferType::TransferTypeUnspecified)
        } else if tag == "TRANSFER_TYPE_MANAGED"@ {
            Some(LiveTransferType::TransferTypeManaged)
        } else if tag == "TRANSFER_TYPE_SELF_TRANSFER"@ {
            Some(LiveTransferType::TransferTypeSelfTransfer)
        } else if tag == "TRANSFER_TYPE_PROTECTED_SELF_TRANSFER"@ {
            Some(LiveTransferType::TransferTypeProtectedSelfTransfer)
        } else {
            None
        }
    }

    /// The transfer type that the wire name `tag` names.
    pub fn from_tag(tag: &str) -> (r: Option<LiveTransferType>)
        ensures
            r == Self::spec_from_tag(tag@),
    {
        if same_text(tag, "TRANSFER_TYPE_UNSPECIFIED") {
            Some(LiveTransferType::TransferTypeUnspecified)
        } else if same_text(tag, "TRANSFER_TYPE_MANAGED") {
            Some(LiveTransferType::TransferTypeManaged)
        } else if same_text(tag, "TRANSFER_TYPE_SELF_TRANSFER") {
            Some(LiveTransferType::TransferTypeSelfTransfer)
        } else if same_text(tag, "TRANSFER_TYPE_PROTECTED_SELF_TRANSFER") {
            Some(LiveTransferType::TransferTypeProtectedSelfTransfer)
        } else {
            None
        }
    }
}

impl LivePlaceType {
    /// The place type that the wire name `tag` names.
    pub open spec fn spec_from_tag(tag: Seq<char>) -> Option<LivePlaceType> {
        if tag == "PLACE_TYPE_UNSPECIFIED"@ {
            Some(LivePlaceType::PlaceTypeUnspecified)
        } else if tag == "PLACE_TYPE_AIRPORT"@ {
            Some(LivePlaceType::PlaceTypeAirport)
        } else if tag == "PLACE_TYPE_CITY"@ {
            Some(LivePlaceType::PlaceTypeCity)
        } else if tag == "PLACE_TYPE_COUNTRY"@ {
            Some(LivePlaceType::PlaceTypeCountry)
        } else if tag == "PLACE_TYPE_CONTINENT"@ {
            Some(LivePlaceType::PlaceTypeContinent)
        } else if tag == "PLACE_TYPE_ISLAND"@ {
            Some(LivePlaceType::PlaceTypeIsland)
        } else {
            None
        }
    }

    /// The place type that the wire name `tag` names.
    pub fn from_tag(tag: &str) -> (r: Option<LivePlaceType>)
        ensures
            r == Self::spec_from_tag(tag@),
    {
        if same_text(tag, "PLACE_TYPE_UNSPECIFIED") {
            Some(LivePlaceType::PlaceTypeUnspecified)
        } else if same_text(tag, "PLACE_TYPE_AIRPORT") {
            Some(LivePlaceType::PlaceTypeAirport)
        } else if same_text(tag, "PLACE_TYPE_CITY") {
            Some(LivePlaceType::PlaceTypeCity)
        } else if same_text(tag, "PLACE_TYPE_COUNTRY") {
            Some(LivePlaceType::PlaceTypeCountry)
        } else if same_text(tag, "PLACE_TYPE_CONTINENT") {
            Some(LivePlaceType::PlaceTypeContinent)
        } else if same_text(tag, "PLACE_TYPE_ISLAND") {
            Some(LivePlaceType::PlaceTypeIsland)
        } else {
            None
        }
    }
}

impl LiveLocalDateTime {
    /// The date and time as text: the year in at least four digits, the
    /// other fields in at least two, as in `2024-03-09 07:05:00`.
    pub open spec fn spec_text(self) -> Seq<char> {
        padded(self.year as int, 4) + "-"@ + padded(self.month as int, 2) + "-"@ + padded(
            self.day as int,
            2,
        ) + " "@ + padded(self.hour as int, 2) + ":"@ + padded(self.minute as int, 2) + ":"@
            + padded(self.second as int, 2)
    }

    /// The date and time as text.
    pub fn to_string(&self) -> (r: String)
        ensures
            r@ == self.spec_text(),
    {
        let mut out = String::new();
        push_padded(&mut out, self.year, 4);
        out.append("-");
        push_padded(&mut out, self.month, 2);
        out.append("-");
        push_padded(&mut out, self.day, 2);
        out.append(" ");
        push_padded(&mut out, self.hour, 2);
        out.append(":");
        push_padded(&mut out, self.minute, 2);
        out.append(":");
        push_padded(&mut out, self.second, 2);
        assert(out@ =~= self.spec_text());
        out
    }
}

impl LiveSortingOptions {
    /// The ranking that `option` names.
    pub open spec fn spec_index(self, option: LiveSortingOption) -> Vec<LiveSortingOptionItem> {
        match option {
            LiveSortingOption::Best => self.best,
            LiveSortingOption::Cheapest => self.cheapest,
            LiveSortingOption::Fastest => self.fastest,
        }
    }

    /// The ranking that `option` names.
    pub fn index(&self, option: LiveSortingOption) -> (r: &Vec<LiveSortingOptionItem>)
        ensures
            *r == self.spec_index(option),
    {
        match option {
            LiveSortingOption::Best => &self.best,
            LiveSortingOption::Cheapest => &self.cheapest,
            LiveSortingOption::Fastest => &self.fastest,
        }
    }
}

} // verus!
