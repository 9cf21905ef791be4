//! The schema of a response: which members each object has, and the names
//! of each enumeration.

use crate::decode::{
    decoded, members_of, names_model, optional, required, spec_members, spec_optional,
    spec_required, Decode, DecodeError,
};
use crate::json::{lookup, Json, JsonNumber, JsonValue};
use crate::resp::{
    deserialize_price_amount, spec_price_amount, AllianceModel, ContentModel,
    FlightsLiveSearchContent, ItineraryModel, LegModel, LiveAlliance, LiveCoordinates,
    LiveItinerary, LiveItineraryStats, LiveItineraryStopStats, LiveItineraryStopSummaryStats,
    LiveItineraryStopTicketStats, LiveItinerarySummary, LiveLeg, LiveLocalDateTime, LivePlace,
    LivePlaceType, LivePricingOption, LiveSearchResults, LiveSortingOption,
    LiveSortingOptionItem, LiveSortingOptions, LiveStats, LiveTransferType, PlaceModel, Price,
    PriceUnit, PriceUpdateStatus, PricingOptionModel, ResponseModel, ResultAction, ResultStatus,
    ResultsModel, SearchCreateResponse, SortingItemModel, SortingOptionsModel,
};
use crate::table::Table;
use vstd::prelude::*;

verus! {

/// The value that a wire name stands for: the string `j` has to be a name
/// that `of` knows.
pub open spec fn spec_tagged<T>(j: Json, of: spec_fn(Seq<char>) -> Option<T>) -> Result<
    T,
    DecodeError,
> {
    match j {
        Json::String(tag) => match of(tag) {
            Some(value) => Ok(value),
            None => Err(DecodeError::UnknownTag),
        },
        _ => Err(DecodeError::WrongType),
    }
}

/// The amount of a price: its member `amount`, which has to be there.
pub open spec fn spec_amount(members: Seq<(Seq<char>, Json)>) -> Result<Option<i64>, DecodeError> {
    match lookup(members, "amount"@) {
        Some(j) => spec_price_amount(j),
        None => Err(DecodeError::MissingField),
    }
}

impl Decode for Price {
    open spec fn spec_decode(j: Json) -> Result<Price, DecodeError> {
        match spec_members(j, seq!["amount"@, "unit"@, "updateStatus"@]) {
            Err(e) => Err(e),
            Ok(m) => {
                let amount = spec_amount(m);
                let unit = spec_required::<PriceUnit>(m, "unit"@);
                let update_status = spec_required::<PriceUpdateStatus>(m, "updateStatus"@);
                if amount is Err {
                    Err(amount->Err_0)
                } else if unit is Err {
                    Err(unit->Err_0)
                } else if update_status is Err {
                    Err(update_status->Err_0)
                } else {
                    Ok(
                        Price {
                            amount: amount->Ok_0,
                            unit: unit->Ok_0,
                            update_status: update_status->Ok_0,
                        },
                    )
                }
            },
        }
    }

    fn decode(v: &JsonValue) -> (r: Result<Price, DecodeError>) {
        let names = ["amount", "unit", "updateStatus"];
        assert(names_model(names@) =~= seq!["amount"@, "unit"@, "updateStatus"@]);
        let m = members_of(v, &names)?;
        let amount = match JsonValue::member(m, "amount") {
            Some(a) => deserialize_price_amount(a)?,
            None => {
                return Err(DecodeError::MissingField);
            },
        };
        let unit = required::<PriceUnit>(m, "unit")?;
        let update_status = required::<PriceUpdateStatus>(m, "updateStatus")?;
        Ok(Price { amount, unit, update_status })
    }
}

impl Decode for ResultStatus {
    open spec fn spec_decode(j: Json) -> Result<ResultStatus, DecodeError> {
        spec_tagged(j, |tag: Seq<char>| ResultStatus::spec_from_tag(tag))
    }

    fn decode(v: &JsonValue) -> (r: Result<ResultStatus, DecodeError>) {
        match v {
            JsonValue::String(tag) => match ResultStatus::from_tag(tag.as_str()) {
                Some(value) => Ok(value),
                None => Err(DecodeError::UnknownTag),
            },
            _ => Err(DecodeError::WrongType),
        }
    }
}

impl Decode for ResultAction {
    open spec fn spec_decode(j: Json) -> Result<ResultAction, DecodeError> {
        spec_tagged(j, |tag: Seq<char>| ResultAction::spec_from_tag(tag))
    }

    fn decode(v: &JsonValue) -> (r: Result<ResultAction, DecodeError>) {
        match v {
            JsonValue::String(tag) => match ResultAction::from_tag(tag.as_str()) {
                Some(value) => Ok(value),
                None => Err(DecodeError::UnknownTag),
            },
            _ => Err(DecodeError::WrongType),
        }
    }
}

impl Decode for PriceUnit {
    open spec fn spec_decode(j: Json) -> Result<PriceUnit, DecodeError> {
        spec_tagged(j, |tag: Seq<char>| PriceUnit::spec_from_tag(tag))
    }

    fn decode(v: &JsonValue) -> (r: Result<PriceUnit, DecodeError>) {
        match v {
            JsonValue::String(tag) => match PriceUnit::from_tag(tag.as_str()) {
                Some(value) => Ok(value),
                None => Err(DecodeError::UnknownTag),
            },
            _ => Err(DecodeError::WrongType),
        }
    }
}

impl Decode for PriceUpdateStatus {
    open spec fn spec_decode(j: Json) -> Result<PriceUpdateStatus, DecodeError> {
        spec_tagged(j, |tag: Seq<char>| PriceUpdateStatus::spec_from_tag(tag))
    }

    fn decode(v: &JsonValue) -> (r: Result<PriceUpdateStatus, DecodeError>) {
        match v {
            JsonValue::String(tag) => match PriceUpdateStatus::from_tag(tag.as_str()) {
                Some(value) => Ok(value),
                None => Err(DecodeError::UnknownTag),
            },
            _ => Err(DecodeError::WrongType),
        }
    }
}

impl Decode for LiveSortingOption {
    open spec fn spec_decode(j: Json) -> Result<LiveSortingOption, DecodeError> {
        spec_tagged(j, |tag: Seq<char>| LiveSortingOption::spec_from_tag(tag))
    }

    fn decode(v: &JsonValue) -> (r: Result<LiveSortingOption, DecodeError>) {
        match v {
            JsonValue::String(tag) => match LiveSortingOption::from_tag(tag.as_str()) {
                Some(value) => Ok(value),
                None => Err(DecodeError::UnknownTag),
            },
            _ => Err(DecodeError::WrongType),
        }
    }
}

impl Decode for LiveTransferType {
    open spec fn spec_decode(j: Json) -> Result<LiveTransferType, DecodeError> {
        spec_tagged(j, |tag: Seq<char>| LiveTransferType::spec_from_tag(tag))
    }

    fn decode(v: &JsonValue) -> (r: Result<LiveTransferType, DecodeError>) {
        match v {
            JsonValue::String(tag) => match LiveTransferType::from_tag(tag.as_str()) {
                Some(value) => Ok(value),
                None => Err(DecodeError::UnknownTag),
            },
            _ => Err(DecodeError::WrongType),
        }
    }
}

impl Decode for LivePlaceType {
    open spec fn spec_decode(j: Json) -> Result<LivePlaceType, DecodeError> {
        spec_tagged(j, |tag: Seq<char>| LivePlaceType::spec_from_tag(tag))
    }

    fn decode(v: &JsonValue) -> (r: Result<LivePlaceType, DecodeError>) {
        match v {
            JsonValue::String(tag) => match LivePlaceType::from_tag(tag.as_str()) {
                Some(value) => Ok(value),
                None => Err(DecodeError::UnknownTag),
            },
            _ => Err(DecodeError::WrongType),
        }
    }
}

impl Decode for LiveItinerarySummary {
    open spec fn spec_decode(j: Json) -> Result<LiveItinerarySummary, DecodeError> {
        match spec_members(j, seq!["count"@, "minPrice"@]) {
            Err(e) => Err(e),
            Ok(m) => {
                let count = spec_required::<i32>(m, "count"@);
                let min_price = spec_required::<Price>(m, "minPrice"@);
                if count is Err {
                    Err(count->Err_0)
                } else if min_price is Err {
                    Err(min_price->Err_0)
                } else {
                    Ok(LiveItinerarySummary { count: count->Ok_0, min_price: min_price->Ok_0 })
                }
            },
        }
    }

    fn decode(v: &JsonValue) -> (r: Result<LiveItinerarySummary, DecodeError>) {
        let names = ["count", "minPrice"];
        assert(names_model(names@) =~= seq!["count"@, "minPrice"@]);
        let m = members_of(v, &names)?;
        let count = required::<i32>(m, "count")?;
        let min_price = required::<Price>(m, "minPrice")?;
        Ok(LiveItinerarySummary { count, min_price })
    }
}

impl Decode for LiveItineraryStopTicketStats {
    open spec fn spec_decode(j: Json) -> Result<LiveItineraryStopTicketStats, DecodeError> {
        match spec_members(j, seq!["singleTicket"@, "multiTicketNonNpt"@, "multiTicketNpt"@]) {
            Err(e) => Err(e),
            Ok(m) => {
                let single_ticket = spec_required::<LiveItinerarySummary>(m, "singleTicket"@);
                let multi_ticket_non_npt = spec_required::<LiveItinerarySummary>(m, "multiTicketNonNpt"@);
                let multi_ticket_npt = spec_required::<LiveItinerarySummary>(m, "multiTicketNpt"@);
                if single_ticket is Err {
                    Err(single_ticket->Err_0)
                } else if multi_ticket_non_npt is Err {
                    Err(multi_ticket_non_npt->Err_0)
                } else if multi_ticket_npt is Err {
                    Err(multi_ticket_npt->Err_0)
                } else {
                    Ok(LiveItineraryStopTicketStats { single_ticket: single_ticket->Ok_0, multi_ticket_non_npt: multi_ticket_non_npt->Ok_0, multi_ticket_npt: multi_ticket_npt->Ok_0 })
                }
            },
        }
    }

    fn decode(v: &JsonValue) -> (r: Result<LiveItineraryStopTicketStats, DecodeError>) {
        let names = ["singleTicket", "multiTicketNonNpt", "multiTicketNpt"];
        assert(names_model(names@) =~= seq!["singleTicket"@, "multiTicketNonNpt"@, "multiTicketNpt"@]);
        let m = members_of(v, &names)?;
        let single_ticket = required::<LiveItinerarySummary>(m, "singleTicket")?;
        let multi_ticket_non_npt = required::<LiveItinerarySummary>(m, "multiTicketNonNpt")?;
        let multi_ticket_npt = required::<LiveItinerarySummary>(m, "multiTicketNpt")?;
        Ok(LiveItineraryStopTicketStats { single_ticket, multi_ticket_non_npt, multi_ticket_npt })
    }
}

impl Decode for LiveItineraryStopSummaryStats {
    open spec fn spec_decode(j: Json) -> Result<LiveItineraryStopSummaryStats, DecodeError> {
        match spec_members(j, seq!["total"@, "ticketTypes"@]) {
            Err(e) => Err(e),
            Ok(m) => {
                let total = spec_required::<LiveItinerarySummary>(m, "total"@);
                let ticket_types = spec_required::<LiveItineraryStopTicketStats>(m, "ticketTypes"@);
                if total is Err {
                    Err(total->Err_0)
                } else if ticket_types is Err {
                    Err(ticket_types->Err_0)
                } else {
                    Ok(LiveItineraryStopSummaryStats { total: total->Ok_0, ticket_types: ticket_types->Ok_0 })
                }
            },
        }
    }

    fn decode(v: &JsonValue) -> (r: Result<LiveItineraryStopSummaryStats, DecodeError>) {
        let names = ["total", "ticketTypes"];
        assert(names_model(names@) =~= seq!["total"@, "ticketTypes"@]);
        let m = members_of(v, &names)?;
        let total = required::<LiveItinerarySummary>(m, "total")?;
        let ticket_types = required::<LiveItineraryStopTicketStats>(m, "ticketTypes")?;
        Ok(LiveItineraryStopSummaryStats { total, ticket_types })
    }
}

impl Decode for LiveItineraryStopStats {
    open spec fn spec_decode(j: Json) -> Result<LiveItineraryStopStats, DecodeError> {
        match spec_members(j, seq!["direct"@, "oneStop"@, "twoPlusStops"@]) {
            Err(e) => Err(e),
            Ok(m) => {
                let direct = spec_required::<LiveItineraryStopSummaryStats>(m, "direct"@);
                let one_stop = spec_required::<LiveItineraryStopSummaryStats>(m, "oneStop"@);
                let two_plus_stops = spec_required::<LiveItineraryStopSummaryStats>(m, "twoPlusStops"@);
                if direct is Err {
                    Err(direct->Err_0)
                } else if one_stop is Err {
                    Err(one_stop->Err_0)
                } else if two_plus_stops is Err {
                    Err(two_plus_stops->Err_0)
                } else {
                    Ok(LiveItineraryStopStats { direct: direct->Ok_0, one_stop: one_stop->Ok_0, two_plus_stops: two_plus_stops->Ok_0 })
                }
            },
        }
    }

    fn decode(v: &JsonValue) -> (r: Result<LiveItineraryStopStats, DecodeError>) {
        let names = ["direct", "oneStop", "twoPlusStops"];
        assert(names_model(names@) =~= seq!["direct"@, "oneStop"@, "twoPlusStops"@]);
        let m = members_of(v, &names)?;
        let direct = required::<LiveItineraryStopSummaryStats>(m, "direct")?;
        let one_stop = required::<LiveItineraryStopSummaryStats>(m, "oneStop")?;
        let two_plus_stops = required::<LiveItineraryStopSummaryStats>(m, "twoPlusStops")?;
        Ok(LiveItineraryStopStats { direct, one_stop, two_plus_stops })
    }
}

impl Decode for LiveItineraryStats {
    open spec fn spec_decode(j: Json) -> Result<LiveItineraryStats, DecodeError> {
        match spec_members(j, seq!["minDuration"@, "maxDuration"@, "total"@, "stops"@, "hasChangeAirportTransfer"@]) {
            Err(e) => Err(e),
            Ok(m) => {
                let min_duration = spec_required::<i32>(m, "minDuration"@);
                let max_duration = spec_required::<i32>(m, "maxDuration"@);
                let total = spec_required::<LiveItinerarySummary>(m, "total"@);
                let stops = spec_required::<LiveItineraryStopStats>(m, "stops"@);
                let has_change_airport_transfer = spec_required::<bool>(m, "hasChangeAirportTransfer"@);
                if min_duration is Err {
                    Err(min_duration->Err_0)
                } else if max_duration is Err {
                    Err(max_duration->Err_0)
                } else if total is Err {
                    Err(total->Err_0)
                } else if stops is Err {
                    Err(stops->Err_0)
                } else if has_change_airport_transfer is Err {
                    Err(has_change_airport_transfer->Err_0)
                } else {
                    Ok(LiveItineraryStats { min_duration: min_duration->Ok_0, max_duration: max_duration->Ok_0, total: total->Ok_0, stops: stops->Ok_0, has_change_airport_transfer: has_change_airport_transfer->Ok_0 })
                }
            },
        }
    }

    fn decode(v: &JsonValue) -> (r: Result<LiveItineraryStats, DecodeError>) {
        let names = ["minDuration", "maxDuration", "total", "stops", "hasChangeAirportTransfer"];
        assert(names_model(names@) =~= seq!["minDuration"@, "maxDuration"@, "total"@, "stops"@, "hasChangeAirportTransfer"@]);
        let m = members_of(v, &names)?;
        let min_duration = required::<i32>(m, "minDuration")?;
        let max_duration = required::<i32>(m, "maxDuration")?;
        let total = required::<LiveItinerarySummary>(m, "total")?;
        let stops = required::<LiveItineraryStopStats>(m, "stops")?;
        let has_change_airport_transfer = required::<bool>(m, "hasChangeAirportTransfer")?;
        Ok(LiveItineraryStats { min_duration, max_duration, total, stops, has_change_airport_transfer })
    }
}

impl Decode for LiveStats {
    open spec fn spec_decode(j: Json) -> Result<LiveStats, DecodeError> {
        match spec_members(j, seq!["itineraries"@]) {
            Err(e) => Err(e),
            Ok(m) => {
                let itineraries = spec_optional::<LiveItineraryStats>(m, "itineraries"@);
                if itineraries is Err {
                    Err(itineraries->Err_0)
                } else {
                    Ok(LiveStats { itineraries: itineraries->Ok_0 })
                }
            },
        }
    }

    fn decode(v: &JsonValue) -> (r: Result<LiveStats, DecodeError>) {
        let names = ["itineraries"];
        assert(names_model(names@) =~= seq!["itineraries"@]);
        let m = members_of(v, &names)?;
        let itineraries = optional::<LiveItineraryStats>(m, "itineraries")?;
        Ok(LiveStats { itineraries })
    }
}

impl Decode for LiveLocalDateTime {
    open spec fn spec_decode(j: Json) -> Result<LiveLocalDateTime, DecodeError> {
        match spec_members(j, seq!["year"@, "month"@, "day"@, "hour"@, "minute"@, "second"@]) {
            Err(e) => Err(e),
            Ok(m) => {
                let year = spec_required::<i32>(m, "year"@);
                let month = spec_required::<i32>(m, "month"@);
                let day = spec_required::<i32>(m, "day"@);
                let hour = spec_required::<i32>(m, "hour"@);
                let minute = spec_required::<i32>(m, "minute"@);
                let second = spec_required::<i32>(m, "second"@);
                if year is Err {
                    Err(year->Err_0)
                } else if month is Err {
                    Err(month->Err_0)
                } else if day is Err {
                    Err(day->Err_0)
                } else if hour is Err {
                    Err(hour->Err_0)
                } else if minute is Err {
                    Err(minute->Err_0)
                } else if second is Err {
                    Err(second->Err_0)
                } else {
                    Ok(LiveLocalDateTime { year: year->Ok_0, month: month->Ok_0, day: day->Ok_0, hour: hour->Ok_0, minute: minute->Ok_0, second: second->Ok_0 })
                }
            },
        }
    }

    fn decode(v: &JsonValue) -> (r: Result<LiveLocalDateTime, DecodeError>) {
        let names = ["year", "month", "day", "hour", "minute", "second"];
        assert(names_model(names@) =~= seq!["year"@, "month"@, "day"@, "hour"@, "minute"@, "second"@]);
        let m = members_of(v, &names)?;
        let year = required::<i32>(m, "year")?;
        let month = required::<i32>(m, "month")?;
        let day = required::<i32>(m, "day")?;
        let hour = required::<i32>(m, "hour")?;
        let minute = required::<i32>(m, "minute")?;
        let second = required::<i32>(m, "second")?;
        Ok(LiveLocalDateTime { year, month, day, hour, minute, second })
    }
}

impl Decode for LiveCoordinates {
    open spec fn spec_decode(j: Json) -> Result<LiveCoordinates, DecodeError> {
        match spec_members(j, seq!["latitude"@, "longitude"@]) {
            Err(e) => Err(e),
            Ok(m) => {
                let latitude = spec_required::<JsonNumber>(m, "latitude"@);
                let longitude = spec_required::<JsonNumber>(m, "longitude"@);
                if latitude is Err {
                    Err(latitude->Err_0)
                } else if longitude is Err {
                    Err(longitude->Err_0)
                } else {
                    Ok(LiveCoordinates { latitude: latitude->Ok_0, longitude: longitude->Ok_0 })
                }
            },
        }
    }

    fn decode(v: &JsonValue) -> (r: Result<LiveCoordinates, DecodeError>) {
        let names = ["latitude", "longitude"];
        assert(names_model(names@) =~= seq!["latitude"@, "longitude"@]);
        let m = members_of(v, &names)?;
        let latitude = required::<JsonNumber>(m, "latitude")?;
        let longitude = required::<JsonNumber>(m, "longitude")?;
        Ok(LiveCoordinates { latitude, longitude })
    }
}

impl Decode for LiveAlliance {
    open spec fn spec_decode(j: Json) -> Result<AllianceModel, DecodeError> {
        match spec_members(j, seq!["name"@]) {
            Err(e) => Err(e),
            Ok(m) => {
                let name = spec_required::<String>(m, "name"@);
                if name is Err {
                    Err(name->Err_0)
                } else {
                    Ok(AllianceModel { name: name->Ok_0 })
                }
            },
        }
    }

    fn decode(v: &JsonValue) -> (r: Result<LiveAlliance, DecodeError>) {
        let names = ["name"];
        assert(names_model(names@) =~= seq!["name"@]);
        let m = members_of(v, &names)?;
        let name = required::<String>(m, "name")?;
        Ok(LiveAlliance { name })
    }
}

impl Decode for LiveSortingOptionItem {
    open spec fn spec_decode(j: Json) -> Result<SortingItemModel, DecodeError> {
        match spec_members(j, seq!["score"@, "itineraryId"@]) {
            Err(e) => Err(e),
            Ok(m) => {
                let score = spec_required::<JsonNumber>(m, "score"@);
                let itinerary_id = spec_required::<String>(m, "itineraryId"@);
                if score is Err {
                    Err(score->Err_0)
                } else if itinerary_id is Err {
                    Err(itinerary_id->Err_0)
                } else {
                    Ok(SortingItemModel { score: score->Ok_0, itinerary_id: itinerary_id->Ok_0 })
                }
            },
        }
    }

    fn decode(v: &JsonValue) -> (r: Result<LiveSortingOptionItem, DecodeError>) {
        let names = ["score", "itineraryId"];
        assert(names_model(names@) =~= seq!["score"@, "itineraryId"@]);
        let m = members_of(v, &names)?;
        let score = required::<JsonNumber>(m, "score")?;
        let itinerary_id = required::<String>(m, "itineraryId")?;
        Ok(LiveSortingOptionItem { score, itinerary_id })
    }
}

impl Decode for LiveSortingOptions {
    open spec fn spec_decode(j: Json) -> Result<SortingOptionsModel, DecodeError> {
        match spec_members(j, seq!["best"@, "cheapest"@, "fastest"@]) {
            Err(e) => Err(e),
            Ok(m) => {
                let best = spec_required::<Vec<LiveSortingOptionItem>>(m, "best"@);
                let cheapest = spec_required::<Vec<LiveSortingOptionItem>>(m, "cheapest"@);
                let fastest = spec_required::<Vec<LiveSortingOptionItem>>(m, "fastest"@);
                if best is Err {
                    Err(best->Err_0)
                } else if cheapest is Err {
                    Err(cheapest->Err_0)
                } else if fastest is Err {
                    Err(fastest->Err_0)
                } else {
                    Ok(SortingOptionsModel { best: best->Ok_0, cheapest: cheapest->Ok_0, fastest: fastest->Ok_0 })
                }
            },
        }
    }

    fn decode(v: &JsonValue) -> (r: Result<LiveSortingOptions, DecodeError>) {
        let names = ["best", "cheapest", "fastest"];
        assert(names_model(names@) =~= seq!["best"@, "cheapest"@, "fastest"@]);
        let m = members_of(v, &names)?;
        let best = required::<Vec<LiveSortingOptionItem>>(m, "best")?;
        let cheapest = required::<Vec<LiveSortingOptionItem>>(m, "cheapest")?;
        let fastest = required::<Vec<LiveSortingOptionItem>>(m, "fastest")?;
        Ok(LiveSortingOptions { best, cheapest, fastest })
    }
}

impl Decode for LivePricingOption {
    open spec fn spec_decode(j: Json) -> Result<PricingOptionModel, DecodeError> {
        match spec_members(j, seq!["price"@, "agentIds"@, "items"@, "transferType"@, "id"@, "pricingOptionFare"@]) {
            Err(e) => Err(e),
            Ok(m) => {
                let price = spec_required::<Price>(m, "price"@);
                let agent_ids = spec_required::<Vec<String>>(m, "agentIds"@);
                let items = spec_required::<JsonValue>(m, "items"@);
                let transfer_type = spec_required::<LiveTransferType>(m, "transferType"@);
                let id = spec_required::<String>(m, "id"@);
                let pricing_option_fare = spec_required::<JsonValue>(m, "pricingOptionFare"@);
                if price is Err {
                    Err(price->Err_0)
                } else if agent_ids is Err {
                    Err(agent_ids->Err_0)
                } else if items is Err {
                    Err(items->Err_0)
                } else if transfer_type is Err {
                    Err(transfer_type->Err_0)
                } else if id is Err {
                    Err(id->Err_0)
                } else if pricing_option_fare is Err {
                    Err(pricing_option_fare->Err_0)
                } else {
                    Ok(PricingOptionModel { price: price->Ok_0, agent_ids: agent_ids->Ok_0, items: items->Ok_0, transfer_type: transfer_type->Ok_0, id: id->Ok_0, pricing_option_fare: pricing_option_fare->Ok_0 })
                }
            },
        }
    }

    fn decode(v: &JsonValue) -> (r: Result<LivePricingOption, DecodeError>) {
        let names = ["price", "agentIds", "items", "transferType", "id", "pricingOptionFare"];
        assert(names_model(names@) =~= seq!["price"@, "agentIds"@, "items"@, "transferType"@, "id"@, "pricingOptionFare"@]);
        let m = members_of(v, &names)?;
        let price = required::<Price>(m, "price")?;
        let agent_ids = required::<Vec<String>>(m, "agentIds")?;
        let items = required::<JsonValue>(m, "items")?;
        let transfer_type = required::<LiveTransferType>(m, "transferType")?;
        let id = required::<String>(m, "id")?;
        let pricing_option_fare = required::<JsonValue>(m, "pricingOptionFare")?;
        Ok(LivePricingOption { price, agent_ids, items, transfer_type, id, pricing_option_fare })
    }
}

impl Decode for LiveItinerary {
    open spec fn spec_decode(j: Json) -> Result<ItineraryModel, DecodeError> {
        match spec_members(j, seq!["pricingOptions"@, "legIds"@, "sustainabilityData"@]) {
            Err(e) => Err(e),
            Ok(m) => {
                let pricing_options = spec_required::<Vec<LivePricingOption>>(m, "pricingOptions"@);
                let leg_ids = spec_required::<Vec<String>>(m, "legIds"@);
                let sustainability_data = spec_required::<JsonValue>(m, "sustainabilityData"@);
                if pricing_options is Err {
                    Err(pricing_options->Err_0)
                } else if leg_ids is Err {
                    Err(leg_ids->Err_0)
                } else if sustainability_data is Err {
                    Err(sustainability_data->Err_0)
                } else {
                    Ok(ItineraryModel { pricing_options: pricing_options->Ok_0, leg_ids: leg_ids->Ok_0, sustainability_data: sustainability_data->Ok_0 })
                }
            },
        }
    }

    fn decode(v: &JsonValue) -> (r: Result<LiveItinerary, DecodeError>) {
        let names = ["pricingOptions", "legIds", "sustainabilityData"];
        assert(names_model(names@) =~= seq!["pricingOptions"@, "legIds"@, "sustainabilityData"@]);
        let m = members_of(v, &names)?;
        let pricing_options = required::<Vec<LivePricingOption>>(m, "pricingOptions")?;
        let leg_ids = required::<Vec<String>>(m, "legIds")?;
        let sustainability_data = required::<JsonValue>(m, "sustainabilityData")?;
        Ok(LiveItinerary { pricing_options, leg_ids, sustainability_data })
    }
}

impl Decode for LiveLeg {
    open spec fn spec_decode(j: Json) -> Result<LegModel, DecodeError> {
        match spec_members(j, seq!["originPlaceId"@, "destinationPlaceId"@, "departureDateTime"@, "arrivalDateTime"@, "durationInMinutes"@, "stopCount"@, "marketingCarrierIds"@, "operatingCarrierIds"@, "segmentIds"@]) {
            Err(e) => Err(e),
            Ok(m) => {
                let origin_place_id = spec_required::<String>(m, "originPlaceId"@);
                let destination_place_id = spec_required::<String>(m, "destinationPlaceId"@);
                let departure_date_time = spec_required::<LiveLocalDateTime>(m, "departureDateTime"@);
                let arrival_date_time = spec_required::<LiveLocalDateTime>(m, "arrivalDateTime"@);
                let duration_in_minutes = spec_required::<i32>(m, "durationInMinutes"@);
                let stop_count = spec_required::<i32>(m, "stopCount"@);
                let marketing_carrier_ids = spec_required::<Vec<String>>(m, "marketingCarrierIds"@);
                let operating_carrier_ids = spec_required::<Vec<String>>(m, "operatingCarrierIds"@);
                let segment_ids = spec_required::<Vec<String>>(m, "segmentIds"@);
                if origin_place_id is Err {
                    Err(origin_place_id->Err_0)
                } else if destination_place_id is Err {
                    Err(destination_place_id->Err_0)
                } else if departure_date_time is Err {
                    Err(departure_date_time->Err_0)
                } else if arrival_date_time is Err {
                    Err(arrival_date_time->Err_0)
                } else if duration_in_minutes is Err {
                    Err(duration_in_minutes->Err_0)
                } else if stop_count is Err {
                    Err(stop_count->Err_0)
                } else if marketing_carrier_ids is Err {
                    Err(marketing_carrier_ids->Err_0)
                } else if operating_carrier_ids is Err {
                    Err(operating_carrier_ids->Err_0)
                } else if segment_ids is Err {
                    Err(segment_ids->Err_0)
                } else {
                    Ok(LegModel { origin_place_id: origin_place_id->Ok_0, destination_place_id: destination_place_id->Ok_0, departure_date_time: departure_date_time->Ok_0, arrival_date_time: arrival_date_time->Ok_0, duration_in_minutes: duration_in_minutes->Ok_0, stop_count: stop_count->Ok_0, marketing_carrier_ids: marketing_carrier_ids->Ok_0, operating_carrier_ids: operating_carrier_ids->Ok_0, segment_ids: segment_ids->Ok_0 })
                }
            },
        }
    }

    fn decode(v: &JsonValue) -> (r: Result<LiveLeg, DecodeError>) {
        let names = ["originPlaceId", "destinationPlaceId", "departureDateTime", "arrivalDateTime", "durationInMinutes", "stopCount", "marketingCarrierIds", "operatingCarrierIds", "segmentIds"];
        assert(names_model(names@) =~= seq!["originPlaceId"@, "destinationPlaceId"@, "departureDateTime"@, "arrivalDateTime"@, "durationInMinutes"@, "stopCount"@, "marketingCarrierIds"@, "operatingCarrierIds"@, "segmentIds"@]);
        let m = members_of(v, &names)?;
        let origin_place_id = required::<String>(m, "originPlaceId")?;
        let destination_place_id = required::<String>(m, "destinationPlaceId")?;
        let departure_date_time = required::<LiveLocalDateTime>(m, "departureDateTime")?;
        let arrival_date_time = required::<LiveLocalDateTime>(m, "arrivalDateTime")?;
        let duration_in_minutes = required::<i32>(m, "durationInMinutes")?;
        let stop_count = required::<i32>(m, "stopCount")?;
        let marketing_carrier_ids = required::<Vec<String>>(m, "marketingCarrierIds")?;
        let operating_carrier_ids = required::<Vec<String>>(m, "operatingCarrierIds")?;
        let segment_ids = required::<Vec<String>>(m, "segmentIds")?;
        Ok(LiveLeg { origin_place_id, destination_place_id, departure_date_time, arrival_date_time, duration_in_minutes, stop_count, marketing_carrier_ids, operating_carrier_ids, segment_ids })
    }
}

impl Decode for LivePlace {
    open spec fn spec_decode(j: Json) -> Result<PlaceModel, DecodeError> {
        match spec_members(j, seq!["name"@, "type"@, "iata"@, "coordinates"@, "entityId"@, "parentId"@]) {
            Err(e) => Err(e),
            Ok(m) => {
                let name = spec_required::<String>(m, "name"@);
                let place_type = spec_required::<LivePlaceType>(m, "type"@);
                let iata = spec_optional::<String>(m, "iata"@);
                let coordinates = spec_optional::<LiveCoordinates>(m, "coordinates"@);
                let entity_id = spec_required::<String>(m, "entityId"@);
                let parent_id = spec_optional::<String>(m, "parentId"@);
                if name is Err {
                    Err(name->Err_0)
                } else if place_type is Err {
                    Err(place_type->Err_0)
                } else if iata is Err {
                    Err(iata->Err_0)
                } else if coordinates is Err {
                    Err(coordinates->Err_0)
                } else if entity_id is Err {
                    Err(entity_id->Err_0)
                } else if parent_id is Err {
                    Err(parent_id->Err_0)
                } else {
                    Ok(PlaceModel { name: name->Ok_0, place_type: place_type->Ok_0, iata: iata->Ok_0, coordinates: coordinates->Ok_0, entity_id: entity_id->Ok_0, parent_id: parent_id->Ok_0 })
                }
            },
        }
    }

    fn decode(v: &JsonValue) -> (r: Result<LivePlace, DecodeError>) {
        let names = ["name", "type", "iata", "coordinates", "entityId", "parentId"];
        assert(names_model(names@) =~= seq!["name"@, "type"@, "iata"@, "coordinates"@, "entityId"@, "parentId"@]);
        let m = members_of(v, &names)?;
        let name = required::<String>(m, "name")?;
        let place_type = required::<LivePlaceType>(m, "type")?;
        let iata = optional::<String>(m, "iata")?;
        let coordinates = optional::<LiveCoordinates>(m, "coordinates")?;
        let entity_id = required::<String>(m, "entityId")?;
        let parent_id = optional::<String>(m, "parentId")?;
        Ok(LivePlace { name, place_type, iata, coordinates, entity_id, parent_id })
    }
}

impl Decode for LiveSearchResults {
    open spec fn spec_decode(j: Json) -> Result<ResultsModel, DecodeError> {
        match spec_members(j, seq!["itineraries"@, "legs"@, "segments"@, "places"@, "carriers"@, "agents"@, "alliances"@]) {
            Err(e) => Err(e),
            Ok(m) => {
                let itineraries = spec_required::<Table<LiveItinerary>>(m, "itineraries"@);
                let legs = spec_required::<Table<LiveLeg>>(m, "legs"@);
                let segments = spec_required::<Table<JsonValue>>(m, "segments"@);
                let places = spec_required::<Table<LivePlace>>(m, "places"@);
                let carriers = spec_required::<Table<JsonValue>>(m, "carriers"@);
                let agents = spec_required::<Table<JsonValue>>(m, "agents"@);
                let alliances = spec_required::<Table<LiveAlliance>>(m, "alliances"@);
                if itineraries is Err {
                    Err(itineraries->Err_0)
                } else if legs is Err {
                    Err(legs->Err_0)
                } else if segments is Err {
                    Err(segments->Err_0)
                } else if places is Err {
                    Err(places->Err_0)
                } else if carriers is Err {
                    Err(carriers->Err_0)
                } else if agents is Err {
                    Err(agents->Err_0)
                } else if alliances is Err {
                    Err(alliances->Err_0)
                } else {
                    Ok(ResultsModel { itineraries: itineraries->Ok_0, legs: legs->Ok_0, segments: segments->Ok_0, places: places->Ok_0, carriers: carriers->Ok_0, agents: agents->Ok_0, alliances: alliances->Ok_0 })
                }
            },
        }
    }

    fn decode(v: &JsonValue) -> (r: Result<LiveSearchResults, DecodeError>) {
        let names = ["itineraries", "legs", "segments", "places", "carriers", "agents", "alliances"];
        assert(names_model(names@) =~= seq!["itineraries"@, "legs"@, "segments"@, "places"@, "carriers"@, "agents"@, "alliances"@]);
        let m = members_of(v, &names)?;
        let itineraries = required::<Table<LiveItinerary>>(m, "itineraries")?;
        let legs = required::<Table<LiveLeg>>(m, "legs")?;
        let segments = required::<Table<JsonValue>>(m, "segments")?;
        let places = required::<Table<LivePlace>>(m, "places")?;
        let carriers = required::<Table<JsonValue>>(m, "carriers")?;
        let agents = required::<Table<JsonValue>>(m, "agents")?;
        let alliances = required::<Table<LiveAlliance>>(m, "alliances")?;
        Ok(LiveSearchResults { itineraries, legs, segments, places, carriers, agents, alliances })
    }
}

impl Decode for FlightsLiveSearchContent {
    open spec fn spec_decode(j: Json) -> Result<ContentModel, DecodeError> {
        match spec_members(j, seq!["results"@, "stats"@, "sortingOptions"@]) {
            Err(e) => Err(e),
            Ok(m) => {
                let results = spec_required::<LiveSearchResults>(m, "results"@);
                let stats = spec_required::<LiveStats>(m, "stats"@);
                let sorting_options = spec_required::<LiveSortingOptions>(m, "sortingOptions"@);
                if results is Err {
                    Err(results->Err_0)
                } else if stats is Err {
                    Err(stats->Err_0)
                } else if sorting_options is Err {
                    Err(sorting_options->Err_0)
                } else {
                    Ok(ContentModel { results: results->Ok_0, stats: stats->Ok_0, sorting_options: sorting_options->Ok_0 })
                }
            },
        }
    }

    fn decode(v: &JsonValue) -> (r: Result<FlightsLiveSearchContent, DecodeError>) {
        let names = ["results", "stats", "sortingOptions"];
        assert(names_model(names@) =~= seq!["results"@, "stats"@, "sortingOptions"@]);
        let m = members_of(v, &names)?;
        let results = required::<LiveSearchResults>(m, "results")?;
        let stats = required::<LiveStats>(m, "stats")?;
        let sorting_options = required::<LiveSortingOptions>(m, "sortingOptions")?;
        Ok(FlightsLiveSearchContent { results, stats, sorting_options })
    }
}

impl Decode for SearchCreateResponse {
    open spec fn spec_decode(j: Json) -> Result<ResponseModel, DecodeError> {
        match spec_members(j, seq!["sessionToken"@, "status"@, "action"@, "content"@]) {
            Err(e) => Err(e),
            Ok(m) => {
                let session_token = spec_required::<String>(m, "sessionToken"@);
                let status = spec_required::<ResultStatus>(m, "status"@);
                let action = spec_required::<ResultAction>(m, "action"@);
                let content = spec_required::<FlightsLiveSearchContent>(m, "content"@);
                if session_token is Err {
                    Err(session_token->Err_0)
                } else if status is Err {
                    Err(status->Err_0)
                } else if action is Err {
                    Err(action->Err_0)
                } else if content is Err {
                    Err(content->Err_0)
                } else {
                    Ok(ResponseModel { session_token: session_token->Ok_0, status: status->Ok_0, action: action->Ok_0, content: content->Ok_0 })
                }
            },
        }
    }

    fn decode(v: &JsonValue) -> (r: Result<SearchCreateResponse, DecodeError>) {
        let names = ["sessionToken", "status", "action", "content"];
        assert(names_model(names@) =~= seq!["sessionToken"@, "status"@, "action"@, "content"@]);
        let m = members_of(v, &names)?;
        let session_token = required::<String>(m, "sessionToken")?;
        let status = required::<ResultStatus>(m, "status")?;
        let action = required::<ResultAction>(m, "action")?;
        let content = required::<FlightsLiveSearchContent>(m, "content")?;
        Ok(SearchCreateResponse { session_token, status, action, content })
    }
}


/// The token of a poll response: the member `sessionToken` or, in its
/// place, the member `refreshSessionToken`. One of the two has to be
/// there, and only one.
pub open spec fn spec_poll_token(members: Seq<(Seq<char>, Json)>) -> Result<Seq<char>, DecodeError> {
    match (lookup(members, "sessionToken"@), lookup(members, "refreshSessionToken"@)) {
        (Some(_), Some(_)) => Err(DecodeError::DuplicateField),
        (Some(j), None) => String::spec_decode(j),
        (None, Some(j)) => String::spec_decode(j),
        (None, None) => Err(DecodeError::MissingField),
    }
}

/// The envelope that the response `j` of a poll call stands for. It has
/// the members of the response of a create call, but for the name of the
/// token.
pub open spec fn spec_poll_response(j: Json) -> Result<ResponseModel, DecodeError> {
    match spec_members(
        j,
        seq!["sessionToken"@, "refreshSessionToken"@, "status"@, "action"@, "content"@],
    ) {
        Err(e) => Err(e),
        Ok(m) => {
            let session_token = spec_poll_token(m);
            let status = spec_required::<ResultStatus>(m, "status"@);
            let action = spec_required::<ResultAction>(m, "action"@);
            let content = spec_required::<FlightsLiveSearchContent>(m, "content"@);
            if session_token is Err {
                Err(session_token->Err_0)
            } else if status is Err {
                Err(status->Err_0)
            } else if action is Err {
                Err(action->Err_0)
            } else if content is Err {
                Err(content->Err_0)
            } else {
                Ok(
                    ResponseModel {
                        session_token: session_token->Ok_0,
                        status: status->Ok_0,
                        action: action->Ok_0,
                        content: content->Ok_0,
                    },
                )
            }
        },
    }
}

/// Decodes the response of a create call.
pub fn decode_create_response(v: &JsonValue) -> (r: Result<SearchCreateResponse, DecodeError>)
    ensures
        decoded(r) == SearchCreateResponse::spec_decode(v@),
{
    SearchCreateResponse::decode(v)
}

/// Decodes the response of a poll call.
pub fn decode_poll_response(v: &JsonValue) -> (r: Result<SearchCreateResponse, DecodeError>)
    ensures
        decoded(r) == spec_poll_response(v@),
{
    let names = ["sessionToken", "refreshSessionToken", "status", "action", "content"];
    assert(names_model(names@) =~= seq![
        "sessionToken"@,
        "refreshSessionToken"@,
        "status"@,
        "action"@,
        "content"@,
    ]);
    let m = members_of(v, &names)?;
    let session_token = match (
        JsonValue::member(m, "sessionToken"),
        JsonValue::member(m, "refreshSessionToken"),
    ) {
        (Some(_), Some(_)) => {
            return Err(DecodeError::DuplicateField);
        },
        (Some(token), None) => String::decode(token)?,
        (None, Some(token)) => String::decode(token)?,
        (None, None) => {
            return Err(DecodeError::MissingField);
        },
    };
    let status = required::<ResultStatus>(m, "status")?;
    let action = required::<ResultAction>(m, "action")?;
    let content = required::<FlightsLiveSearchContent>(m, "content")?;
    Ok(SearchCreateResponse { session_token, status, action, content })
}

/// Decoding is strict: the response of a create call that has, whatever
/// else it holds, a member under a name that the envelope does not know
/// is refused for that member.
pub proof fn lemma_unknown_member_is_refused(members: Seq<(Seq<char>, Json)>, at: int)
    requires
        0 <= at < members.len(),
        members[at].0 != "sessionToken"@,
        members[at].0 != "status"@,
        members[at].0 != "action"@,
        members[at].0 != "content"@,
    ensures
        SearchCreateResponse::spec_decode(Json::Object(members)) == Err::<ResponseModel, _>(
            DecodeError::UnknownField,
        ),
{
    let names = seq!["sessionToken"@, "status"@, "action"@, "content"@];
    assert(!names.contains(members[at].0));
}

} // verus!
