//! Views over one snapshot: the itineraries in the order of a ranking, and
//! the summary of an itinerary.
//!
//! Every id is looked up in the snapshot at hand and nowhere else. An id
//! that the snapshot does not hold is reported, never passed over.

use crate::decimal::{decimal_text, ExactDecimal};
use crate::resp::{
    FlightsLiveSearchContent, LiveAlliance, LiveItinerary, LiveLeg, LiveLocalDateTime, LivePlace,
    LiveSearchResults, LiveSortingOption,
};
use crate::json::JsonValue;
use crate::table::Table;
use crate::text::{join_display, join_slice, joined};
use vstd::prelude::*;
use vstd::string::*;

verus! {

/// The kinds of entity that a snapshot holds.
#[derive(Clone, Copy, Debug, PartialEq, Eq, Structural)]
pub enum EntityKind {
    Itinerary,
    Leg,
    Segment,
    Place,
    Carrier,
    Agent,
    Alliance,
}

/// A reference to an entity that the snapshot does not hold.
#[derive(Debug, PartialEq)]
pub struct ReferentialError {
    /// The kind of entity that was looked for.
    pub kind: EntityKind,
    /// The id that was looked for.
    pub id: String,
}

/// The model of a [`ReferentialError`].
pub ghost struct Dangling {
    pub kind: EntityKind,
    pub id: Seq<char>,
}

impl DeepView for ReferentialError {
    type V = Dangling;

    open spec fn deep_view(&self) -> Dangling {
        Dangling { kind: self.kind, id: self.id@ }
    }
}

/// What looking up `id` among `entities` gives: the entity under that id,
/// or the report that there is none.
pub open spec fn resolved<T>(
    entities: Map<Seq<char>, T>,
    kind: EntityKind,
    id: Seq<char>,
    r: Result<&T, ReferentialError>,
) -> bool {
    match r {
        Ok(entity) => entities.contains_key(id) && *entity == entities[id],
        Err(e) => !entities.contains_key(id) && e.deep_view() == (Dangling { kind, id }),
    }
}

/// Looks up `id` among `entities`.
pub fn resolve<'a, T>(entities: &'a Table<T>, kind: EntityKind, id: &str) -> (r: Result<
    &'a T,
    ReferentialError,
>)
    ensures
        resolved(entities@, kind, id@, r),
{
    match entities.get(id) {
        Some(entity) => Ok(entity),
        None => Err(ReferentialError { kind, id: id.to_owned() }),
    }
}

impl LiveSearchResults {
    /// The itinerary under `id`.
    pub fn itinerary(&self, id: &str) -> (r: Result<&LiveItinerary, ReferentialError>)
        ensures
            resolved(self.itineraries@, EntityKind::Itinerary, id@, r),
    {
        resolve(&self.itineraries, EntityKind::Itinerary, id)
    }

    /// The leg under `id`.
    pub fn leg(&self, id: &str) -> (r: Result<&LiveLeg, ReferentialError>)
        ensures
            resolved(self.legs@, EntityKind::Leg, id@, r),
    {
        resolve(&self.legs, EntityKind::Leg, id)
    }

    /// The segment under `id`.
    pub fn segment(&self, id: &str) -> (r: Result<&JsonValue, ReferentialError>)
        ensures
            resolved(self.segments@, EntityKind::Segment, id@, r),
    {
        resolve(&self.segments, EntityKind::Segment, id)
    }

    /// The place under `id`.
    pub fn place(&self, id: &str) -> (r: Result<&LivePlace, ReferentialError>)
        ensures
            resolved(self.places@, EntityKind::Place, id@, r),
    {
        resolve(&self.places, EntityKind::Place, id)
    }

    /// The carrier under `id`.
    pub fn carrier(&self, id: &str) -> (r: Result<&JsonValue, ReferentialError>)
        ensures
            resolved(self.carriers@, EntityKind::Carrier, id@, r),
    {
        resolve(&self.carriers, EntityKind::Carrier, id)
    }

    /// The agent under `id`.
    pub fn agent(&self, id: &str) -> (r: Result<&JsonValue, ReferentialError>)
        ensures
            resolved(self.agents@, EntityKind::Agent, id@, r),
    {
        resolve(&self.agents, EntityKind::Agent, id)
    }

    /// The alliance under `id`.
    pub fn alliance(&self, id: &str) -> (r: Result<&LiveAlliance, ReferentialError>)
        ensures
            resolved(self.alliances@, EntityKind::Alliance, id@, r),
    {
        resolve(&self.alliances, EntityKind::Alliance, id)
    }

    /// The first reference of the `i`-th leg of `itinerary` that does not
    /// resolve: the leg itself, then, for the first leg, its origin place,
    /// then its destination place.
    pub open spec fn leg_problem(self, itinerary: LiveItinerary, i: int) -> Option<Dangling> {
        let id = itinerary.leg_ids@[i]@;
        if !self.legs@.contains_key(id) {
            Some(Dangling { kind: EntityKind::Leg, id })
        } else {
            let leg = self.legs@[id];
            if i == 0 && !self.places@.contains_key(leg.origin_place_id@) {
                Some(Dangling { kind: EntityKind::Place, id: leg.origin_place_id@ })
            } else if !self.places@.contains_key(leg.destination_place_id@) {
                Some(Dangling { kind: EntityKind::Place, id: leg.destination_place_id@ })
            } else {
                None
            }
        }
    }

    /// The `i`-th leg of `itinerary`.
    pub open spec fn leg_of(self, itinerary: LiveItinerary, i: int) -> LiveLeg {
        self.legs@[itinerary.leg_ids@[i]@]
    }
}

/// One way to buy an itinerary, as a summary shows it.
#[derive(Debug, PartialEq)]
pub struct OptionSummary {
    /// The chain of agents that sell the option.
    pub agent_ids: Vec<String>,
    /// The decoded price, where it is known.
    pub price: Option<ExactDecimal>,
}

/// What a reader wants to see of an itinerary.
#[derive(Debug, PartialEq)]
pub struct ItinerarySummary {
    /// When the first leg departs.
    pub departure: LiveLocalDateTime,
    /// When the last leg arrives.
    pub arrival: LiveLocalDateTime,
    /// The name of the place where the first leg starts.
    pub origin: String,
    /// The name of the place where each leg ends, in journey order.
    pub destinations: Vec<String>,
    /// The pricing options, in the itinerary's order.
    pub options: Vec<OptionSummary>,
}

/// The model of an [`OptionSummary`].
pub ghost struct OptionModel {
    pub agent_ids: Seq<Seq<char>>,
    pub price: Option<(int, nat)>,
}

/// The model of an [`ItinerarySummary`].
pub ghost struct SummaryModel {
    pub departure: LiveLocalDateTime,
    pub arrival: LiveLocalDateTime,
    pub origin: Seq<char>,
    pub destinations: Seq<Seq<char>>,
    pub options: Seq<OptionModel>,
}

impl DeepView for OptionSummary {
    type V = OptionModel;

    open spec fn deep_view(&self) -> OptionModel {
        OptionModel { agent_ids: self.agent_ids.deep_view(), price: self.price.deep_view() }
    }
}

impl DeepView for ItinerarySummary {
    type V = SummaryModel;

    open spec fn deep_view(&self) -> SummaryModel {
        SummaryModel {
            departure: self.departure,
            arrival: self.arrival,
            origin: self.origin@,
            destinations: self.destinations.deep_view(),
            options: self.options.deep_view(),
        }
    }
}

/// The text of one pricing option: the agents joined by dots, a colon and a
/// space, and the price, which is empty where it is unknown.
pub open spec fn option_text(option: OptionModel) -> Seq<char> {
    joined(option.agent_ids, "."@) + ": "@ + match option.price {
        Some((mantissa, scale)) => decimal_text(mantissa, scale),
        None => Seq::empty(),
    }
}

/// The texts of the pricing options, in order.
pub open spec fn option_texts(options: Seq<OptionModel>) -> Seq<Seq<char>> {
    Seq::new(options.len(), |i: int| option_text(options[i]))
}

/// The line that shows a summary: departure and arrival, the places from
/// the origin on, and the pricing options.
pub open spec fn summary_line(summary: SummaryModel) -> Seq<char> {
    summary.departure.spec_text() + " - "@ + summary.arrival.spec_text() + " || "@
        + summary.origin + " -> "@ + joined(summary.destinations, "->"@) + " || "@ + joined(
        option_texts(summary.options),
        " / "@,
    )
}

/// The text of one pricing option from the chain of its agents and the text
/// of its price.
pub fn option_line(chain: &str, price: &str) -> (r: String)
    ensures
        r@ == chain@ + ": "@ + price@,
{
    let mut out = chain.to_owned();
    out.append(": ");
    out.append(price);
    out
}

/// The line of a summary from its five parts.
pub fn assemble_line(departure: &str, arrival: &str, origin: &str, route: &str, options: &str) -> (r:
    String)
    ensures
        r@ == departure@ + " - "@ + arrival@ + " || "@ + origin@ + " -> "@ + route@ + " || "@
            + options@,
{
    let mut out = departure.to_owned();
    out.append(" - ");
    out.append(arrival);
    out.append(" || ");
    out.append(origin);
    out.append(" -> ");
    out.append(route);
    out.append(" || ");
    out.append(options);
    out
}

fn clone_strings(source: &Vec<String>) -> (r: Vec<String>)
    ensures
        r.deep_view() == source.deep_view(),
{
    let mut out: Vec<String> = Vec::new();
    let mut i: usize = 0;
    while i < source.len()
        invariant
            i <= source.len(),
            out@.len() == i,
            forall|k: int| 0 <= k < i ==> (#[trigger] out@[k])@ == source@[k]@,
        decreases source.len() - i,
    {
        out.push(source[i].clone());
        i += 1;
    }
    assert(out.deep_view() =~= source.deep_view());
    out
}

impl OptionSummary {
    /// The text of the option.
    pub fn to_text(&self) -> (r: String)
        ensures
            r@ == option_text(self.deep_view()),
    {
        let chain = join_slice(&self.agent_ids, ".");
        let price = match &self.price {
            Some(d) => d.to_string(),
            None => String::new(),
        };
        option_line(chain.as_str(), price.as_str())
    }
}

impl ItinerarySummary {
    /// The line that shows the summary.
    pub fn to_line(&self) -> (r: String)
        ensures
            r@ == summary_line(self.deep_view()),
    {
        let departure = self.departure.to_string();
        let arrival = self.arrival.to_string();
        let route = join_display(&self.destinations, "->");
        let mut texts: Vec<String> = Vec::new();
        let mut i: usize = 0;
        while i < self.options.len()
            invariant
                i <= self.options.len(),
                texts@.len() == i,
                forall|k: int|
                    0 <= k < i ==> (#[trigger] texts@[k])@ == option_text(
                        self.options@[k].deep_view(),
                    ),
            decreases self.options.len() - i,
        {
            texts.push(self.options[i].to_text());
            i += 1;
        }
        assert(texts.deep_view() =~= option_texts(self.options.deep_view()));
        let options = join_display(&texts, " / ");
        assemble_line(
            departure.as_str(),
            arrival.as_str(),
            self.origin.as_str(),
            route.as_str(),
            options.as_str(),
        )
    }
}

impl FlightsLiveSearchContent {
    /// The itinerary at place `index` of the ranking `option`, looked up
    /// when it is asked for: none past the end of the ranking, else the
    /// itinerary that the entry names, or the report that this snapshot
    /// holds no such itinerary.
    pub fn ranked(&self, option: LiveSortingOption, index: usize) -> (r: Option<
        Result<&LiveItinerary, ReferentialError>,
    >)
        ensures
            r is Some <==> index < self.sorting_options.spec_index(option)@.len(),
            r matches Some(entry) ==> resolved(
                self.results.itineraries@,
                EntityKind::Itinerary,
                self.sorting_options.spec_index(option)@[index as int].itinerary_id@,
                entry,
            ),
    {
        let ranking = self.sorting_options.index(option);
        if index < ranking.len() {
            Some(self.results.itinerary(ranking[index].itinerary_id.as_str()))
        } else {
            None
        }
    }

    /// The itineraries in the order of the ranking `option`: for each entry
    /// of the ranking, in the provider's order, the itinerary that it names,
    /// or the report that this snapshot holds no such itinerary.
    pub fn sorted(&self, option: LiveSortingOption) -> (r: Vec<
        Result<&LiveItinerary, ReferentialError>,
    >)
        ensures
            r@.len() == self.sorting_options.spec_index(option)@.len(),
            forall|i: int|
                0 <= i < r@.len() ==> resolved(
                    self.results.itineraries@,
                    EntityKind::Itinerary,
                    self.sorting_options.spec_index(option)@[i].itinerary_id@,
                    #[trigger] r@[i],
                ),
    {
        let ranking = self.sorting_options.index(option);
        let mut out: Vec<Result<&LiveItinerary, ReferentialError>> = Vec::new();
        let mut i: usize = 0;
        while i < ranking.len()
            invariant
                i <= ranking.len(),
                out@.len() == i,
                *ranking == self.sorting_options.spec_index(option),
                forall|k: int|
                    0 <= k < i ==> resolved(
                        self.results.itineraries@,
                        EntityKind::Itinerary,
                        ranking@[k].itinerary_id@,
                        #[trigger] out@[k],
                    ),
            decreases ranking.len() - i,
        {
            out.push(self.results.itinerary(ranking[i].itinerary_id.as_str()));
            i += 1;
        }
        out
    }

    /// The summary of `itinerary` within this snapshot.
    pub open spec fn spec_summary(self, itinerary: LiveItinerary) -> SummaryModel {
        let n = itinerary.leg_ids@.len() as int;
        SummaryModel {
            departure: self.results.leg_of(itinerary, 0).departure_date_time,
            arrival: self.results.leg_of(itinerary, n - 1).arrival_date_time,
            origin: self.results.places@[self.results.leg_of(itinerary, 0).origin_place_id@].name@,
            destinations: Seq::new(
                n as nat,
                |i: int|
                    self.results.places@[self.results.leg_of(
                        itinerary,
                        i,
                    ).destination_place_id@].name@,
            ),
            options: Seq::new(
                itinerary.pricing_options@.len(),
                |k: int|
                    OptionModel {
                        agent_ids: itinerary.pricing_options@[k].agent_ids.deep_view(),
                        price: itinerary.pricing_options@[k].price.spec_decimal(),
                    },
            ),
        }
    }

    /// Whether `r` is what summarizing `itinerary` within this snapshot
    /// gives: the summary where every leg and place resolves, else the
    /// report of the first reference, in journey order, that does not.
    pub open spec fn summarized(
        self,
        itinerary: LiveItinerary,
        r: Result<SummaryModel, Dangling>,
    ) -> bool {
        match r {
            Ok(summary) => {
                &&& forall|i: int|
                    0 <= i < itinerary.leg_ids@.len() ==> self.results.leg_problem(itinerary, i)
                        is None
                &&& summary == self.spec_summary(itinerary)
            },
            Err(e) => exists|i: int|
                {
                    &&& 0 <= i < itinerary.leg_ids@.len()
                    &&& forall|j: int| 0 <= j < i ==> self.results.leg_problem(itinerary, j) is None
                    &&& #[trigger] self.results.leg_problem(itinerary, i) == Some(e)
                },
        }
    }

    /// Summarizes `itinerary`, which has at least one leg: when the first
    /// leg departs and the last arrives, the name of the origin, the name
    /// of each leg's destination, and the pricing options with their
    /// decoded prices.
    pub fn summarize(&self, itinerary: &LiveItinerary) -> (r: Result<
        ItinerarySummary,
        ReferentialError,
    >)
        requires
            itinerary.leg_ids@.len() > 0,
        ensures
            self.summarized(
                *itinerary,
                match r {
                    Ok(summary) => Ok(summary.deep_view()),
                    Err(e) => Err(e.deep_view()),
                },
            ),
    {
        let n = itinerary.leg_ids.len();
        let first = match self.results.leg(itinerary.leg_ids[0].as_str()) {
            Ok(leg) => leg,
            Err(e) => {
                assert(self.results.leg_problem(*itinerary, 0) == Some(e.deep_view()));
                return Err(e);
            },
        };
        let origin = match self.results.place(first.origin_place_id.as_str()) {
            Ok(place) => place.name.clone(),
            Err(e) => {
                assert(self.results.leg_problem(*itinerary, 0) == Some(e.deep_view()));
                return Err(e);
            },
        };
        let departure = first.departure_date_time;
        let mut arrival = first.arrival_date_time;
        let mut destinations: Vec<String> = Vec::new();
        let mut i: usize = 0;
        while i < n
            invariant
                n == itinerary.leg_ids@.len(),
                i <= n,
                destinations@.len() == i,
                self.results.legs@.contains_key(itinerary.leg_ids@[0]@),
                self.results.places@.contains_key(
                    self.results.leg_of(*itinerary, 0).origin_place_id@,
                ),
                forall|j: int| 0 <= j < i ==> self.results.leg_problem(*itinerary, j) is None,
                forall|j: int|
                    0 <= j < i ==> (#[trigger] destinations@[j])@
                        == self.results.places@[self.results.leg_of(
                        *itinerary,
                        j,
                    ).destination_place_id@].name@,
                i > 0 ==> arrival == self.results.leg_of(*itinerary, i - 1).arrival_date_time,
            decreases n - i,
        {
            let leg = match self.results.leg(itinerary.leg_ids[i].as_str()) {
                Ok(leg) => leg,
                Err(e) => {
                    assert(self.results.leg_problem(*itinerary, i as int) == Some(e.deep_view()));
                    return Err(e);
                },
            };
            let name = match self.results.place(leg.destination_place_id.as_str()) {
                Ok(place) => place.name.clone(),
                Err(e) => {
                    assert(self.results.leg_problem(*itinerary, i as int) == Some(e.deep_view()));
                    return Err(e);
                },
            };
            destinations.push(name);
            arrival = leg.arrival_date_time;
            i += 1;
        }
        let mut options: Vec<OptionSummary> = Vec::new();
        let mut k: usize = 0;
        while k < itinerary.pricing_options.len()
            invariant
                k <= itinerary.pricing_options.len(),
                options@.len() == k,
                forall|j: int|
                    0 <= j < k ==> (#[trigger] options@[j]).deep_view() == (OptionModel {
                        agent_ids: itinerary.pricing_options@[j].agent_ids.deep_view(),
                        price: itinerary.pricing_options@[j].price.spec_decimal(),
                    }),
            decreases itinerary.pricing_options.len() - k,
        {
            let option = &itinerary.pricing_options[k];
            options.push(
                OptionSummary {
                    agent_ids: clone_strings(&option.agent_ids),
                    price: option.price.decimal(),
                },
            );
            k += 1;
        }
        let summary = ItinerarySummary { departure, arrival, origin, destinations, options };
        proof {
            let model = self.spec_summary(*itinerary);
            assert(summary.deep_view().destinations =~= model.destinations);
            assert(summary.deep_view().options =~= model.options);
        }
        Ok(summary)
    }

    /// The line that shows `itinerary`, which has at least one leg, within
    /// this snapshot.
    pub fn format_itinerary(&self, itinerary: &LiveItinerary) -> (r: Result<
        String,
        ReferentialError,
    >)
        requires
            itinerary.leg_ids@.len() > 0,
        ensures
            match r {
                Ok(line) => self.summarized(*itinerary, Ok(self.spec_summary(*itinerary)))
                    && line@ == summary_line(self.spec_summary(*itinerary)),
                Err(e) => self.summarized(*itinerary, Err(e.deep_view())),
            },
    {
        match self.summarize(itinerary) {
            Ok(summary) => Ok(summary.to_line()),
            Err(e) => Err(e),
        }
    }
}

/// A snapshot stands alone: an id that it does not hold does not resolve in
/// it, whatever an earlier snapshot held under that id.
pub proof fn lemma_no_fallback<T>(
    earlier: Map<Seq<char>, T>,
    later: Map<Seq<char>, T>,
    kind: EntityKind,
    id: Seq<char>,
    r: Result<&T, ReferentialError>,
)
    requires
        earlier.dom().disjoint(later.dom()),
        earlier.contains_key(id),
        resolved(later, kind, id, r),
    ensures
        r is Err,
        r->Err_0.deep_view() == (Dangling { kind, id }),
{
}

} // verus!
