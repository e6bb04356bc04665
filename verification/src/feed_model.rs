//! The mathematical model of the observation extractor.
//!
//! A feed document is abstracted as a sequence of [`FeedEvent`]s: the text
//! content of the parameter-name, parameter-value and timestamp elements, in
//! document order. The extractor's behaviour is the left fold of [`step`]
//! over that sequence, starting from the empty traversal state, followed by
//! the all-or-nothing [`gate`]. The proof functions at the end state the
//! laws of this model: an observation is produced exactly when every slot
//! resolved, the latest valid sample of a kind wins, an invalid sample never
//! clobbers an earlier valid one, and samples outside a recognized parameter
//! context are ignored.

use crate::compass::compass_of_text;
use crate::localtime::helsinki_local;
use vstd::prelude::*;

verus! {

/// The parameter kinds the extractor tracks; any other parameter name in the
/// feed leaves the extractor without a current parameter.
#[derive(Clone, Copy)]
pub enum ParameterKind {
    WindSpeed,
    Temperature,
    WindDirection,
    WindGust,
}

/// One text-bearing structural event of the feed, carrying the element's
/// trimmed text content.
pub enum FeedEvent {
    ParameterName(Seq<char>),
    ParameterValue(Seq<char>),
    Time(Seq<char>),
}

/// The extractor's traversal state: the parameter context set by the last
/// parameter-name element, and the latest resolved value of each tracked
/// field.
pub struct TraversalModel {
    pub current_parameter: Option<ParameterKind>,
    pub wind_speed: Option<Seq<char>>,
    pub temperature: Option<Seq<char>>,
    pub wind_direction: Option<Seq<char>>,
    pub wind_gust: Option<Seq<char>>,
    pub observed_at: Option<Seq<char>>,
}

/// A complete observation: every field resolved.
pub struct ObservationModel {
    pub observed_at: Seq<char>,
    pub wind_speed: Seq<char>,
    pub temperature: Seq<char>,
    pub wind_direction: Seq<char>,
    pub wind_gust: Seq<char>,
}

/// The parameter kind named by a parameter-name element's text, by exact
/// match on the feed's four known tokens.
pub open spec fn kind_of_token(t: Seq<char>) -> Option<ParameterKind> {
    if t == "WindSpeedMS"@ {
        Some(ParameterKind::WindSpeed)
    } else if t == "Temperature"@ {
        Some(ParameterKind::Temperature)
    } else if t == "WindDirection"@ {
        Some(ParameterKind::WindDirection)
    } else if t == "WindGust"@ {
        Some(ParameterKind::WindGust)
    } else {
        None
    }
}

/// The stored form of a sample of `kind` with text `t`: wind directions are
/// converted to a compass-point name and fail when unparseable; the other
/// kinds pass through verbatim.
pub open spec fn sample_value(kind: ParameterKind, t: Seq<char>) -> Option<Seq<char>> {
    match kind {
        ParameterKind::WindSpeed => Some(t),
        ParameterKind::Temperature => Some(t),
        ParameterKind::WindDirection => compass_of_text(t),
        ParameterKind::WindGust => Some(t),
    }
}

/// The state before any event: no context, no values.
pub open spec fn init_state() -> TraversalModel {
    TraversalModel {
        current_parameter: None,
        wind_speed: None,
        temperature: None,
        wind_direction: None,
        wind_gust: None,
        observed_at: None,
    }
}

/// `s` with the slot of `kind` overwritten by `v`.
pub open spec fn store_slot(s: TraversalModel, kind: ParameterKind, v: Seq<char>) -> TraversalModel {
    match kind {
        ParameterKind::WindSpeed => TraversalModel { wind_speed: Some(v), ..s },
        ParameterKind::Temperature => TraversalModel { temperature: Some(v), ..s },
        ParameterKind::WindDirection => TraversalModel { wind_direction: Some(v), ..s },
        ParameterKind::WindGust => TraversalModel { wind_gust: Some(v), ..s },
    }
}

/// The slot of `kind` in `s`.
pub open spec fn slot(s: TraversalModel, kind: ParameterKind) -> Option<Seq<char>> {
    match kind {
        ParameterKind::WindSpeed => s.wind_speed,
        ParameterKind::Temperature => s.temperature,
        ParameterKind::WindDirection => s.wind_direction,
        ParameterKind::WindGust => s.wind_gust,
    }
}

/// The extractor's decision table: how one feed event transforms the state.
///
/// A parameter-name element always resets the parameter context (to `None`
/// for an unrecognized token). A parameter-value element stores the sample
/// into the slot of the current parameter, unless there is no context or the
/// sample does not convert, in which case the state is unchanged. A timestamp
/// element overwrites the observation time when its text localizes, and is
/// otherwise ignored.
pub open spec fn step(s: TraversalModel, ev: FeedEvent) -> TraversalModel {
    match ev {
        FeedEvent::ParameterName(t) => TraversalModel { current_parameter: kind_of_token(t), ..s },
        FeedEvent::ParameterValue(t) => match s.current_parameter {
            Some(kind) => match sample_value(kind, t) {
                Some(v) => store_slot(s, kind, v),
                None => s,
            },
            None => s,
        },
        FeedEvent::Time(t) => match helsinki_local(t) {
            Some(local) => TraversalModel { observed_at: Some(local), ..s },
            None => s,
        },
    }
}

/// The left fold of [`step`] over an event sequence.
pub open spec fn fold_events(s: TraversalModel, evs: Seq<FeedEvent>) -> TraversalModel
    decreases evs.len(),
{
    if evs.len() == 0 {
        s
    } else {
        step(fold_events(s, evs.drop_last()), evs.last())
    }
}

/// The all-or-nothing gate: an observation exactly when every tracked field
/// resolved, holding exactly the resolved values.
pub open spec fn gate(s: TraversalModel) -> Option<ObservationModel> {
    if s.observed_at is Some && s.wind_speed is Some && s.temperature is Some
        && s.wind_direction is Some && s.wind_gust is Some {
        Some(
            ObservationModel {
                observed_at: s.observed_at.unwrap(),
                wind_speed: s.wind_speed.unwrap(),
                temperature: s.temperature.unwrap(),
                wind_direction: s.wind_direction.unwrap(),
                wind_gust: s.wind_gust.unwrap(),
            },
        )
    } else {
        None
    }
}

/// What the extractor returns for a document whose text-bearing events are `evs`.
pub open spec fn extraction_outcome(evs: Seq<FeedEvent>) -> Option<ObservationModel> {
    gate(fold_events(init_state(), evs))
}

/// Folding one more event is one more step.
pub proof fn lemma_fold_push(s: TraversalModel, evs: Seq<FeedEvent>, ev: FeedEvent)
    ensures
        fold_events(s, evs.push(ev)) == step(fold_events(s, evs), ev),
{
    assert(evs.push(ev).drop_last() =~= evs);
    assert(evs.push(ev).last() == ev);
}

/// When every tracked field resolved during traversal, the outcome is an
/// observation holding exactly the resolved values.
pub proof fn lemma_complete_traversal_yields_observation(evs: Seq<FeedEvent>)
    requires
        fold_events(init_state(), evs).observed_at is Some,
        fold_events(init_state(), evs).wind_speed is Some,
        fold_events(init_state(), evs).temperature is Some,
        fold_events(init_state(), evs).wind_direction is Some,
        fold_events(init_state(), evs).wind_gust is Some,
    ensures
        extraction_outcome(evs) == Some(
            ObservationModel {
                observed_at: fold_events(init_state(), evs).observed_at.unwrap(),
                wind_speed: fold_events(init_state(), evs).wind_speed.unwrap(),
                temperature: fold_events(init_state(), evs).temperature.unwrap(),
                wind_direction: fold_events(init_state(), evs).wind_direction.unwrap(),
                wind_gust: fold_events(init_state(), evs).wind_gust.unwrap(),
            },
        ),
{
}

/// When any one of the five tracked fields never resolved, the outcome is no
/// observation at all — never a partially filled one.
pub proof fn lemma_missing_field_yields_none(evs: Seq<FeedEvent>)
    requires
        fold_events(init_state(), evs).observed_at is None || fold_events(init_state(), evs).wind_speed is None
            || fold_events(init_state(), evs).temperature is None || fold_events(
            init_state(),
            evs,
        ).wind_direction is None || fold_events(init_state(), evs).wind_gust is None,
    ensures
        extraction_outcome(evs) is None,
{
}

/// Storing a value fills exactly the slot of its kind and keeps the context.
proof fn lemma_store_slot(s: TraversalModel, kind: ParameterKind, v: Seq<char>)
    ensures
        slot(store_slot(s, kind, v), kind) == Some(v),
        store_slot(s, kind, v).current_parameter == s.current_parameter,
{
    match kind {
        ParameterKind::WindSpeed => {},
        ParameterKind::Temperature => {},
        ParameterKind::WindDirection => {},
        ParameterKind::WindGust => {},
    }
}

/// Latest wins: of two valid samples for the same parameter kind, in document
/// order, the second one is retained, whatever the first was.
pub proof fn lemma_latest_valid_sample_wins(
    s: TraversalModel,
    kind: ParameterKind,
    t1: Seq<char>,
    t2: Seq<char>,
)
    requires
        s.current_parameter == Some(kind),
        sample_value(kind, t1) is Some,
        sample_value(kind, t2) is Some,
    ensures
        slot(
            fold_events(s, seq![FeedEvent::ParameterValue(t1), FeedEvent::ParameterValue(t2)]),
            kind,
        ) == sample_value(kind, t2),
{
    let evs = seq![FeedEvent::ParameterValue(t1), FeedEvent::ParameterValue(t2)];
    let one = seq![FeedEvent::ParameterValue(t1)];
    assert(evs.drop_last() =~= one);
    assert(one.drop_last() =~= Seq::<FeedEvent>::empty());
    assert(fold_events(s, one.drop_last()) == s);
    assert(fold_events(s, one) == step(s, FeedEvent::ParameterValue(t1)));
    let s1 = store_slot(s, kind, sample_value(kind, t1).unwrap());
    lemma_store_slot(s, kind, sample_value(kind, t1).unwrap());
    assert(fold_events(s, evs) == step(s1, FeedEvent::ParameterValue(t2)));
    lemma_store_slot(s1, kind, sample_value(kind, t2).unwrap());
}

/// Latest timestamp wins: of two localizable timestamps in document order,
/// the second is the observation time retained.
pub proof fn lemma_latest_time_wins(s: TraversalModel, t1: Seq<char>, t2: Seq<char>)
    requires
        helsinki_local(t1) is Some,
        helsinki_local(t2) is Some,
    ensures
        fold_events(s, seq![FeedEvent::Time(t1), FeedEvent::Time(t2)]).observed_at
            == helsinki_local(t2),
{
    let evs = seq![FeedEvent::Time(t1), FeedEvent::Time(t2)];
    let one = seq![FeedEvent::Time(t1)];
    assert(evs.drop_last() =~= one);
    assert(one.drop_last() =~= Seq::<FeedEvent>::empty());
    assert(fold_events(s, one.drop_last()) == s);
    assert(fold_events(s, one) == step(s, FeedEvent::Time(t1)));
    assert(fold_events(s, evs) == step(fold_events(s, one), FeedEvent::Time(t2)));
}

/// A sample that does not convert leaves the whole state untouched — in
/// particular it does not clobber an earlier valid value of its kind.
pub proof fn lemma_invalid_sample_preserves_state(s: TraversalModel, t: Seq<char>)
    requires
        s.current_parameter is Some ==> sample_value(s.current_parameter.unwrap(), t) is None,
    ensures
        step(s, FeedEvent::ParameterValue(t)) == s,
{
}

/// A timestamp that does not localize leaves the observation time untouched.
pub proof fn lemma_invalid_time_preserves_state(s: TraversalModel, t: Seq<char>)
    requires
        helsinki_local(t) is None,
    ensures
        step(s, FeedEvent::Time(t)) == s,
{
}

/// A valid sample, an invalid one, then a valid one, all of the same kind:
/// after the invalid sample the first value still stands, and the final value
/// is the last valid one — the invalid sample neither clobbers nor discards.
pub proof fn lemma_invalid_between_valid(
    s: TraversalModel,
    kind: ParameterKind,
    good1: Seq<char>,
    bad: Seq<char>,
    good2: Seq<char>,
)
    requires
        s.current_parameter == Some(kind),
        sample_value(kind, good1) is Some,
        sample_value(kind, bad) is None,
        sample_value(kind, good2) is Some,
    ensures
        slot(
            fold_events(
                s,
                seq![
                    FeedEvent::ParameterValue(good1),
                    FeedEvent::ParameterValue(bad),
                    FeedEvent::ParameterValue(good2),
                ],
            ),
            kind,
        ) == sample_value(kind, good2),
        slot(
            fold_events(s, seq![FeedEvent::ParameterValue(good1), FeedEvent::ParameterValue(bad)]),
            kind,
        ) == sample_value(kind, good1),
{
    let three = seq![
        FeedEvent::ParameterValue(good1),
        FeedEvent::ParameterValue(bad),
        FeedEvent::ParameterValue(good2),
    ];
    let two = seq![FeedEvent::ParameterValue(good1), FeedEvent::ParameterValue(bad)];
    let one = seq![FeedEvent::ParameterValue(good1)];
    assert(three.drop_last() =~= two);
    assert(two.drop_last() =~= one);
    assert(one.drop_last() =~= Seq::<FeedEvent>::empty());
    assert(fold_events(s, one.drop_last()) == s);
    assert(fold_events(s, one) == step(s, FeedEvent::ParameterValue(good1)));
    let s1 = store_slot(s, kind, sample_value(kind, good1).unwrap());
    lemma_store_slot(s, kind, sample_value(kind, good1).unwrap());
    assert(fold_events(s, two) == step(s1, FeedEvent::ParameterValue(bad)));
    assert(fold_events(s, two) == s1);
    assert(fold_events(s, three) == step(s1, FeedEvent::ParameterValue(good2)));
    lemma_store_slot(s1, kind, sample_value(kind, good2).unwrap());
}

/// A parameter value seen while no parameter context is set is discarded.
pub proof fn lemma_value_without_context_ignored(s: TraversalModel, t: Seq<char>)
    requires
        s.current_parameter is None,
    ensures
        step(s, FeedEvent::ParameterValue(t)) == s,
{
}

/// An unrecognized parameter name clears the context and changes no value.
pub proof fn lemma_unrecognized_name_clears_context(s: TraversalModel, t: Seq<char>)
    requires
        kind_of_token(t) is None,
    ensures
        step(s, FeedEvent::ParameterName(t)) == (TraversalModel { current_parameter: None, ..s }),
{
}

} // verus!
