//! The observation extractor: a single forward pass over the feed document's
//! structural events, tracking the latest valid sample of each parameter kind
//! and the latest localizable timestamp, assembled into a [`WeatherData`]
//! only when every field resolved.
//!
//! The traversal state and its transitions are exactly the model of
//! [`crate::feed_model`]: each event-application method is proved equal to
//! one [`step`], the loop maintains the fold of the events seen so far, and
//! the final gate is proved equal to [`gate`].

use crate::compass;
use crate::feed_model::{
    extraction_outcome, fold_events, gate, init_state, lemma_fold_push, step, FeedEvent,
    ObservationModel, ParameterKind, TraversalModel,
};
use crate::localtime;
use crate::strutil;
use crate::strutil::trim_spec;
use crate::xml_events::{
    self, open_elements, read_event_of, read_text_of, remaining_text, strip_bom, RawEvent,
    RawEventModel,
};
use vstd::prelude::*;

verus! {

/// One complete weather observation, all fields in display form: the numeric
/// fields exactly as the feed transmitted them, the wind direction as a
/// compass-point name, and the observation time as a Helsinki civil-time
/// string.
#[derive(Debug)]
pub struct WeatherData {
    pub time_of_observation: String,
    pub wind_speed_meters_per_second: String,
    pub temperature_celsius: String,
    pub wind_direction: String,
    pub wind_gust_speed_meters_per_second: String,
}

impl View for WeatherData {
    type V = ObservationModel;

    open spec fn view(&self) -> ObservationModel {
        ObservationModel {
            observed_at: self.time_of_observation@,
            wind_speed: self.wind_speed_meters_per_second@,
            temperature: self.temperature_celsius@,
            wind_direction: self.wind_direction@,
            wind_gust: self.wind_gust_speed_meters_per_second@,
        }
    }
}

/// The tokenizer rejected the document: a structural failure of the whole
/// extraction, distinct from the recoverable field-level anomalies and from
/// the "no observation" outcome.
#[derive(Debug, Clone, Copy, PartialEq, Eq)]
pub struct MalformedXml;

/// The view of an optional owned string.
pub open spec fn opt_view(o: Option<String>) -> Option<Seq<char>> {
    match o {
        Some(s) => Some(s@),
        None => None,
    }
}

/// The extractor's mutable traversal state; its view is the model's
/// [`TraversalModel`].
pub struct TraversalState {
    current_parameter: Option<ParameterKind>,
    wind_speed: Option<String>,
    temperature: Option<String>,
    wind_direction: Option<String>,
    wind_gust: Option<String>,
    observed_at: Option<String>,
}

impl View for TraversalState {
    type V = TraversalModel;

    closed spec fn view(&self) -> TraversalModel {
        TraversalModel {
            current_parameter: self.current_parameter,
            wind_speed: opt_view(self.wind_speed),
            temperature: opt_view(self.temperature),
            wind_direction: opt_view(self.wind_direction),
            wind_gust: opt_view(self.wind_gust),
            observed_at: opt_view(self.observed_at),
        }
    }
}

impl TraversalState {
    /// The state before any event.
    pub fn new() -> (s: Self)
        ensures
            s@ == init_state(),
    {
        TraversalState {
            current_parameter: None,
            wind_speed: None,
            temperature: None,
            wind_direction: None,
            wind_gust: None,
            observed_at: None,
        }
    }

    /// Applies a parameter-name element's text: the context becomes the named
    /// kind, or none for an unrecognized token.
    fn apply_parameter_name(&mut self, text: &str)
        ensures
            final(self)@ == step(old(self)@, FeedEvent::ParameterName(text@)),
    {
        if strutil::str_eq(text, "WindSpeedMS") {
            self.current_parameter = Some(ParameterKind::WindSpeed);
        } else if strutil::str_eq(text, "Temperature") {
            self.current_parameter = Some(ParameterKind::Temperature);
        } else if strutil::str_eq(text, "WindDirection") {
            self.current_parameter = Some(ParameterKind::WindDirection);
        } else if strutil::str_eq(text, "WindGust") {
            self.current_parameter = Some(ParameterKind::WindGust);
        } else {
            self.current_parameter = None;
        }
    }

    /// Applies a parameter-value element's text: stored into the slot of the
    /// current parameter, wind directions compass-converted; discarded when
    /// there is no context or the conversion fails.
    fn apply_parameter_value(&mut self, text: &str)
        ensures
            final(self)@ == step(old(self)@, FeedEvent::ParameterValue(text@)),
    {
        match self.current_parameter {
            Some(ParameterKind::WindSpeed) => {
                self.wind_speed = Some(String::from_str(text));
            },
            Some(ParameterKind::Temperature) => {
                self.temperature = Some(String::from_str(text));
            },
            Some(ParameterKind::WindDirection) => {
                match compass::bearing_to_compass(text) {
                    Some(label) => {
                        self.wind_direction = Some(label);
                    },
                    None => {},
                }
            },
            Some(ParameterKind::WindGust) => {
                self.wind_gust = Some(String::from_str(text));
            },
            None => {},
        }
    }

    /// Applies a timestamp element's text: the observation time becomes its
    /// Helsinki localization; an unparseable timestamp is skipped.
    fn apply_time(&mut self, text: &str)
        ensures
            final(self)@ == step(old(self)@, FeedEvent::Time(text@)),
    {
        match localtime::localize_utc_timestamp(text) {
            Some(local) => {
                self.observed_at = Some(local);
            },
            None => {},
        }
    }

    /// The all-or-nothing gate: an observation exactly when every field
    /// resolved.
    fn finish(self) -> (r: Option<WeatherData>)
        ensures
            (match r {
                Some(data) => Some(data@),
                None => None,
            }) == gate(self@),
    {
        match (self.observed_at, self.wind_speed, self.temperature, self.wind_direction, self.wind_gust) {
            (Some(time), Some(speed), Some(temp), Some(direction), Some(gust)) => Some(
                WeatherData {
                    time_of_observation: time,
                    wind_speed_meters_per_second: speed,
                    temperature_celsius: temp,
                    wind_direction: direction,
                    wind_gust_speed_meters_per_second: gust,
                },
            ),
            _ => None,
        }
    }
}

/// Whether the extractor reads the text content of an element so named.
pub open spec fn is_tracked_tag(tag: Seq<char>) -> bool {
    tag == "BsWfs:ParameterName"@ || tag == "BsWfs:ParameterValue"@ || tag == "BsWfs:Time"@
}

/// The feed event carried by a tracked element named `tag` with text `text`.
pub open spec fn tag_event(tag: Seq<char>, text: Seq<char>) -> FeedEvent {
    if tag == "BsWfs:ParameterName"@ {
        FeedEvent::ParameterName(text)
    } else if tag == "BsWfs:ParameterValue"@ {
        FeedEvent::ParameterValue(text)
    } else {
        FeedEvent::Time(text)
    }
}

/// The text-bearing feed events left in a reader with this state, under the
/// extractor's protocol — the text of each tracked element, trimmed, in
/// document order — and whether the tokenizer rejects the document first.
///
/// Each recursive step is guarded by the input having shrunk, which makes the
/// recursion well-founded; for the real tokenizer the guards always hold,
/// since every event except end-of-document consumes input.
pub open spec fn extraction_trace(rem: Seq<char>, open_tags: Seq<Seq<char>>) -> (
    Seq<FeedEvent>,
    bool,
)
    decreases rem.len(),
{
    let (head, rest, still_open) = read_event_of(rem, open_tags);
    match head {
        RawEventModel::Eof => (Seq::empty(), false),
        RawEventModel::Malformed => (Seq::empty(), true),
        RawEventModel::Other => if rest.len() < rem.len() {
            extraction_trace(rest, still_open)
        } else {
            (Seq::empty(), false)
        },
        RawEventModel::Start(tag) => if is_tracked_tag(tag) {
            let (content, rest2, open2) = read_text_of(rest, still_open, tag);
            let tail = if rest2.len() < rem.len() {
                extraction_trace(rest2, open2)
            } else {
                (Seq::empty(), false)
            };
            match content {
                Some(text) => (seq![tag_event(tag, trim_spec(text))] + tail.0, tail.1),
                None => tail,
            }
        } else {
            if rest.len() < rem.len() {
                extraction_trace(rest, still_open)
            } else {
                (Seq::empty(), false)
            }
        },
    }
}

/// The text-bearing feed events of a whole document, and whether the
/// tokenizer rejects it.
pub open spec fn document_extraction(doc: Seq<char>) -> (Seq<FeedEvent>, bool) {
    extraction_trace(strip_bom(doc), Seq::empty())
}

/// Decodes one feed document into at most one complete observation.
///
/// The result is a function of the document: the error is returned exactly
/// when the tokenizer rejects the document, and otherwise the outcome is the
/// fold of the document's text-bearing events under the model of
/// [`crate::feed_model`] — `Some` holding the latest valid sample of each
/// tracked parameter and the latest localizable timestamp when every field
/// resolved, `None` when some field never did. An empty document yields no
/// observation and no error. Elements whose text cannot be read are skipped,
/// like any other invalid sample.
pub fn parse_latest_weather_data(xml: &str) -> (r: Result<Option<WeatherData>, MalformedXml>)
    ensures
        r is Err <==> document_extraction(xml@).1,
        (r matches Ok(found) ==> (match found {
            Some(data) => Some(data@),
            None => None,
        }) == extraction_outcome(document_extraction(xml@).0)),
        xml@.len() == 0 ==> r == Ok::<Option<WeatherData>, MalformedXml>(None),
{
    let mut reader = xml_events::reader_from_str(xml);
    let mut state = TraversalState::new();
    let ghost mut events: Seq<FeedEvent> = Seq::empty();
    proof {
        assert(events + extraction_trace(strip_bom(xml@), Seq::empty()).0 =~= extraction_trace(
            strip_bom(xml@),
            Seq::empty(),
        ).0);
    }
    loop
        invariant
            state@ == fold_events(init_state(), events),
            document_extraction(xml@).0 == events + extraction_trace(
                remaining_text(reader),
                open_elements(reader),
            ).0,
            document_extraction(xml@).1 == extraction_trace(
                remaining_text(reader),
                open_elements(reader),
            ).1,
            xml@.len() == 0 ==> events == Seq::<FeedEvent>::empty() && remaining_text(reader)
                == Seq::<char>::empty() && open_elements(reader) == Seq::<Seq<char>>::empty(),
        decreases remaining_text(reader).len(),
    {
        let ghost rem0 = remaining_text(reader);
        let ghost open0 = open_elements(reader);
        match xml_events::next_event(&mut reader) {
            RawEvent::Eof => {
                proof {
                    assert(extraction_trace(rem0, open0) == (Seq::<FeedEvent>::empty(), false));
                    assert(events + Seq::<FeedEvent>::empty() =~= events);
                }
                let found = state.finish();
                proof {
                    if xml@.len() == 0 {
                        assert(state@ == init_state());
                        assert(gate(init_state()) is None);
                    }
                }
                return Ok(found);
            },
            RawEvent::Malformed => {
                proof {
                    assert(extraction_trace(rem0, open0) == (Seq::<FeedEvent>::empty(), true));
                    if xml@.len() == 0 {
                        // An exhausted reader with no element open reports
                        // only end-of-document.
                        assert(false);
                    }
                }
                return Err(MalformedXml);
            },
            RawEvent::Other => {
                proof {
                    if xml@.len() == 0 {
                        assert(false);
                    }
                    assert(extraction_trace(rem0, open0) == extraction_trace(
                        remaining_text(reader),
                        open_elements(reader),
                    ));
                }
            },
            RawEvent::Start(name) => {
                let ghost tag = name@;
                let ghost rem1 = remaining_text(reader);
                let ghost open1 = open_elements(reader);
                proof {
                    if xml@.len() == 0 {
                        assert(false);
                    }
                }
                if strutil::str_eq(name.as_str(), "BsWfs:ParameterName") {
                    match xml_events::read_element_text(&mut reader, name.as_str()) {
                        Some(content) => {
                            let text = strutil::trim_xml_ws(content.as_str());
                            state.apply_parameter_name(text.as_str());
                            proof {
                                let tail = extraction_trace(
                                    read_text_of(rem1, open1, tag).1,
                                    read_text_of(rem1, open1, tag).2,
                                );
                                assert(extraction_trace(rem0, open0) == (
                                    seq![FeedEvent::ParameterName(text@)] + tail.0,
                                    tail.1,
                                ));
                                lemma_fold_push(
                                    init_state(),
                                    events,
                                    FeedEvent::ParameterName(text@),
                                );
                                events = events.push(FeedEvent::ParameterName(text@));
                                assert(document_extraction(xml@).0 =~= events + tail.0);
                            }
                        },
                        None => {
                            proof {
                                assert(extraction_trace(rem0, open0) == extraction_trace(
                                    remaining_text(reader),
                                    open_elements(reader),
                                ));
                            }
                        },
                    }
                } else if strutil::str_eq(name.as_str(), "BsWfs:ParameterValue") {
                    match xml_events::read_element_text(&mut reader, name.as_str()) {
                        Some(content) => {
                            let text = strutil::trim_xml_ws(content.as_str());
                            state.apply_parameter_value(text.as_str());
                            proof {
                                let tail = extraction_trace(
                                    read_text_of(rem1, open1, tag).1,
                                    read_text_of(rem1, open1, tag).2,
                                );
                                assert(extraction_trace(rem0, open0) == (
                                    seq![FeedEvent::ParameterValue(text@)] + tail.0,
                                    tail.1,
                                ));
                                lemma_fold_push(
                                    init_state(),
                                    events,
                                    FeedEvent::ParameterValue(text@),
                                );
                                events = events.push(FeedEvent::ParameterValue(text@));
                                assert(document_extraction(xml@).0 =~= events + tail.0);
                            }
                        },
                        None => {
                            proof {
                                assert(extraction_trace(rem0, open0) == extraction_trace(
                                    remaining_text(reader),
                                    open_elements(reader),
                                ));
                            }
                        },
                    }
                } else if strutil::str_eq(name.as_str(), "BsWfs:Time") {
                    match xml_events::read_element_text(&mut reader, name.as_str()) {
                        Some(content) => {
                            let text = strutil::trim_xml_ws(content.as_str());
                            state.apply_time(text.as_str());
                            proof {
                                let tail = extraction_trace(
                                    read_text_of(rem1, open1, tag).1,
                                    read_text_of(rem1, open1, tag).2,
                                );
                                assert(extraction_trace(rem0, open0) == (
                                    seq![FeedEvent::Time(text@)] + tail.0,
                                    tail.1,
                                ));
                                lemma_fold_push(init_state(), events, FeedEvent::Time(text@));
                                events = events.push(FeedEvent::Time(text@));
                                assert(document_extraction(xml@).0 =~= events + tail.0);
                            }
                        },
                        None => {
                            proof {
                                assert(extraction_trace(rem0, open0) == extraction_trace(
                                    remaining_text(reader),
                                    open_elements(reader),
                                ));
                            }
                        },
                    }
                } else {
                    proof {
                        assert(!is_tracked_tag(tag));
                        assert(extraction_trace(rem0, open0) == extraction_trace(
                            remaining_text(reader),
                            open_elements(reader),
                        ));
                    }
                }
            },
        }
    }
}

} // verus!
