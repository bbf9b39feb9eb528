//! The wire-shaped representation of one train's data, exactly as the
//! remote service delivers it, before any classification.
use vstd::prelude::*;

verus! {

/// One train's data as received from the remote service. All fields are
/// plain text; the optional ones are absent when the service sent nothing.
#[derive(Debug, Clone, PartialEq, Eq)]
pub struct Train {
    /// Opaque identifier, unique within one fetch result.
    pub train_id: String,
    /// Display string, always present.
    pub train_number: String,
    /// Scheduled departure timestamp, textual layout `YYYY-MM-DDTHH:MM:SS...`.
    pub departure_time: String,
    /// Estimated delay in minutes, encoded as a non-negative decimal string.
    pub estimated_retard: Option<String>,
    /// Display string, always present.
    pub destination: String,
    /// Status discriminator: `"1"` running, `"outage"` cancelled,
    /// `"driven"` already departed; anything else is passed through raw.
    pub drives: String,
    /// Timestamp of the actual departure, present once the train has left.
    pub effective_departure_time: Option<String>,
    /// Display string, always present.
    pub train_type: String,
    /// Display string, always present.
    pub departure_station: String,
    /// Scheduled duration string; not read by classification.
    pub normal_run_time: String,
    /// Free-text annotation; `None` and the empty string both mean none.
    pub additional_info: Option<String>,
}

/// Mathematical model of a [`Train`]: every text field as a sequence of
/// characters.
pub ghost struct TrainView {
    pub train_id: Seq<char>,
    pub train_number: Seq<char>,
    pub departure_time: Seq<char>,
    pub estimated_retard: Option<Seq<char>>,
    pub destination: Seq<char>,
    pub drives: Seq<char>,
    pub effective_departure_time: Option<Seq<char>>,
    pub train_type: Seq<char>,
    pub departure_station: Seq<char>,
    pub normal_run_time: Seq<char>,
    pub additional_info: Option<Seq<char>>,
}

impl View for Train {
    type V = TrainView;

    open spec fn view(&self) -> TrainView {
        TrainView {
            train_id: self.train_id@,
            train_number: self.train_number@,
            departure_time: self.departure_time@,
            estimated_retard: self.estimated_retard.deep_view(),
            destination: self.destination@,
            drives: self.drives@,
            effective_departure_time: self.effective_departure_time.deep_view(),
            train_type: self.train_type@,
            departure_station: self.departure_station@,
            normal_run_time: self.normal_run_time@,
            additional_info: self.additional_info.deep_view(),
        }
    }
}

impl DeepView for Train {
    type V = TrainView;

    open spec fn deep_view(&self) -> TrainView {
        self.view()
    }
}

/// Why a fetch attempt produced no record list. The scheduler treats both
/// variants the same way: the cycle is skipped and the prior state kept.
#[derive(Debug, Clone, Copy, PartialEq, Eq)]
pub enum FetchError {
    /// The transport failed before a response body was available.
    Transport,
    /// A response arrived but could not be decoded into records.
    Decode,
}

} // verus!
