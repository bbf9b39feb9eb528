//! The status classifier: a pure mapping from one raw record to the
//! mutually exclusive display state the renderer shows for it, plus an
//! optional free-text annotation.
use vstd::prelude::*;

use crate::record::{Train, TrainView};
use crate::text::{digits_value, parse_retard, parses_as_minutes, str_eq};

verus! {

broadcast use vstd::string::group_string_axioms;

/// The render-ready status of one train. Exactly one variant holds per
/// record; an annotation, when present, rides alongside in [`Classified`].
#[derive(Debug, Clone, PartialEq, Eq)]
pub enum DisplayState {
    /// Running with no currently estimated delay.
    OnTime,
    /// Running with a positive estimated delay, in minutes.
    EstimatedDelay(u32),
    /// The train has demonstrably departed at the carried timestamp;
    /// this overrides every stale estimate.
    EffectiveDeparture(String),
    /// The run is cancelled.
    Outage,
    /// The train already drove, with the delay it accumulated if one was
    /// reported (`None` when none, or when the report was `"0"`).
    AlreadyDriven(Option<u32>),
    /// A status or delay string the classifier does not recognize,
    /// handed through verbatim rather than guessed at.
    RawPassthrough(String),
}

/// Mathematical model of a [`DisplayState`].
pub ghost enum DisplayStateView {
    OnTime,
    EstimatedDelay(nat),
    EffectiveDeparture(Seq<char>),
    Outage,
    AlreadyDriven(Option<nat>),
    RawPassthrough(Seq<char>),
}

impl View for DisplayState {
    type V = DisplayStateView;

    open spec fn view(&self) -> DisplayStateView {
        match self {
            DisplayState::OnTime => DisplayStateView::OnTime,
            DisplayState::EstimatedDelay(m) => DisplayStateView::EstimatedDelay(*m as nat),
            DisplayState::EffectiveDeparture(t) => DisplayStateView::EffectiveDeparture(t@),
            DisplayState::Outage => DisplayStateView::Outage,
            DisplayState::AlreadyDriven(m) => DisplayStateView::AlreadyDriven(
                match m {
                    Some(v) => Some(*v as nat),
                    None => None,
                },
            ),
            DisplayState::RawPassthrough(s) => DisplayStateView::RawPassthrough(s@),
        }
    }
}

impl DeepView for DisplayState {
    type V = DisplayStateView;

    open spec fn deep_view(&self) -> DisplayStateView {
        self.view()
    }
}

/// One record's classification result: the display state and the
/// annotation to show beside it, if any.
#[derive(Debug, Clone, PartialEq, Eq)]
pub struct Classified {
    pub state: DisplayState,
    pub annotation: Option<String>,
}

/// Mathematical model of a [`Classified`].
pub ghost struct ClassifiedView {
    pub state: DisplayStateView,
    pub annotation: Option<Seq<char>>,
}

impl View for Classified {
    type V = ClassifiedView;

    open spec fn view(&self) -> ClassifiedView {
        ClassifiedView { state: self.state@, annotation: self.annotation.deep_view() }
    }
}

impl DeepView for Classified {
    type V = ClassifiedView;

    open spec fn deep_view(&self) -> ClassifiedView {
        self.view()
    }
}

/// The display state a record classifies to. Priority order, first match
/// wins: an effective departure is ground truth and overrides everything;
/// then the status discriminator decides; unparsable delay strings fall
/// back to raw passthrough of the offending text rather than aborting.
pub open spec fn spec_state(t: TrainView) -> DisplayStateView {
    match t.effective_departure_time {
        Some(ts) => DisplayStateView::EffectiveDeparture(ts),
        None => if t.drives == "outage"@ {
            DisplayStateView::Outage
        } else if t.drives == "driven"@ {
            match t.estimated_retard {
                None => DisplayStateView::AlreadyDriven(None),
                Some(r) => if r == "0"@ {
                    DisplayStateView::AlreadyDriven(None)
                } else if parses_as_minutes(r) {
                    DisplayStateView::AlreadyDriven(Some(digits_value(r)))
                } else {
                    DisplayStateView::RawPassthrough(r)
                },
            }
        } else if t.drives == "1"@ {
            match t.estimated_retard {
                None => DisplayStateView::OnTime,
                Some(r) => if parses_as_minutes(r) {
                    if digits_value(r) == 0 {
                        DisplayStateView::OnTime
                    } else {
                        DisplayStateView::EstimatedDelay(digits_value(r))
                    }
                } else {
                    DisplayStateView::RawPassthrough(r)
                },
            }
        } else {
            DisplayStateView::RawPassthrough(t.drives)
        },
    }
}

/// The annotation a record carries: its free text when present and
/// non-empty; absence and the empty string are equivalent.
pub open spec fn spec_annotation(t: TrainView) -> Option<Seq<char>> {
    match t.additional_info {
        Some(a) => if a.len() > 0 {
            Some(a)
        } else {
            None
        },
        None => None,
    }
}

/// Full classification of one record: state plus annotation.
pub open spec fn spec_classify(t: TrainView) -> ClassifiedView {
    ClassifiedView { state: spec_state(t), annotation: spec_annotation(t) }
}

/// Classify one raw record. Pure: the result is exactly
/// [`spec_classify`] of the record's field values, so equal records
/// always classify equally and classification never panics, whatever
/// the service sent.
pub fn classify(t: &Train) -> (c: Classified)
    ensures
        c@ == spec_classify(t@),
{
    let state = match &t.effective_departure_time {
        Some(ts) => DisplayState::EffectiveDeparture(ts.clone()),
        None => if str_eq(t.drives.as_str(), "outage") {
            DisplayState::Outage
        } else if str_eq(t.drives.as_str(), "driven") {
            match &t.estimated_retard {
                None => DisplayState::AlreadyDriven(None),
                Some(r) => if str_eq(r.as_str(), "0") {
                    DisplayState::AlreadyDriven(None)
                } else {
                    match parse_retard(r.as_str()) {
                        Some(m) => DisplayState::AlreadyDriven(Some(m)),
                        None => DisplayState::RawPassthrough(r.clone()),
                    }
                },
            }
        } else if str_eq(t.drives.as_str(), "1") {
            match &t.estimated_retard {
                None => DisplayState::OnTime,
                Some(r) => match parse_retard(r.as_str()) {
                    Some(m) => if m == 0 {
                        DisplayState::OnTime
                    } else {
                        DisplayState::EstimatedDelay(m)
                    },
                    None => DisplayState::RawPassthrough(r.clone()),
                },
            }
        } else {
            DisplayState::RawPassthrough(t.drives.clone())
        },
    };
    let annotation = match &t.additional_info {
        Some(a) => if a.as_str().is_empty() {
            None
        } else {
            Some(a.clone())
        },
        None => None,
    };
    Classified { state, annotation }
}

/// Law: an effective departure is ground truth — whenever it is present,
/// the record classifies to it, whatever `drives` and `estimated_retard`
/// hold.
pub proof fn lemma_effective_departure_wins(t: TrainView)
    requires
        t.effective_departure_time is Some,
    ensures
        spec_classify(t).state == DisplayStateView::EffectiveDeparture(
            t.effective_departure_time->0,
        ),
{
}

/// Law: with no effective departure, a cancelled run always classifies
/// to an outage, whatever the delay fields hold.
pub proof fn lemma_outage(t: TrainView)
    requires
        t.effective_departure_time is None,
        t.drives == "outage"@,
    ensures
        spec_classify(t).state == DisplayStateView::Outage,
{
}

/// Law: a normally running train with no delay report, or one whose
/// report reads zero, shows on time; a positive report shows exactly
/// that many minutes of estimated delay.
pub proof fn lemma_running(t: TrainView)
    requires
        t.effective_departure_time is None,
        t.drives == "1"@,
    ensures
        t.estimated_retard is None ==> spec_classify(t).state == DisplayStateView::OnTime,
        t.estimated_retard matches Some(r) && parses_as_minutes(r) && digits_value(r) == 0
            ==> spec_classify(t).state == DisplayStateView::OnTime,
        t.estimated_retard matches Some(r) && parses_as_minutes(r) && digits_value(r) > 0
            ==> spec_classify(t).state == DisplayStateView::EstimatedDelay(
            digits_value(t.estimated_retard->0),
        ),
{
    lemma_drives_literals_distinct();
}

/// Law: a train that already drove shows no delay when none, or `"0"`,
/// was reported, and otherwise the reported minutes exactly.
pub proof fn lemma_driven(t: TrainView)
    requires
        t.effective_departure_time is None,
        t.drives == "driven"@,
    ensures
        t.estimated_retard is None ==> spec_classify(t).state == DisplayStateView::AlreadyDriven(
            None,
        ),
        t.estimated_retard matches Some(r) && r == "0"@ ==> spec_classify(t).state
            == DisplayStateView::AlreadyDriven(None),
        t.estimated_retard matches Some(r) && r != "0"@ && parses_as_minutes(r)
            ==> spec_classify(t).state == DisplayStateView::AlreadyDriven(
            Some(digits_value(t.estimated_retard->0)),
        ),
{
    lemma_drives_literals_distinct();
}

/// Law: the annotation is attached independently of the state choice —
/// two records that agree on the fields the state is chosen from are
/// given the same display state, whatever their annotations.
pub proof fn lemma_annotation_orthogonal(a: TrainView, b: TrainView)
    requires
        a.effective_departure_time == b.effective_departure_time,
        a.drives == b.drives,
        a.estimated_retard == b.estimated_retard,
    ensures
        spec_classify(a).state == spec_classify(b).state,
{
}

/// Law: classification is a pure function of the record's field values —
/// two records whose fields agree classify identically, so classifying
/// the same record twice yields the same display state both times.
pub proof fn lemma_classify_pure(a: TrainView, b: TrainView)
    requires
        a == b,
    ensures
        spec_classify(a) == spec_classify(b),
{
}

/// The three recognized status discriminators are pairwise distinct.
proof fn lemma_drives_literals_distinct()
    ensures
        "driven"@ != "outage"@,
        "1"@ != "outage"@,
        "1"@ != "driven"@,
{
    reveal_strlit("driven");
    reveal_strlit("outage");
    reveal_strlit("1");
    assert("driven"@[0] == 'd');
    assert("outage"@[0] == 'o');
}

} // verus!
