//! Scenario tests for the status classifier.
use paab_core::classify::{classify, Classified, DisplayState};
use paab_core::record::Train;

fn base_train() -> Train {
    Train {
        train_id: String::from("id-1"),
        train_number: String::from("IR 2273"),
        departure_time: String::from("2021-11-14T13:45:00+01:00"),
        estimated_retard: None,
        destination: String::from("Chur"),
        drives: String::from("1"),
        effective_departure_time: None,
        train_type: String::from("IR"),
        departure_station: String::from("ZUE"),
        normal_run_time: String::from("01:13"),
        additional_info: None,
    }
}

#[test]
fn effective_departure_overrides_everything() {
    let mut t = base_train();
    t.effective_departure_time = Some(String::from("2021-11-14T13:47:00+01:00"));
    t.drives = String::from("outage");
    t.estimated_retard = Some(String::from("99"));
    let c = classify(&t);
    assert_eq!(
        c.state,
        DisplayState::EffectiveDeparture(String::from("2021-11-14T13:47:00+01:00"))
    );
}

#[test]
fn outage_without_effective_departure() {
    let mut t = base_train();
    t.drives = String::from("outage");
    t.estimated_retard = Some(String::from("5"));
    let c = classify(&t);
    assert_eq!(c.state, DisplayState::Outage);
}

#[test]
fn running_no_retard_is_on_time() {
    let t = base_train();
    assert_eq!(classify(&t).state, DisplayState::OnTime);
}

#[test]
fn running_zero_retard_is_on_time() {
    let mut t = base_train();
    t.estimated_retard = Some(String::from("0"));
    assert_eq!(classify(&t).state, DisplayState::OnTime);
}

#[test]
fn running_positive_retard_is_estimated_delay() {
    let mut t = base_train();
    t.estimated_retard = Some(String::from("5"));
    assert_eq!(classify(&t).state, DisplayState::EstimatedDelay(5));
}

#[test]
fn driven_no_retard() {
    let mut t = base_train();
    t.drives = String::from("driven");
    assert_eq!(classify(&t).state, DisplayState::AlreadyDriven(None));
}

#[test]
fn driven_zero_retard() {
    let mut t = base_train();
    t.drives = String::from("driven");
    t.estimated_retard = Some(String::from("0"));
    assert_eq!(classify(&t).state, DisplayState::AlreadyDriven(None));
}

#[test]
fn driven_positive_retard() {
    let mut t = base_train();
    t.drives = String::from("driven");
    t.estimated_retard = Some(String::from("3"));
    assert_eq!(classify(&t).state, DisplayState::AlreadyDriven(Some(3)));
}

#[test]
fn unknown_drives_passes_through() {
    let mut t = base_train();
    t.drives = String::from("maybe");
    assert_eq!(
        classify(&t).state,
        DisplayState::RawPassthrough(String::from("maybe"))
    );
}

#[test]
fn unparsable_retard_falls_back_to_passthrough() {
    let mut t = base_train();
    t.estimated_retard = Some(String::from("soon"));
    assert_eq!(
        classify(&t).state,
        DisplayState::RawPassthrough(String::from("soon"))
    );
}

#[test]
fn negative_retard_is_not_shown_as_delay() {
    let mut t = base_train();
    t.estimated_retard = Some(String::from("-4"));
    assert_eq!(
        classify(&t).state,
        DisplayState::RawPassthrough(String::from("-4"))
    );
}

#[test]
fn unparsable_retard_when_driven_falls_back_to_passthrough() {
    let mut t = base_train();
    t.drives = String::from("driven");
    t.estimated_retard = Some(String::from("n/a"));
    assert_eq!(
        classify(&t).state,
        DisplayState::RawPassthrough(String::from("n/a"))
    );
}

#[test]
fn annotation_rides_alongside_any_state() {
    let mut t = base_train();
    t.additional_info = Some(String::from("Ersatzzug"));
    let c = classify(&t);
    assert_eq!(c.state, DisplayState::OnTime);
    assert_eq!(c.annotation, Some(String::from("Ersatzzug")));
}

#[test]
fn empty_annotation_means_none() {
    let mut t = base_train();
    t.additional_info = Some(String::new());
    assert_eq!(classify(&t).annotation, None);
}

#[test]
fn absent_annotation_means_none() {
    let t = base_train();
    assert_eq!(classify(&t).annotation, None);
}

#[test]
fn classification_is_idempotent() {
    let mut t = base_train();
    t.drives = String::from("driven");
    t.estimated_retard = Some(String::from("7"));
    t.additional_info = Some(String::from("via Thalwil"));
    let first: Classified = classify(&t);
    let second: Classified = classify(&t);
    assert_eq!(first, second);
}
