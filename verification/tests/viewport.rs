use leptonic_root::viewport::{
    vh_name, vh_value, HeightReading, Observation, VhStep, ViewportError,
};

fn number(text: &str) -> Observation {
    Observation::InnerHeight(HeightReading::Number(text.to_string()))
}

/// Runs an update against a page that answers as given, and returns how it
/// ended together with everything the host was asked to do.
fn run(
    window: bool,
    inner_height: fn() -> HeightReading,
    document: bool,
    root_element: bool,
    accepts_property: bool,
) -> (Result<(), ViewportError>, Vec<String>) {
    let mut asked = Vec::new();
    let mut step = VhStep::first();
    for _ in 0..6 {
        let seen = match &step {
            VhStep::LookUpWindow => {
                asked.push("window".to_string());
                Observation::Window(window)
            }
            VhStep::ReadInnerHeight => {
                asked.push("inner height".to_string());
                Observation::InnerHeight(inner_height())
            }
            VhStep::LookUpDocument { .. } => {
                asked.push("document".to_string());
                Observation::Document(document)
            }
            VhStep::LookUpRootElement { .. } => {
                asked.push("root element".to_string());
                Observation::RootElement(root_element)
            }
            VhStep::SetProperty { name, value } => {
                asked.push(format!("set {name}: {value}"));
                Observation::PropertySet(accepts_property)
            }
            VhStep::Done(result) => return (*result, asked),
        };
        step = step.after(seen);
    }
    panic!("the update did not end: {step:?}");
}

fn height_800() -> HeightReading {
    HeightReading::Number("800".to_string())
}

fn height_unreadable() -> HeightReading {
    HeightReading::Indeterminable
}

fn height_not_number() -> HeightReading {
    HeightReading::NotNumber
}

#[test]
fn value_is_height_followed_by_unit() {
    assert_eq!(vh_value("800"), "800px");
    assert_eq!(vh_value("667.5"), "667.5px");
    assert_eq!(vh_value("0"), "0px");
    assert_eq!(vh_value(""), "px");
}

#[test]
fn value_of_a_formatted_float() {
    let height: f64 = 812.0;
    assert_eq!(vh_value(&format!("{height}")), "812px");
    let height: f64 = 640.25;
    assert_eq!(vh_value(&format!("{height}")), "640.25px");
}

#[test]
fn property_is_named_leptonic_vh() {
    assert_eq!(vh_name(), "--leptonic-vh");
}

#[test]
fn update_begins_by_looking_for_the_window() {
    assert_eq!(VhStep::first(), VhStep::LookUpWindow);
    assert_eq!(VhStep::first().outcome(), None);
}

#[test]
fn update_walks_through_every_step() {
    let step = VhStep::first().after(Observation::Window(true));
    assert_eq!(step, VhStep::ReadInnerHeight);
    let step = step.after(number("800"));
    assert_eq!(step, VhStep::LookUpDocument { value: "800px".to_string() });
    let step = step.after(Observation::Document(true));
    assert_eq!(step, VhStep::LookUpRootElement { value: "800px".to_string() });
    let step = step.after(Observation::RootElement(true));
    assert_eq!(
        step,
        VhStep::SetProperty { name: "--leptonic-vh".to_string(), value: "800px".to_string() }
    );
    assert_eq!(step.outcome(), None);
    let step = step.after(Observation::PropertySet(true));
    assert_eq!(step, VhStep::Done(Ok(())));
    assert_eq!(step.outcome(), Some(Ok(())));
}

#[test]
fn full_update_sets_the_property_once() {
    let (result, asked) = run(true, height_800, true, true, true);
    assert_eq!(result, Ok(()));
    assert_eq!(
        asked,
        ["window", "inner height", "document", "root element", "set --leptonic-vh: 800px"]
    );
}

#[test]
fn no_window_is_fine_and_ends_at_once() {
    let (result, asked) = run(false, height_800, true, true, true);
    assert_eq!(result, Ok(()));
    assert_eq!(asked, ["window"]);
}

#[test]
fn unreadable_height_is_inner_height_indeterminable() {
    let (result, asked) = run(true, height_unreadable, true, true, true);
    assert_eq!(result, Err(ViewportError::InnerHeightIndeterminable));
    assert_eq!(asked, ["window", "inner height"]);
}

#[test]
fn height_that_is_no_number_is_inner_height_not_number() {
    let (result, asked) = run(true, height_not_number, true, true, true);
    assert_eq!(result, Err(ViewportError::InnerHeightNotNumber));
    assert_eq!(asked, ["window", "inner height"]);
}

#[test]
fn no_document_is_fine_and_sets_nothing() {
    let (result, asked) = run(true, height_800, false, true, true);
    assert_eq!(result, Ok(()));
    assert_eq!(asked, ["window", "inner height", "document"]);
}

#[test]
fn no_root_element_is_document_indeterminable() {
    let (result, asked) = run(true, height_800, true, false, true);
    assert_eq!(result, Err(ViewportError::DocumentIndeterminable));
    assert_eq!(asked, ["window", "inner height", "document", "root element"]);
}

#[test]
fn refused_property_is_set_property_failed() {
    let (result, asked) = run(true, height_800, true, true, false);
    assert_eq!(result, Err(ViewportError::SetPropertyFailed));
    assert_eq!(
        asked,
        ["window", "inner height", "document", "root element", "set --leptonic-vh: 800px"]
    );
}

#[test]
fn height_error_comes_before_a_missing_document() {
    let (result, _) = run(true, height_unreadable, false, false, false);
    assert_eq!(result, Err(ViewportError::InnerHeightIndeterminable));
    let (result, _) = run(true, height_not_number, false, false, false);
    assert_eq!(result, Err(ViewportError::InnerHeightNotNumber));
}

#[test]
fn observation_that_answers_nothing_is_ignored() {
    assert_eq!(VhStep::first().after(Observation::Document(false)), VhStep::LookUpWindow);
    assert_eq!(VhStep::first().after(number("800")), VhStep::LookUpWindow);
    assert_eq!(VhStep::ReadInnerHeight.after(Observation::Window(false)), VhStep::ReadInnerHeight);
    let waiting = VhStep::LookUpDocument { value: "800px".to_string() };
    assert_eq!(
        waiting.after(Observation::RootElement(true)),
        VhStep::LookUpDocument { value: "800px".to_string() }
    );
    let waiting = VhStep::LookUpRootElement { value: "800px".to_string() };
    assert_eq!(
        waiting.after(Observation::PropertySet(true)),
        VhStep::LookUpRootElement { value: "800px".to_string() }
    );
    let waiting =
        VhStep::SetProperty { name: "--leptonic-vh".to_string(), value: "800px".to_string() };
    assert_eq!(
        waiting.after(Observation::Window(true)),
        VhStep::SetProperty { name: "--leptonic-vh".to_string(), value: "800px".to_string() }
    );
}

#[test]
fn finished_update_stays_finished() {
    let observations = || {
        vec![
            Observation::Window(true),
            Observation::Window(false),
            number("800"),
            Observation::InnerHeight(HeightReading::Indeterminable),
            Observation::InnerHeight(HeightReading::NotNumber),
            Observation::Document(true),
            Observation::RootElement(false),
            Observation::PropertySet(false),
        ]
    };
    for seen in observations() {
        assert_eq!(VhStep::Done(Ok(())).after(seen), VhStep::Done(Ok(())));
    }
    for seen in observations() {
        assert_eq!(
            VhStep::Done(Err(ViewportError::SetPropertyFailed)).after(seen),
            VhStep::Done(Err(ViewportError::SetPropertyFailed))
        );
    }
}

#[test]
fn outcome_is_known_only_when_done() {
    assert_eq!(VhStep::LookUpWindow.outcome(), None);
    assert_eq!(VhStep::ReadInnerHeight.outcome(), None);
    assert_eq!(VhStep::LookUpDocument { value: "1px".to_string() }.outcome(), None);
    assert_eq!(VhStep::LookUpRootElement { value: "1px".to_string() }.outcome(), None);
    assert_eq!(
        VhStep::Done(Err(ViewportError::DocumentIndeterminable)).outcome(),
        Some(Err(ViewportError::DocumentIndeterminable))
    );
}

#[test]
fn every_page_ends_within_five_answers() {
    let heights: [fn() -> HeightReading; 3] = [height_800, height_unreadable, height_not_number];
    for window in [false, true] {
        for inner_height in heights {
            for document in [false, true] {
                for root_element in [false, true] {
                    for accepts_property in [false, true] {
                        let (result, asked) =
                            run(window, inner_height, document, root_element, accepts_property);
                        assert!(asked.len() <= 5);
                        let expected = if !window {
                            Ok(())
                        } else if inner_height() == HeightReading::Indeterminable {
                            Err(ViewportError::InnerHeightIndeterminable)
                        } else if inner_height() == HeightReading::NotNumber {
                            Err(ViewportError::InnerHeightNotNumber)
                        } else if !document {
                            Ok(())
                        } else if !root_element {
                            Err(ViewportError::DocumentIndeterminable)
                        } else if !accepts_property {
                            Err(ViewportError::SetPropertyFailed)
                        } else {
                            Ok(())
                        };
                        assert_eq!(result, expected);
                    }
                }
            }
        }
    }
}
