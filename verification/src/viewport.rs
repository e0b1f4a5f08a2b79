//! Publishing the window's inner height as the `--leptonic-vh` custom property.
//!
//! The update is a short conversation with the page: is there a window, what
//! is its inner height, is there a document, has it a root element, did the
//! style accept the property. [`VhStep`] is both where the conversation stands
//! and what the host has to do next; [`VhStep::after`] moves it on by what the
//! host observed. [`Page::outcome`] says in one expression how it ends.

use vstd::prelude::*;

verus! {

/// Why the viewport height could not be published.
#[derive(Debug, Clone, Copy, PartialEq, Eq, Structural)]
pub enum ViewportError {
    /// Reading the window's inner height failed.
    InnerHeightIndeterminable,
    /// The window's inner height is not a number.
    InnerHeightNotNumber,
    /// The document has no root element.
    DocumentIndeterminable,
    /// The root element's style refused the property.
    SetPropertyFailed,
}

/// What reading the window's inner height gave.
#[derive(Debug, PartialEq, Eq)]
pub enum HeightReading {
    /// The read failed.
    Indeterminable,
    /// A value that is not a number.
    NotNumber,
    /// A number, in the decimal text that goes into the property.
    Number(String),
}

/// What the host observed when it did what a step asked for.
#[derive(Debug, PartialEq, Eq)]
pub enum Observation {
    /// Whether there is a window.
    Window(bool),
    /// The window's inner height.
    InnerHeight(HeightReading),
    /// Whether there is a document.
    Document(bool),
    /// Whether the document has a root element.
    RootElement(bool),
    /// Whether the root element's style accepted the property.
    PropertySet(bool),
}

/// Where an update stands: what the host does next, or how it ended.
#[derive(Debug, PartialEq, Eq)]
pub enum VhStep {
    /// Look for the window.
    LookUpWindow,
    /// Read the window's inner height.
    ReadInnerHeight,
    /// Look for the document; `value` is kept for the property.
    LookUpDocument { value: String },
    /// Look for the document's root element.
    LookUpRootElement { value: String },
    /// Set the property `name` to `value` on the root element's style.
    SetProperty { name: String, value: String },
    /// Nothing is left to do.
    Done(Result<(), ViewportError>),
}

/// [`HeightReading`] with its text as a sequence of characters.
pub ghost enum HeightReadingView {
    Indeterminable,
    NotNumber,
    Number(Seq<char>),
}

/// [`Observation`] with its text as a sequence of characters.
pub ghost enum ObservationView {
    Window(bool),
    InnerHeight(HeightReadingView),
    Document(bool),
    RootElement(bool),
    PropertySet(bool),
}

/// [`VhStep`] with its texts as sequences of characters.
pub ghost enum VhStepView {
    LookUpWindow,
    ReadInnerHeight,
    LookUpDocument { value: Seq<char> },
    LookUpRootElement { value: Seq<char> },
    SetProperty { name: Seq<char>, value: Seq<char> },
    Done(Result<(), ViewportError>),
}

impl View for HeightReading {
    type V = HeightReadingView;

    open spec fn view(&self) -> HeightReadingView {
        match self {
            HeightReading::Indeterminable => HeightReadingView::Indeterminable,
            HeightReading::NotNumber => HeightReadingView::NotNumber,
            HeightReading::Number(text) => HeightReadingView::Number(text@),
        }
    }
}

impl View for Observation {
    type V = ObservationView;

    open spec fn view(&self) -> ObservationView {
        match self {
            Observation::Window(present) => ObservationView::Window(*present),
            Observation::InnerHeight(reading) => ObservationView::InnerHeight(reading@),
            Observation::Document(present) => ObservationView::Document(*present),
            Observation::RootElement(present) => ObservationView::RootElement(*present),
            Observation::PropertySet(accepted) => ObservationView::PropertySet(*accepted),
        }
    }
}

impl View for VhStep {
    type V = VhStepView;

    open spec fn view(&self) -> VhStepView {
        match self {
            VhStep::LookUpWindow => VhStepView::LookUpWindow,
            VhStep::ReadInnerHeight => VhStepView::ReadInnerHeight,
            VhStep::LookUpDocument { value } => VhStepView::LookUpDocument { value: value@ },
            VhStep::LookUpRootElement { value } => VhStepView::LookUpRootElement { value: value@ },
            VhStep::SetProperty { name, value } => VhStepView::SetProperty {
                name: name@,
                value: value@,
            },
            VhStep::Done(result) => VhStepView::Done(*result),
        }
    }
}

/// The name of the custom property: `--leptonic-vh`.
pub open spec fn property_name() -> Seq<char> {
    seq!['-', '-', 'l', 'e', 'p', 't', 'o', 'n', 'i', 'c', '-', 'v', 'h']
}

/// The unit that follows the height: `px`.
pub open spec fn unit() -> Seq<char> {
    seq!['p', 'x']
}

/// The value of the property for a height given in decimal text.
pub open spec fn property_value(height: Seq<char>) -> Seq<char> {
    height + unit()
}

impl VhStepView {
    /// The step that follows `self` once the host has observed `seen`.
    ///
    /// An observation that does not answer what `self` asked for changes
    /// nothing, and neither does any observation once the update is done.
    pub open spec fn after(self, seen: ObservationView) -> VhStepView {
        match (self, seen) {
            (VhStepView::LookUpWindow, ObservationView::Window(present)) => if present {
                VhStepView::ReadInnerHeight
            } else {
                VhStepView::Done(Ok(()))
            },
            (VhStepView::ReadInnerHeight, ObservationView::InnerHeight(reading)) => match reading {
                HeightReadingView::Indeterminable => VhStepView::Done(
                    Err(ViewportError::InnerHeightIndeterminable),
                ),
                HeightReadingView::NotNumber => VhStepView::Done(
                    Err(ViewportError::InnerHeightNotNumber),
                ),
                HeightReadingView::Number(height) => VhStepView::LookUpDocument {
                    value: property_value(height),
                },
            },
            (VhStepView::LookUpDocument { value }, ObservationView::Document(present)) => if present {
                VhStepView::LookUpRootElement { value }
            } else {
                VhStepView::Done(Ok(()))
            },
            (
                VhStepView::LookUpRootElement { value },
                ObservationView::RootElement(present),
            ) => if present {
                VhStepView::SetProperty { name: property_name(), value }
            } else {
                VhStepView::Done(Err(ViewportError::DocumentIndeterminable))
            },
            (VhStepView::SetProperty { .. }, ObservationView::PropertySet(accepted)) => if accepted {
                VhStepView::Done(Ok(()))
            } else {
                VhStepView::Done(Err(ViewportError::SetPropertyFailed))
            },
            _ => self,
        }
    }

    /// How the update ended, if it has.
    pub open spec fn outcome(self) -> Option<Result<(), ViewportError>> {
        match self {
            VhStepView::Done(result) => Some(result),
            _ => None,
        }
    }
}

/// A page as an update meets it: what the host will observe at each step.
pub ghost struct Page {
    /// Whether there is a window.
    pub window: bool,
    /// What reading the window's inner height gives.
    pub inner_height: HeightReadingView,
    /// Whether there is a document.
    pub document: bool,
    /// Whether the document has a root element.
    pub root_element: bool,
    /// Whether the root element's style accepts the property.
    pub accepts_property: bool,
}

impl Page {
    /// What the host observes on this page when it does what `step` asks for.
    pub open spec fn answer(self, step: VhStepView) -> ObservationView {
        match step {
            VhStepView::LookUpWindow => ObservationView::Window(self.window),
            VhStepView::ReadInnerHeight => ObservationView::InnerHeight(self.inner_height),
            VhStepView::LookUpDocument { .. } => ObservationView::Document(self.document),
            VhStepView::LookUpRootElement { .. } => ObservationView::RootElement(self.root_element),
            VhStepView::SetProperty { .. } | VhStepView::Done(_) => ObservationView::PropertySet(
                self.accepts_property,
            ),
        }
    }

    /// Where an update that stands at `step` has got to after the host has
    /// answered `rounds` times.
    pub open spec fn run(self, step: VhStepView, rounds: nat) -> VhStepView
        decreases rounds,
    {
        if rounds == 0 {
            step
        } else {
            self.run(step.after(self.answer(step)), (rounds - 1) as nat)
        }
    }

    /// The property that an update on this page asks the host to set: its
    /// name and value, or `None` where the update ends before that.
    pub open spec fn requested_property(self) -> Option<(Seq<char>, Seq<char>)> {
        match self.inner_height {
            HeightReadingView::Number(height) if self.window && self.document
                && self.root_element => Some((property_name(), property_value(height))),
            _ => None,
        }
    }

    /// How an update on this page ends.
    ///
    /// Without a window there is nothing to publish, and without a document
    /// nowhere to publish it: both are fine. Everything else that is missing
    /// is an error, in the order in which the update meets it.
    pub open spec fn outcome(self) -> Result<(), ViewportError> {
        if !self.window {
            Ok(())
        } else if self.inner_height is Indeterminable {
            Err(ViewportError::InnerHeightIndeterminable)
        } else if self.inner_height is NotNumber {
            Err(ViewportError::InnerHeightNotNumber)
        } else if !self.document {
            Ok(())
        } else if !self.root_element {
            Err(ViewportError::DocumentIndeterminable)
        } else if !self.accepts_property {
            Err(ViewportError::SetPropertyFailed)
        } else {
            Ok(())
        }
    }
}

/// An update is over after five answers at most, and ends as
/// [`Page::outcome`] says.
pub proof fn update_ends_with_outcome(page: Page)
    ensures
        page.run(VhStepView::LookUpWindow, 5) == VhStepView::Done(page.outcome()),
{
    reveal_with_fuel(Page::run, 6);
}

/// The fifth thing an update asks for is to set the property that
/// [`Page::requested_property`] names; where that is `None` the update has
/// ended by then, and no step before the fifth asks to set anything.
pub proof fn update_sets_requested_property(page: Page)
    ensures
        page.run(VhStepView::LookUpWindow, 4) == match page.requested_property() {
            Some((name, value)) => VhStepView::SetProperty { name, value },
            None => VhStepView::Done(page.outcome()),
        },
        forall|rounds: nat| rounds < 4 ==> !(#[trigger] page.run(VhStepView::LookUpWindow, rounds) is SetProperty),
{
    reveal_with_fuel(Page::run, 6);
}

/// Once an update is done, no observation changes it.
pub proof fn done_is_final(result: Result<(), ViewportError>, seen: ObservationView)
    ensures
        VhStepView::Done(result).after(seen) == VhStepView::Done(result),
{
}

/// Renders the property's value for a height given in decimal text.
pub fn vh_value(height: &str) -> (value: String)
    ensures
        value@ == property_value(height@),
{
    proof {
        reveal_strlit("px");
    }
    let value = String::from_str(height).concat("px");
    assert(value@ =~= property_value(height@));
    value
}

/// The name of the custom property that carries the viewport height.
pub fn vh_name() -> (name: String)
    ensures
        name@ == property_name(),
{
    proof {
        reveal_strlit("--leptonic-vh");
    }
    let name = String::from_str("--leptonic-vh");
    assert(name@ =~= property_name());
    name
}

impl VhStep {
    /// The step every update begins with.
    pub fn first() -> (step: VhStep)
        ensures
            step@ == VhStepView::LookUpWindow,
    {
        VhStep::LookUpWindow
    }

    /// Moves the update on by what the host observed.
    pub fn after(self, seen: Observation) -> (next: VhStep)
        ensures
            next@ == self@.after(seen@),
    {
        match (self, seen) {
            (VhStep::LookUpWindow, Observation::Window(present)) => {
                if present {
                    VhStep::ReadInnerHeight
                } else {
                    VhStep::Done(Ok(()))
                }
            },
            (VhStep::ReadInnerHeight, Observation::InnerHeight(reading)) => match reading {
                HeightReading::Indeterminable => VhStep::Done(
                    Err(ViewportError::InnerHeightIndeterminable),
                ),
                HeightReading::NotNumber => VhStep::Done(Err(ViewportError::InnerHeightNotNumber)),
                HeightReading::Number(height) => VhStep::LookUpDocument {
                    value: vh_value(height.as_str()),
                },
            },
            (VhStep::LookUpDocument { value }, Observation::Document(present)) => {
                if present {
                    VhStep::LookUpRootElement { value }
                } else {
                    VhStep::Done(Ok(()))
                }
            },
            (VhStep::LookUpRootElement { value }, Observation::RootElement(present)) => {
                if present {
                    VhStep::SetProperty { name: vh_name(), value }
                } else {
                    VhStep::Done(Err(ViewportError::DocumentIndeterminable))
                }
            },
            (VhStep::SetProperty { name, value }, Observation::PropertySet(accepted)) => {
                if accepted {
                    VhStep::Done(Ok(()))
                } else {
                    VhStep::Done(Err(ViewportError::SetPropertyFailed))
                }
            },
            (step, _) => step,
        }
    }

    /// How the update ended, or `None` while the host still has something to do.
    pub fn outcome(&self) -> (result: Option<Result<(), ViewportError>>)
        ensures
            result == self@.outcome(),
    {
        match self {
            VhStep::Done(result) => Some(*result),
            _ => None,
        }
    }
}

} // verus!
