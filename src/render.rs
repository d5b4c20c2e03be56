//! Projection of the state onto what the page shows.

use vstd::prelude::*;
use vstd::string::*;
use crate::app::{App, PALETTE_LEN, SUGGESTION_SLOTS};
use crate::text::{capitalized, upper_first_letter};

verus! {

/// One colour swatch: its style and the code written on it.
pub struct Swatch {
    pub style: String,
    pub label: String,
}

/// Everything on the page that depends on the state.
pub struct PageView {
    /// The heading, with its first letter upper-cased.
    pub heading: String,
    pub input_style: String,
    pub button_style: String,
    /// Fifteen swatches: primary, complementary and monochromatic groups of five.
    pub swatches: Vec<Swatch>,
    /// The style of the about and suggestion panels.
    pub panel_style: String,
    pub suggestion_caption: String,
    /// Four lines, each with its first letter upper-cased.
    pub suggestions: Vec<String>,
}

/// The style of a swatch of colour `c`.
pub open spec fn swatch_style(c: Seq<char>) -> Seq<char> {
    "background-color: "@ + c
}

/// The style of the search field.
pub open spec fn input_style(colours: Seq<Seq<char>>) -> Seq<char> {
    "color: "@ + colours[1] + "; "@ + "border: 3px solid"@ + colours[0]
}

/// The style of the search button.
pub open spec fn button_style(colours: Seq<Seq<char>>) -> Seq<char> {
    "background-color: "@ + colours[0] + "; "@ + "border: 1px solid"@ + colours[0]
}

/// The style of the about and suggestion panels.
pub open spec fn panel_style(colours: Seq<Seq<char>>) -> Seq<char> {
    "border: 3px solid"@ + colours[0]
}

/// `a` followed by `b`.
fn join_str(a: &str, b: &str) -> (r: String)
    ensures
        r@ == a@ + b@,
{
    let s = String::from_str(a);
    s.concat(b)
}

impl App {
    /// What the page shows for this state. The same state always gives the same
    /// page, and rendering changes nothing.
    pub fn render(&self) -> (p: PageView)
        requires
            self.wf(),
        ensures
            p.heading@ == capitalized(self@.label),
            p.input_style@ == input_style(self@.colours),
            p.button_style@ == button_style(self@.colours),
            p.panel_style@ == panel_style(self@.colours),
            p.swatches@.len() == PALETTE_LEN,
            forall|k: int|
                0 <= k < PALETTE_LEN ==> (#[trigger] p.swatches@[k]).style@ == swatch_style(
                    self@.colours[k],
                ) && p.swatches@[k].label@ == self@.colours[k],
            p.suggestion_caption@ == self@.caption,
            p.suggestions@.len() == SUGGESTION_SLOTS,
            forall|k: int|
                0 <= k < SUGGESTION_SLOTS ==> (#[trigger] p.suggestions@[k])@ == capitalized(
                    self@.suggestions[k],
                ),
    {
        let c0 = self.colours[0].as_str();
        let c1 = self.colours[1].as_str();
        let input = join_str(join_str("color: ", c1).as_str(), "; ");
        let input = join_str(input.as_str(), join_str("border: 3px solid", c0).as_str());
        let button = join_str(join_str("background-color: ", c0).as_str(), "; ");
        let button = join_str(button.as_str(), join_str("border: 1px solid", c0).as_str());
        assert(input@ =~= input_style(self@.colours));
        assert(button@ =~= button_style(self@.colours));
        let mut swatches: Vec<Swatch> = Vec::new();
        let mut k: usize = 0;
        while k < PALETTE_LEN
            invariant
                self.wf(),
                k <= PALETTE_LEN,
                swatches@.len() == k,
                forall|i: int|
                    0 <= i < k ==> (#[trigger] swatches@[i]).style@ == swatch_style(
                        self@.colours[i],
                    ) && swatches@[i].label@ == self@.colours[i],
            decreases PALETTE_LEN - k,
        {
            let c = self.colours[k].as_str();
            swatches.push(
                Swatch { style: join_str("background-color: ", c), label: String::from_str(c) },
            );
            k = k + 1;
        }
        let mut suggestions: Vec<String> = Vec::new();
        let mut k: usize = 0;
        while k < SUGGESTION_SLOTS
            invariant
                self.wf(),
                k <= SUGGESTION_SLOTS,
                suggestions@.len() == k,
                forall|i: int|
                    0 <= i < k ==> (#[trigger] suggestions@[i])@ == capitalized(
                        self@.suggestions[i],
                    ),
            decreases SUGGESTION_SLOTS - k,
        {
            suggestions.push(upper_first_letter(self.default_suggestions[k].as_str()));
            k = k + 1;
        }
        PageView {
            heading: upper_first_letter(self.display_pokemon.as_str()),
            input_style: input,
            button_style: button,
            swatches,
            panel_style: join_str("border: 3px solid", c0),
            suggestion_caption: self.suggestion_caption.clone(),
            suggestions,
        }
    }
}

} // verus!
