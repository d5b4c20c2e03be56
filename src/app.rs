//! The interaction controller: search state, reply classification and the reducer
//! that applies each message to the model.

use vstd::prelude::*;
use vstd::string::*;
use crate::text::{
    lower_of, normalize_input, split_of, split_str, trim, trim_str, views,
};

verus! {

/// The number of colour codes in a palette: three groups of five.
pub const PALETTE_LEN: usize = 15;

/// The number of suggestion slots shown.
pub const SUGGESTION_SLOTS: usize = 4;

/// A request to, or a reply from, the palette service.
#[derive(Debug, Clone, PartialEq, Eq)]
pub struct Data {
    /// `PALETTE` or `MATCHED` in a reply; empty in a request.
    pub flag: String,
    pub data: String,
}

/// The events the controller consumes.
#[derive(Debug, Clone, PartialEq, Eq)]
pub enum Msg {
    /// The search field now holds this raw text.
    SearchPokemonInput(String),
    /// The user asked for a search.
    SearchPokemon,
    /// A palette reply with this list of colour codes.
    FetchColourDataSuccess(String),
    /// The name is valid but the service has no palette for it.
    FetchColourDataFailed,
    /// A list of names that the service suggests instead.
    FetchPokemonMatches(String),
    /// The lookup failed.
    FetchPokemonFailed,
    /// An event with no effect.
    DoNothing,
}

/// The view of a [`Msg`]: its text as sequences of characters.
pub ghost enum MsgView {
    SearchPokemonInput(Seq<char>),
    SearchPokemon,
    FetchColourDataSuccess(Seq<char>),
    FetchColourDataFailed,
    FetchPokemonMatches(Seq<char>),
    FetchPokemonFailed,
    DoNothing,
}

impl View for Msg {
    type V = MsgView;

    open spec fn view(&self) -> MsgView {
        match self {
            Msg::SearchPokemonInput(s) => MsgView::SearchPokemonInput(s@),
            Msg::SearchPokemon => MsgView::SearchPokemon,
            Msg::FetchColourDataSuccess(s) => MsgView::FetchColourDataSuccess(s@),
            Msg::FetchColourDataFailed => MsgView::FetchColourDataFailed,
            Msg::FetchPokemonMatches(s) => MsgView::FetchPokemonMatches(s@),
            Msg::FetchPokemonFailed => MsgView::FetchPokemonFailed,
            Msg::DoNothing => MsgView::DoNothing,
        }
    }
}

/// The whole state of the page.
#[derive(Debug, Clone)]
pub struct App {
    /// The last query submitted.
    pub pokemon: String,
    /// The heading shown: a query, an error label or the searching notice.
    pub display_pokemon: String,
    /// The normalised text of the search field.
    pub curr_input: String,
    pub suggestion_caption: String,
    /// Always four entries; unused ones are empty.
    pub default_suggestions: Vec<String>,
    /// Always fifteen colour codes.
    pub colours: Vec<String>,
    /// Whether a request is outstanding.
    pub active_request: bool,
}

/// The model of [`App`].
pub ghost struct AppState {
    pub committed: Seq<char>,
    pub label: Seq<char>,
    pub pending: Seq<char>,
    pub caption: Seq<char>,
    pub suggestions: Seq<Seq<char>>,
    pub colours: Seq<Seq<char>>,
    pub in_flight: bool,
}

impl View for App {
    type V = AppState;

    open spec fn view(&self) -> AppState {
        AppState {
            committed: self.pokemon@,
            label: self.display_pokemon@,
            pending: self.curr_input@,
            caption: self.suggestion_caption@,
            suggestions: views(self.default_suggestions@),
            colours: views(self.colours@),
            in_flight: self.active_request,
        }
    }
}

impl App {
    /// Fifteen colours and four suggestion slots.
    pub open spec fn wf(&self) -> bool {
        &&& self.colours@.len() == PALETTE_LEN
        &&& self.default_suggestions@.len() == SUGGESTION_SLOTS
    }
}

pub open spec fn default_colour() -> Seq<char> {
    "#74BCCB"@
}

pub open spec fn default_caption() -> Seq<char> {
    "Try It Out:"@
}

pub open spec fn matches_caption() -> Seq<char> {
    "Did You Mean:"@
}

pub open spec fn searching_label() -> Seq<char> {
    "Searching..."@
}

pub open spec fn no_palette_label() -> Seq<char> {
    "No Palette Exists :("@
}

pub open spec fn invalid_name_label() -> Seq<char> {
    "Invalid Pokemon Name :("@
}

pub open spec fn palette_flag() -> Seq<char> {
    "PALETTE"@
}

pub open spec fn matched_flag() -> Seq<char> {
    "MATCHED"@
}

pub open spec fn no_palette_marker() -> Seq<char> {
    "NO_PALETTE"@
}

/// The example names offered before any search.
pub open spec fn default_suggestions() -> Seq<Seq<char>> {
    seq!["Mewtwo"@, "Slowpoke"@, "Reshiram"@, "Charizard"@]
}

/// The four suggestion slots filled from `names`: trimmed names first, then empty.
pub open spec fn suggestion_slots(names: Seq<Seq<char>>) -> Seq<Seq<char>> {
    Seq::new(
        SUGGESTION_SLOTS as nat,
        |k: int|
            if k < names.len() {
                trim(names[k])
            } else {
                Seq::empty()
            },
    )
}

/// The first group of five colours.
pub open spec fn primary(colours: Seq<Seq<char>>) -> Seq<Seq<char>> {
    colours.subrange(0, 5)
}

/// The second group of five colours.
pub open spec fn complementary(colours: Seq<Seq<char>>) -> Seq<Seq<char>> {
    colours.subrange(5, 10)
}

/// The third group of five colours.
pub open spec fn monochromatic(colours: Seq<Seq<char>>) -> Seq<Seq<char>> {
    colours.subrange(10, 15)
}

/// The state when the page opens.
pub open spec fn initial_state() -> AppState {
    AppState {
        committed: Seq::empty(),
        label: Seq::empty(),
        pending: Seq::empty(),
        caption: default_caption(),
        suggestions: default_suggestions(),
        colours: Seq::new(PALETTE_LEN as nat, |k: int| default_colour()),
        in_flight: false,
    }
}

/// A finished lookup: the request is over and the suggestions are the defaults.
pub open spec fn settled(s: AppState, label: Seq<char>) -> AppState {
    AppState {
        label,
        caption: default_caption(),
        suggestions: default_suggestions(),
        in_flight: false,
        ..s
    }
}

/// The state after a palette reply whose list splits into `colours`.
pub open spec fn after_palette(s: AppState, colours: Seq<Seq<char>>) -> AppState {
    if colours.len() == PALETTE_LEN {
        AppState { colours, ..settled(s, s.committed) }
    } else {
        settled(s, invalid_name_label())
    }
}

/// The state after a reply that suggests the names `names`.
pub open spec fn after_matches(s: AppState, names: Seq<Seq<char>>) -> AppState {
    if 1 <= names.len() <= SUGGESTION_SLOTS {
        AppState {
            label: invalid_name_label(),
            caption: matches_caption(),
            suggestions: suggestion_slots(names),
            in_flight: false,
            ..s
        }
    } else {
        settled(s, invalid_name_label())
    }
}

/// The effect of one message on the state.
pub open spec fn step(s: AppState, m: MsgView) -> AppState {
    match m {
        MsgView::SearchPokemonInput(raw) => AppState { pending: trim(lower_of(raw)), ..s },
        MsgView::SearchPokemon => if s.in_flight {
            s
        } else {
            AppState { committed: s.pending, label: searching_label(), in_flight: true, ..s }
        },
        MsgView::FetchColourDataSuccess(list) => after_palette(s, split_of(list)),
        MsgView::FetchColourDataFailed => settled(s, no_palette_label()),
        MsgView::FetchPokemonMatches(list) => after_matches(s, split_of(list)),
        MsgView::FetchPokemonFailed => settled(s, invalid_name_label()),
        MsgView::DoNothing => s,
    }
}

/// The message that a reply gives, where `count` is the number of items in its
/// payload: `success` is whether the exchange succeeded and `body` the reply's flag
/// and payload, if it could be read.
pub open spec fn decide(success: bool, body: Option<(Seq<char>, Seq<char>)>, count: nat) -> MsgView {
    match body {
        Some((flag, data)) if success => if flag == palette_flag() {
            if data == no_palette_marker() {
                MsgView::FetchColourDataFailed
            } else if count == PALETTE_LEN {
                MsgView::FetchColourDataSuccess(data)
            } else {
                MsgView::FetchPokemonFailed
            }
        } else if flag == matched_flag() && 1 <= count <= SUGGESTION_SLOTS {
            MsgView::FetchPokemonMatches(data)
        } else {
            MsgView::FetchPokemonFailed
        },
        _ => MsgView::FetchPokemonFailed,
    }
}

/// The number of items in a reply's payload.
pub open spec fn item_count(body: Option<(Seq<char>, Seq<char>)>) -> nat {
    match body {
        Some((flag, data)) => split_of(data).len(),
        None => 0,
    }
}

/// The message that a reply gives.
pub open spec fn classify(success: bool, body: Option<(Seq<char>, Seq<char>)>) -> MsgView {
    decide(success, body, item_count(body))
}

/// The reply's flag and payload, if the reply could be read.
pub open spec fn reply_view(body: Option<Data>) -> Option<(Seq<char>, Seq<char>)> {
    match body {
        Some(d) => Some((d.flag@, d.data@)),
        None => None,
    }
}

/// Whether `s` holds exactly the text `lit`.
fn is_text(s: &String, lit: &str) -> (r: bool)
    ensures
        r == (s@ == lit@),
{
    let t = String::from_str(lit);
    *s == t
}

/// The message that a finished exchange with the palette service gives, where
/// `count` is the number of items in the reply's payload. `success` is whether
/// the transport and the HTTP status succeeded; `body` is the reply, or `None`
/// where it could not be read as one.
pub fn decide_reply(success: bool, body: Option<Data>, count: usize) -> (m: Msg)
    ensures
        m@ == decide(success, reply_view(body), count as nat),
{
    match body {
        Some(d) => {
            if !success {
                Msg::FetchPokemonFailed
            } else if is_text(&d.flag, "PALETTE") {
                if is_text(&d.data, "NO_PALETTE") {
                    Msg::FetchColourDataFailed
                } else if count == PALETTE_LEN {
                    Msg::FetchColourDataSuccess(d.data)
                } else {
                    Msg::FetchPokemonFailed
                }
            } else if is_text(&d.flag, "MATCHED") && 1 <= count && count <= SUGGESTION_SLOTS {
                Msg::FetchPokemonMatches(d.data)
            } else {
                Msg::FetchPokemonFailed
            }
        },
        None => Msg::FetchPokemonFailed,
    }
}

/// The message that a finished exchange with the palette service gives.
/// `success` is whether the transport and the HTTP status succeeded; `body` is the
/// reply, or `None` where it could not be read as one.
pub fn classify_response(success: bool, body: Option<Data>) -> (m: Msg)
    ensures
        m@ == classify(success, reply_view(body)),
{
    let count = match &body {
        Some(d) => split_str(d.data.as_str()).len(),
        None => 0,
    };
    decide_reply(success, body, count)
}

/// The example names offered before any search.
fn default_suggestion_list() -> (r: Vec<String>)
    ensures
        r@.len() == SUGGESTION_SLOTS,
        views(r@) == default_suggestions(),
{
    let r = vec![
        String::from_str("Mewtwo"),
        String::from_str("Slowpoke"),
        String::from_str("Reshiram"),
        String::from_str("Charizard"),
    ];
    assert(views(r@) =~= default_suggestions());
    r
}

/// The four suggestion slots filled from `names`.
fn fill_suggestions(names: &Vec<String>) -> (r: Vec<String>)
    requires
        names@.len() <= SUGGESTION_SLOTS,
    ensures
        r@.len() == SUGGESTION_SLOTS,
        views(r@) == suggestion_slots(views(names@)),
{
    let mut r: Vec<String> = Vec::new();
    let mut k: usize = 0;
    while k < SUGGESTION_SLOTS
        invariant
            k <= SUGGESTION_SLOTS,
            names@.len() <= SUGGESTION_SLOTS,
            r@.len() == k,
            views(r@) =~= suggestion_slots(views(names@)).subrange(0, k as int),
        decreases SUGGESTION_SLOTS - k,
    {
        if k < names.len() {
            r.push(trim_str(names[k].as_str()));
        } else {
            r.push(String::new());
        }
        k = k + 1;
        assert(views(r@) =~= suggestion_slots(views(names@)).subrange(0, k as int));
    }
    r
}

impl App {
    /// The page's state when it opens: an empty query, the default swatches and the
    /// example suggestions.
    pub fn create() -> (r: App)
        ensures
            r.wf(),
            r@ == initial_state(),
    {
        let mut colours: Vec<String> = Vec::new();
        let mut k: usize = 0;
        while k < PALETTE_LEN
            invariant
                k <= PALETTE_LEN,
                colours@.len() == k,
                forall|i: int| 0 <= i < k ==> #[trigger] colours@[i]@ == default_colour(),
            decreases PALETTE_LEN - k,
        {
            colours.push(String::from_str("#74BCCB"));
            k = k + 1;
        }
        assert(views(colours@) =~= Seq::new(PALETTE_LEN as nat, |i: int| default_colour()));
        let r = App {
            pokemon: String::new(),
            display_pokemon: String::new(),
            curr_input: String::new(),
            suggestion_caption: String::from_str("Try It Out:"),
            default_suggestions: default_suggestion_list(),
            colours,
            active_request: false,
        };
        assert(r@ == initial_state());
        r
    }

    /// The request that asks the service for the palette of the committed query.
    pub fn search_handler(&self) -> (d: Data)
        ensures
            d.flag@ == Seq::<char>::empty(),
            d.data@ == self.pokemon@,
    {
        Data { flag: String::new(), data: self.pokemon.clone() }
    }

    /// Ends the outstanding lookup with `label` as the heading and the default
    /// suggestions.
    fn settle(&mut self, label: &str)
        requires
            old(self).wf(),
        ensures
            final(self).wf(),
            final(self)@ == settled(old(self)@, label@),
    {
        self.display_pokemon = String::from_str(label);
        self.suggestion_caption = String::from_str("Try It Out:");
        self.default_suggestions = default_suggestion_list();
        self.active_request = false;
    }

    /// Applies a palette reply whose list splits into `colours`: fifteen codes
    /// become the palette; any other number ends the lookup as failed.
    pub fn apply_palette(&mut self, colours: Vec<String>)
        requires
            old(self).wf(),
        ensures
            final(self).wf(),
            final(self)@ == after_palette(old(self)@, views(colours@)),
    {
        if colours.len() == PALETTE_LEN {
            let label = self.pokemon.clone();
            self.settle(label.as_str());
            self.colours = colours;
        } else {
            self.settle("Invalid Pokemon Name :(");
        }
    }

    /// Applies a reply that suggests `names`: one to four names fill the
    /// suggestion slots; any other number ends the lookup as failed.
    pub fn apply_matches(&mut self, names: &Vec<String>)
        requires
            old(self).wf(),
        ensures
            final(self).wf(),
            final(self)@ == after_matches(old(self)@, views(names@)),
    {
        if 1 <= names.len() && names.len() <= SUGGESTION_SLOTS {
            self.display_pokemon = String::from_str("Invalid Pokemon Name :(");
            self.default_suggestions = fill_suggestions(names);
            self.suggestion_caption = String::from_str("Did You Mean:");
            self.active_request = false;
        } else {
            self.settle("Invalid Pokemon Name :(");
        }
    }

    /// Applies one message to the state. Returns the request to send where the
    /// message is a search and no request is outstanding, and `None` otherwise.
    pub fn update(&mut self, msg: Msg) -> (request: Option<Data>)
        requires
            old(self).wf(),
        ensures
            final(self).wf(),
            final(self)@ == step(old(self)@, msg@),
            request is Some <==> (msg@ == MsgView::SearchPokemon && !old(self)@.in_flight),
            match request {
                Some(d) => d.flag@ == Seq::<char>::empty() && d.data@ == old(self)@.pending,
                None => true,
            },
    {
        match msg {
            Msg::SearchPokemon => {
                if self.active_request {
                    None
                } else {
                    self.pokemon = self.curr_input.clone();
                    self.display_pokemon = String::from_str("Searching...");
                    self.active_request = true;
                    Some(self.search_handler())
                }
            },
            Msg::SearchPokemonInput(p) => {
                self.curr_input = normalize_input(p.as_str());
                None
            },
            Msg::FetchColourDataSuccess(response) => {
                self.apply_palette(split_str(response.as_str()));
                None
            },
            Msg::FetchColourDataFailed => {
                self.settle("No Palette Exists :(");
                None
            },
            Msg::FetchPokemonMatches(response) => {
                self.apply_matches(&split_str(response.as_str()));
                None
            },
            Msg::FetchPokemonFailed => {
                self.settle("Invalid Pokemon Name :(");
                None
            },
            Msg::DoNothing => None,
        }
    }
}

} // verus!
