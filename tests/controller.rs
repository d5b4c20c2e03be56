use pokepalette::app::{classify_response, decide_reply, App, Data, Msg};
use pokepalette::text::{normalize_input, upper_first_letter};

fn reply(flag: &str, data: &str) -> Option<Data> {
    Some(Data { flag: flag.to_string(), data: data.to_string() })
}

fn fifteen() -> Vec<String> {
    vec![
        "#111111", "#222222", "#333333", "#444444", "#555555", "#666666", "#777777", "#888888",
        "#999999", "#aaaaaa", "#bbbbbb", "#cccccc", "#dddddd", "#eeeeee", "#fff000",
    ]
    .into_iter()
    .map(|s| s.to_string())
    .collect()
}

fn defaults() -> Vec<String> {
    vec!["Mewtwo", "Slowpoke", "Reshiram", "Charizard"].into_iter().map(|s| s.to_string()).collect()
}

fn submitted(raw: &str) -> App {
    let mut app = App::create();
    app.update(Msg::SearchPokemonInput(raw.to_string()));
    let req = app.update(Msg::SearchPokemon);
    assert!(req.is_some());
    app
}

#[test]
fn initial_state_has_defaults() {
    let app = App::create();
    assert_eq!(app.colours, vec!["#74BCCB".to_string(); 15]);
    assert_eq!(app.default_suggestions, defaults());
    assert_eq!(app.suggestion_caption, "Try It Out:");
    assert_eq!(app.display_pokemon, "");
    assert!(!app.active_request);
}

#[test]
fn input_is_trimmed_and_lowercased() {
    assert_eq!(normalize_input("  MewTwo \t"), "mewtwo");
    assert_eq!(normalize_input("\n Mr. MIME  "), "mr. mime");
    assert_eq!(normalize_input("   "), "");
    assert_eq!(normalize_input(""), "");
    let mut app = App::create();
    app.update(Msg::SearchPokemonInput(" PIKACHU ".to_string()));
    assert_eq!(app.curr_input, "pikachu");
}

#[test]
fn submit_builds_request_and_waits() {
    let mut app = App::create();
    app.update(Msg::SearchPokemonInput("Charizard".to_string()));
    let req = app.update(Msg::SearchPokemon).unwrap();
    assert_eq!(req, Data { flag: String::new(), data: "charizard".to_string() });
    assert_eq!(app.pokemon, "charizard");
    assert_eq!(app.display_pokemon, "Searching...");
    assert!(app.active_request);
}

#[test]
fn submit_while_in_flight_is_ignored() {
    let mut app = submitted("mewtwo");
    app.update(Msg::SearchPokemonInput("slowpoke".to_string()));
    assert!(app.update(Msg::SearchPokemon).is_none());
    assert_eq!(app.pokemon, "mewtwo");
    assert_eq!(app.display_pokemon, "Searching...");
    assert!(app.active_request);
}

#[test]
fn palette_reply_fills_three_groups() {
    let data = fifteen().join(", ");
    let msg = classify_response(true, reply("PALETTE", &data));
    assert_eq!(msg, Msg::FetchColourDataSuccess(data.clone()));
    let mut app = submitted("mewtwo");
    app.update(msg);
    assert_eq!(app.colours, fifteen());
    assert_eq!(app.colours[0..5], fifteen()[0..5]);
    assert_eq!(app.colours[5..10], fifteen()[5..10]);
    assert_eq!(app.colours[10..15], fifteen()[10..15]);
    assert_eq!(app.display_pokemon, "mewtwo");
    assert_eq!(app.default_suggestions, defaults());
    assert!(!app.active_request);
}

#[test]
fn no_palette_keeps_colours() {
    let msg = classify_response(true, reply("PALETTE", "NO_PALETTE"));
    assert_eq!(msg, Msg::FetchColourDataFailed);
    let mut app = submitted("mewtwo");
    app.update(Msg::FetchColourDataSuccess(fifteen().join(", ")));
    app.update(Msg::SearchPokemon);
    let before = app.colours.clone();
    app.update(msg);
    assert_eq!(app.display_pokemon, "No Palette Exists :(");
    assert_eq!(app.colours, before);
    assert_eq!(app.suggestion_caption, "Try It Out:");
    assert!(!app.active_request);
}

#[test]
fn matched_reply_fills_slots() {
    let msg = classify_response(true, reply("MATCHED", "Mew, Mewtwo "));
    assert_eq!(msg, Msg::FetchPokemonMatches("Mew, Mewtwo ".to_string()));
    let mut app = submitted("mewt");
    app.update(msg);
    assert_eq!(app.default_suggestions, vec!["Mew", "Mewtwo", "", ""]);
    assert_eq!(app.suggestion_caption, "Did You Mean:");
    assert_eq!(app.display_pokemon, "Invalid Pokemon Name :(");
    assert!(!app.active_request);
}

#[test]
fn matched_reply_with_four_names() {
    let mut app = submitted("char");
    app.update(classify_response(true, reply("MATCHED", "Charmander, Charmeleon, Charizard, Chatot")));
    assert_eq!(app.default_suggestions, vec!["Charmander", "Charmeleon", "Charizard", "Chatot"]);
}

#[test]
fn matched_reply_with_five_names_fails() {
    let msg = classify_response(true, reply("MATCHED", "a, b, c, d, e"));
    assert_eq!(msg, Msg::FetchPokemonFailed);
    let mut app = submitted("x");
    app.update(Msg::FetchPokemonMatches("a, b, c, d, e".to_string()));
    assert_eq!(app.default_suggestions, defaults());
    assert_eq!(app.display_pokemon, "Invalid Pokemon Name :(");
}

#[test]
fn transport_failure_resets_suggestions() {
    let mut app = submitted("mewt");
    app.update(Msg::FetchPokemonMatches("Mew".to_string()));
    app.update(Msg::SearchPokemon);
    let msg = classify_response(false, reply("PALETTE", &fifteen().join(", ")));
    assert_eq!(msg, Msg::FetchPokemonFailed);
    app.update(msg);
    assert_eq!(app.default_suggestions, defaults());
    assert_eq!(app.suggestion_caption, "Try It Out:");
    assert_eq!(app.display_pokemon, "Invalid Pokemon Name :(");
    assert!(!app.active_request);
    assert_eq!(classify_response(true, None), Msg::FetchPokemonFailed);
}

#[test]
fn palette_of_fourteen_or_sixteen_fails() {
    let mut short = fifteen();
    short.pop();
    let mut long = fifteen();
    long.push("#000000".to_string());
    for list in [short, long] {
        let data = list.join(", ");
        assert_eq!(classify_response(true, reply("PALETTE", &data)), Msg::FetchPokemonFailed);
        let mut app = submitted("mewtwo");
        app.update(Msg::FetchColourDataSuccess(data));
        assert_eq!(app.colours, vec!["#74BCCB".to_string(); 15]);
        assert_eq!(app.default_suggestions, defaults());
        assert_eq!(app.display_pokemon, "Invalid Pokemon Name :(");
        assert!(!app.active_request);
    }
}

#[test]
fn unknown_flag_fails() {
    assert_eq!(classify_response(true, reply("", "Mewtwo")), Msg::FetchPokemonFailed);
    assert_eq!(classify_response(true, reply("palette", "NO_PALETTE")), Msg::FetchPokemonFailed);
}

#[test]
fn decide_reply_uses_count() {
    assert_eq!(decide_reply(true, reply("PALETTE", "x"), 15), Msg::FetchColourDataSuccess("x".to_string()));
    assert_eq!(decide_reply(true, reply("PALETTE", "x"), 14), Msg::FetchPokemonFailed);
    assert_eq!(decide_reply(true, reply("MATCHED", "x"), 0), Msg::FetchPokemonFailed);
    assert_eq!(decide_reply(true, reply("MATCHED", "x"), 4), Msg::FetchPokemonMatches("x".to_string()));
    assert_eq!(decide_reply(false, reply("MATCHED", "x"), 1), Msg::FetchPokemonFailed);
}

#[test]
fn end_to_end_palette() {
    let mut app = App::create();
    app.update(Msg::SearchPokemonInput("Mewtwo".to_string()));
    let req = app.update(Msg::SearchPokemon).unwrap();
    assert_eq!(req.data, "mewtwo");
    app.update(classify_response(true, reply("PALETTE", &fifteen().join(", "))));
    let page = app.render();
    assert_eq!(page.heading, "Mewtwo");
    let primary: Vec<String> = page.swatches[0..5].iter().map(|s| s.label.clone()).collect();
    assert_eq!(primary, fifteen()[0..5].to_vec());
}

#[test]
fn end_to_end_suggestion() {
    let mut app = App::create();
    app.update(Msg::SearchPokemonInput("mewtwoo".to_string()));
    app.update(Msg::SearchPokemon).unwrap();
    app.update(classify_response(true, reply("MATCHED", "Mewtwo")));
    assert_eq!(app.display_pokemon, "Invalid Pokemon Name :(");
    assert_eq!(app.suggestion_caption, "Did You Mean:");
    assert_eq!(app.default_suggestions, vec!["Mewtwo", "", "", ""]);
}

#[test]
fn stale_reply_still_applies() {
    let mut app = submitted("mewtwo");
    app.update(Msg::SearchPokemonInput("slowpoke".to_string()));
    app.update(Msg::FetchColourDataSuccess(fifteen().join(", ")));
    assert_eq!(app.display_pokemon, "mewtwo");
    assert_eq!(app.curr_input, "slowpoke");
    assert_eq!(app.colours, fifteen());
    assert!(app.update(Msg::SearchPokemon).is_some());
    assert_eq!(app.pokemon, "slowpoke");
}

#[test]
fn do_nothing_changes_nothing() {
    let mut app = submitted("mewtwo");
    assert!(app.update(Msg::DoNothing).is_none());
    assert_eq!(app.display_pokemon, "Searching...");
    assert!(app.active_request);
}

#[test]
fn capitalizes_first_letter() {
    assert_eq!(upper_first_letter(""), "");
    assert_eq!(upper_first_letter("mewtwo"), "Mewtwo");
    assert_eq!(upper_first_letter("ßa"), "SSa");
    assert_eq!(upper_first_letter("Mew"), "Mew");
}

#[test]
fn render_projects_model() {
    let mut app = submitted("mewt");
    app.update(Msg::FetchPokemonMatches("mew, mewtwo".to_string()));
    let page = app.render();
    assert_eq!(page.heading, "Invalid Pokemon Name :(");
    assert_eq!(page.suggestion_caption, "Did You Mean:");
    assert_eq!(page.suggestions, vec!["Mew", "Mewtwo", "", ""]);
    assert_eq!(page.swatches.len(), 15);
    assert_eq!(page.swatches[3].style, "background-color: #74BCCB");
    assert_eq!(page.swatches[3].label, "#74BCCB");
    assert_eq!(page.input_style, "color: #74BCCB; border: 3px solid#74BCCB");
    assert_eq!(page.button_style, "background-color: #74BCCB; border: 1px solid#74BCCB");
    assert_eq!(page.panel_style, "border: 3px solid#74BCCB");
    let again = app.render();
    assert_eq!(again.heading, page.heading);
    assert_eq!(again.suggestions, page.suggestions);
}

#[test]
fn render_uses_palette_colours() {
    let mut app = submitted("mewtwo");
    app.update(Msg::FetchColourDataSuccess(fifteen().join(", ")));
    let page = app.render();
    assert_eq!(page.input_style, "color: #222222; border: 3px solid#111111");
    assert_eq!(page.swatches[14].style, "background-color: #fff000");
    assert_eq!(page.suggestions, defaults());
}
