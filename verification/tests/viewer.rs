//! End-to-end tests of the viewer core: document model, resolution,
//! canonical serialization, the highlighted cache, scrolling, and
//! focus.

use openapi_tui::action::Action;
use openapi_tui::action::KeyCode;
use openapi_tui::action::KeyEvent;
use openapi_tui::action::MouseEvent;
use openapi_tui::app::App;
use openapi_tui::builder::BuildError;
use openapi_tui::panes::request::RequestPane;
use openapi_tui::schema::Document;
use openapi_tui::schema::MediaEntry;
use openapi_tui::schema::NamedSchema;
use openapi_tui::schema::Operation;
use openapi_tui::schema::Property;
use openapi_tui::schema::RequestBody;
use openapi_tui::schema::ResolveError;
use openapi_tui::schema::Schema;
use openapi_tui::state::State;
use openapi_tui::style::BorderKind;
use openapi_tui::style::Style;

fn pets_schema() -> Schema {
    Schema::Object(vec![Property {
        name: String::from("name"),
        schema: Schema::Primitive(String::from("string")),
    }])
}

fn doc_with_schema(schema: Schema, components: Vec<NamedSchema>) -> Document {
    Document {
        operations: vec![Operation {
            path: String::from("/pets"),
            method: String::from("GET"),
            request_body: Some(RequestBody {
                content: vec![MediaEntry {
                    media_type: String::from("application/json"),
                    schema,
                }],
            }),
        }],
        schemas: components,
    }
}

fn selected_state(schema: Schema, components: Vec<NamedSchema>) -> State {
    let mut state = State::new(doc_with_schema(schema, components));
    assert!(state.select(Some(0)));
    state
}

fn fragment_texts(line: &Vec<openapi_tui::style::Fragment>) -> Vec<String> {
    line.iter().map(|f| f.text.clone()).collect()
}

#[test]
fn pets_schema_renders_with_line_numbers() {
    let state = selected_state(pets_schema(), vec![]);
    let mut pane = RequestPane::new(true, Style::default());
    pane.update(Action::Update, &state).unwrap();

    let expected = ["type: object", "properties:", "  name:", "    type: string"];
    assert_eq!(pane.request_schema_styles.len(), expected.len());
    let gutters = [" 1   ", " 2   ", " 3   ", " 4   "];
    for (i, line) in pane.request_schema_styles.iter().enumerate() {
        let texts = fragment_texts(line);
        assert_eq!(texts[0], gutters[i]);
        assert!(line[0].style.dim);
        let rest: String = texts[1..].concat();
        assert_eq!(rest, format!("{}\n", expected[i]));
    }
}

#[test]
fn down_stops_at_last_line() {
    let state = selected_state(pets_schema(), vec![]);
    let mut pane = RequestPane::new(true, Style::default());
    pane.update(Action::Update, &state).unwrap();
    let n = pane.request_schema_styles.len();
    assert_eq!(n, 4);
    for _ in 0..n {
        pane.update(Action::Down, &state).unwrap();
    }
    assert_eq!(pane.request_schema_line_offset, n - 1);
    pane.update(Action::Down, &state).unwrap();
    assert_eq!(pane.request_schema_line_offset, n - 1);
    for _ in 0..n + 2 {
        pane.update(Action::Up, &state).unwrap();
    }
    assert_eq!(pane.request_schema_line_offset, 0);
}

#[test]
fn empty_selection_yields_empty_cache() {
    let state = State::new(doc_with_schema(pets_schema(), vec![]));
    let mut pane = RequestPane::new(false, Style::default());
    let r = pane.update(Action::Update, &state);
    assert!(r.is_ok());
    assert!(pane.request_schema_styles.is_empty());
    assert_eq!(pane.request_schema_line_offset, 0);
    assert!(!pane.has_body);
    assert!(pane.media_types.is_empty());
    assert_eq!(pane.border_type(), BorderKind::Plain);
    assert_eq!(pane.border_style(), Style::default());
}

#[test]
fn scrolling_an_empty_cache_stays_at_zero() {
    let state = State::new(doc_with_schema(pets_schema(), vec![]));
    let mut pane = RequestPane::new(false, Style::default());
    pane.update(Action::Update, &state).unwrap();
    pane.update(Action::Down, &state).unwrap();
    assert_eq!(pane.request_schema_line_offset, 0);
    pane.update(Action::Up, &state).unwrap();
    assert_eq!(pane.request_schema_line_offset, 0);
}

#[test]
fn broken_reference_reports_error_and_keeps_cache() {
    let good = selected_state(pets_schema(), vec![]);
    let mut pane = RequestPane::new(true, Style::default());
    pane.update(Action::Update, &good).unwrap();
    let cache_before = pane.request_schema_styles.clone();
    assert!(!cache_before.is_empty());

    let broken = selected_state(Schema::Reference(String::from("NoSuchComponent")), vec![]);
    let r = pane.update(Action::Update, &broken);
    match r {
        Err(BuildError::Reference(ResolveError::Missing(name))) => {
            assert_eq!(name, "NoSuchComponent");
        },
        other => panic!("expected a missing-reference error, got {:?}", other),
    }
    assert_eq!(pane.request_schema_styles, cache_before);
}

#[test]
fn cyclic_reference_reports_too_deep() {
    let components = vec![NamedSchema {
        name: String::from("Loop"),
        schema: Schema::Reference(String::from("Loop")),
    }];
    let state = selected_state(Schema::Reference(String::from("Loop")), components);
    let mut pane = RequestPane::new(true, Style::default());
    let r = pane.update(Action::Update, &state);
    match r {
        Err(BuildError::Reference(ResolveError::TooDeep)) => {},
        other => panic!("expected a too-deep error, got {:?}", other),
    }
}

#[test]
fn rebuilding_twice_gives_identical_caches() {
    let state = selected_state(pets_schema(), vec![]);
    let mut a = RequestPane::new(true, Style::default());
    let mut b = RequestPane::new(false, Style::default());
    a.update(Action::Update, &state).unwrap();
    b.update(Action::Update, &state).unwrap();
    assert_eq!(a.request_schema_styles, b.request_schema_styles);
    a.update(Action::Update, &state).unwrap();
    assert_eq!(a.request_schema_styles, b.request_schema_styles);
}

#[test]
fn resolution_replaces_nested_references() {
    let components = vec![NamedSchema {
        name: String::from("Pet"),
        schema: pets_schema(),
    }];
    let schema = Schema::Object(vec![Property {
        name: String::from("pet"),
        schema: Schema::Reference(String::from("Pet")),
    }]);
    let state = selected_state(schema, components);
    let mut pane = RequestPane::new(true, Style::default());
    pane.update(Action::Update, &state).unwrap();
    let expected = [
        "type: object",
        "properties:",
        "  pet:",
        "    type: object",
        "    properties:",
        "      name:",
        "        type: string",
    ];
    assert_eq!(pane.request_schema_styles.len(), expected.len());
    for (i, line) in pane.request_schema_styles.iter().enumerate() {
        let texts = fragment_texts(line);
        let rest: String = texts[1..].concat();
        assert_eq!(rest, format!("{}\n", expected[i]));
    }
}

#[test]
fn non_json_content_yields_empty_cache() {
    let doc = Document {
        operations: vec![Operation {
            path: String::from("/pets"),
            method: String::from("POST"),
            request_body: Some(RequestBody {
                content: vec![MediaEntry {
                    media_type: String::from("text/plain"),
                    schema: Schema::Primitive(String::from("string")),
                }],
            }),
        }],
        schemas: vec![],
    };
    let mut state = State::new(doc);
    assert!(state.select(Some(0)));
    let mut pane = RequestPane::new(true, Style::default());
    pane.update(Action::Update, &state).unwrap();
    assert!(pane.request_schema_styles.is_empty());
    assert!(pane.has_body);
    assert_eq!(pane.media_types, vec![String::from("text/plain")]);
}

#[test]
fn media_types_listed_in_document_order() {
    let doc = Document {
        operations: vec![Operation {
            path: String::from("/pets"),
            method: String::from("POST"),
            request_body: Some(RequestBody {
                content: vec![
                    MediaEntry {
                        media_type: String::from("application/xml"),
                        schema: Schema::Primitive(String::from("string")),
                    },
                    MediaEntry {
                        media_type: String::from("application/json"),
                        schema: pets_schema(),
                    },
                ],
            }),
        }],
        schemas: vec![],
    };
    let mut state = State::new(doc);
    assert!(state.select(Some(0)));
    let mut pane = RequestPane::new(true, Style::default());
    pane.update(Action::Update, &state).unwrap();
    assert!(pane.has_body);
    assert_eq!(
        pane.media_types,
        vec![String::from("application/xml"), String::from("application/json")]
    );
    assert_eq!(pane.request_schema_styles.len(), 4);
}

#[test]
fn select_rejects_an_out_of_range_index() {
    let mut state = State::new(doc_with_schema(pets_schema(), vec![]));
    assert!(!state.select(Some(5)));
    assert!(state.selected.is_none());
    assert!(state.select(Some(0)));
    assert_eq!(state.selected, Some(0));
    assert!(state.select(None));
    assert!(state.selected.is_none());
}

#[test]
fn focus_transfer_keeps_a_single_focus() {
    let mut app = App::new(doc_with_schema(pets_schema(), vec![]), 3, Style::default());
    let focused = |app: &App| -> Vec<usize> {
        app.panes
            .iter()
            .enumerate()
            .filter(|(_, p)| p.focused)
            .map(|(i, _)| i)
            .collect()
    };
    assert_eq!(focused(&app), vec![0]);
    app.focus_pane(2);
    assert_eq!(focused(&app), vec![2]);
    app.focus_next();
    assert_eq!(focused(&app), vec![0]);
    app.focus_next();
    assert_eq!(focused(&app), vec![1]);
    app.focus_pane(1);
    assert_eq!(focused(&app), vec![1]);
}

#[test]
fn update_broadcast_synchronizes_every_pane() {
    let mut app = App::new(doc_with_schema(pets_schema(), vec![]), 2, Style::default());
    assert!(app.state.select(Some(0)));
    app.dispatch(Action::Update).unwrap();
    for pane in &app.panes {
        assert_eq!(pane.request_schema_styles.len(), 4);
        assert_eq!(pane.request_schema_line_offset, 0);
    }
    app.dispatch(Action::Down).unwrap();
    assert_eq!(app.panes[0].request_schema_line_offset, 1);
    assert_eq!(app.panes[1].request_schema_line_offset, 0);
}

#[test]
fn dispatch_propagates_a_pane_error() {
    let mut app = App::new(
        doc_with_schema(Schema::Reference(String::from("Nowhere")), vec![]),
        2,
        Style::default(),
    );
    assert!(app.state.select(Some(0)));
    let r = app.dispatch(Action::Update);
    assert!(matches!(r, Err(BuildError::Reference(ResolveError::Missing(_)))));
}

#[test]
fn gutter_numbers_grow_past_nine() {
    let props: Vec<Property> = (0..5)
        .map(|i| Property {
            name: format!("field{i}"),
            schema: Schema::Primitive(String::from("string")),
        })
        .collect();
    let state = selected_state(Schema::Object(props), vec![]);
    let mut pane = RequestPane::new(true, Style::default());
    pane.update(Action::Update, &state).unwrap();
    assert_eq!(pane.request_schema_styles.len(), 12);
    assert_eq!(pane.request_schema_styles[8][0].text, " 9   ");
    assert_eq!(pane.request_schema_styles[9][0].text, " 10  ");
    assert_eq!(pane.request_schema_styles[11][0].text, " 12  ");
}

#[test]
fn key_and_mouse_events_map_to_actions() {
    let app = App::new(doc_with_schema(pets_schema(), vec![]), 1, Style::default());
    assert_eq!(app.action_for_key(KeyEvent { code: KeyCode::Up }), Some(Action::Up));
    assert_eq!(app.action_for_key(KeyEvent { code: KeyCode::Down }), Some(Action::Down));
    assert_eq!(app.action_for_key(KeyEvent { code: KeyCode::Enter }), Some(Action::Submit));
    assert_eq!(app.action_for_key(KeyEvent { code: KeyCode::Other }), None);
    assert_eq!(app.action_for_mouse(MouseEvent::ScrollUp), Some(Action::Up));
    assert_eq!(app.action_for_mouse(MouseEvent::ScrollDown), Some(Action::Down));
    assert_eq!(app.action_for_mouse(MouseEvent::Other), None);
}

#[test]
fn panes_translate_no_input_themselves() {
    let mut pane = RequestPane::new(true, Style::default());
    assert_eq!(pane.handle_key_events(KeyEvent { code: KeyCode::Down }), None);
    assert_eq!(pane.handle_mouse_events(MouseEvent::ScrollDown), None);
}

#[test]
fn focused_border_is_emphasized() {
    let emphasized = Style::from_rgb_bits(255, 128, 0, 1);
    let mut pane = RequestPane::new(false, emphasized);
    assert_eq!(pane.border_type(), BorderKind::Plain);
    assert_eq!(pane.border_style(), Style::default());
    pane.focus();
    assert_eq!(pane.border_type(), BorderKind::Thick);
    assert_eq!(pane.border_style(), emphasized);
    pane.unfocus();
    assert_eq!(pane.border_type(), BorderKind::Plain);
}
