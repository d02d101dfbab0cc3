use ftd::ast;
use ftd::error::ErrorKind;
use ftd::interpret::Built;
use ftd::kind::{Kind, KindData};
use ftd::names::Aliases;
use ftd::state::{InterpreterState, InterpreterWithoutState, ParsedDocument, StateWithThing};
use ftd::tdoc::TDoc;
use ftd::thing::{Bag, Field, OrType, Record, Thing, Variable};
use ftd::value::{PropertyValue, PropertyValueSource, Value};

fn written_kind(name: &str) -> ast::VariableKind {
    ast::VariableKind { modifier: None, kind: name.to_string() }
}

fn written_field(name: &str, kind: &str) -> ast::Field {
    ast::Field {
        name: name.to_string(),
        kind: written_kind(kind),
        mutable: false,
        caption: false,
        body: false,
        value: None,
        line_number: 2,
    }
}

fn shape() -> ast::AST {
    ast::AST::Record(ast::Record {
        name: "shape".to_string(),
        fields: vec![written_field("sides", "integer")],
        line_number: 1,
    })
}

fn document(name: &str, items: Vec<ast::AST>, foreign: Vec<&str>) -> ParsedDocument {
    ParsedDocument {
        name: name.to_string(),
        ast: items,
        doc_aliases: vec![],
        foreign_variable: foreign.into_iter().map(|v| v.to_string()).collect(),
    }
}

fn session() -> InterpreterState {
    let mut state = InterpreterState::new("a".to_string());
    state.register_parsed_document("a", document("a", vec![], vec![]));
    state
}

fn number(name: &str, n: i64) -> Variable {
    Variable {
        name: name.to_string(),
        kind: KindData::new(Kind::integer()),
        mutable: false,
        value: PropertyValue::Value {
            value: Value::Integer { value: n },
            is_mutable: false,
            line_number: 1,
        },
        conditional_value: vec![],
        line_number: 1,
        is_static: true,
    }
}

#[test]
fn import_suspends_and_resumes() {
    let aliases: Aliases = vec![];
    let mut doc = TDoc::new_state("a", &aliases, session());
    let first = doc.search_thing("b#shape", 3).unwrap();
    assert_eq!(
        first,
        StateWithThing::State(InterpreterWithoutState::StuckOnImport {
            module: "b".to_string(),
            caller_module: "a".to_string(),
        })
    );
    let mut state = doc.into_state().unwrap();
    assert_eq!(
        state.pending_imports.stack,
        vec![("b".to_string(), "b#shape".to_string(), 3, "a".to_string())]
    );
    assert_eq!(state.bag.len(), 0);
    assert!(!state.is_done());

    state.register_parsed_document("b", document("b", vec![shape()], vec![]));
    let mut doc = TDoc::new_state("a", &aliases, state);
    assert_eq!(doc.search_thing("b#shape", 3).unwrap(), StateWithThing::Continue);
    let state = doc.into_state().unwrap();
    assert_eq!(state.peek_stack(), Some(("b".to_string(), 1, 0)));

    let position = state.parsed_document_position("b").unwrap();
    let item = state.parsed_libs[position].1.ast[0].clone();
    let mut doc = TDoc::new_state("b", &aliases, state);
    let built = doc.interpret(&item).unwrap();
    assert_eq!(built, StateWithThing::Thing(Built::Definition { name: "b#shape".to_string() }));
    let mut state = doc.into_state().unwrap();
    state.advance();
    assert_eq!(state.peek_stack(), None);

    let mut doc = TDoc::new_state("a", &aliases, state);
    match doc.search_thing("b#shape", 3).unwrap() {
        StateWithThing::Thing(Thing::Record(r)) => {
            assert_eq!(r.name, "b#shape");
            assert_eq!(r.fields.len(), 1);
            assert_eq!(r.fields[0].name, "sides");
            assert_eq!(r.fields[0].kind, KindData::new(Kind::integer()));
        }
        other => panic!("expected the record, found {:?}", other),
    }
}

#[test]
fn resumed_lookup_equals_lookup_with_document_present() {
    let aliases: Aliases = vec![];
    let mut early = session();
    early.register_parsed_document("b", document("b", vec![shape()], vec![]));
    let mut doc = TDoc::new_state("a", &aliases, early);
    let direct = doc.search_thing("b#shape", 3).unwrap();
    let direct_state = doc.into_state().unwrap();

    let mut doc = TDoc::new_state("a", &aliases, session());
    let _ = doc.search_thing("b#shape", 3).unwrap();
    let mut late = doc.into_state().unwrap();
    late.register_parsed_document("b", document("b", vec![shape()], vec![]));
    let mut doc = TDoc::new_state("a", &aliases, late);
    let resumed = doc.search_thing("b#shape", 3).unwrap();
    let resumed_state = doc.into_state().unwrap();

    assert_eq!(direct, resumed);
    assert_eq!(direct_state.to_process, resumed_state.to_process);
    assert_eq!(direct_state.bag, resumed_state.bag);
    assert_eq!(direct_state.pending_imports.stack.len(), 0);
    assert_eq!(resumed_state.pending_imports.stack.len(), 1);
}

#[test]
fn foreign_variable_suspends_until_injected() {
    let aliases: Aliases = vec![];
    let mut state = session();
    state.register_parsed_document("b", document("b", vec![], vec!["env"]));
    let mut doc = TDoc::new_state("a", &aliases, state);
    assert_eq!(
        doc.search_thing("b#env.user", 5).unwrap(),
        StateWithThing::State(InterpreterWithoutState::StuckOnForeignVariable {
            module: "b".to_string(),
            variable: "env.user".to_string(),
            caller_module: "a".to_string(),
        })
    );
    let mut state = doc.into_state().unwrap();
    state.inject_foreign_variable(number("b#env", 3));
    let mut doc = TDoc::new_state("a", &aliases, state);
    match doc.search_variable("b#env", 5).unwrap() {
        StateWithThing::Thing(v) => assert_eq!(v, number("b#env", 3)),
        other => panic!("expected the variable, found {:?}", other),
    }
}

#[test]
fn name_of_registered_document_without_item_is_not_found() {
    let aliases: Aliases = vec![];
    let mut state = session();
    state.register_parsed_document("b", document("b", vec![shape()], vec![]));
    let mut doc = TDoc::new_state("a", &aliases, state);
    let e = doc.search_thing("b#circle", 5).unwrap_err();
    assert_eq!(e.kind, ErrorKind::ValueNotFound);
    assert_eq!(e.message, "b#circle");
    assert_eq!(e.doc_id, "a");
    let e = doc.search_thing("missing", 6).unwrap_err();
    assert_eq!(e.kind, ErrorKind::ValueNotFound);
    assert_eq!(e.message, "a#missing");
}

#[test]
fn queued_work_gets_deeper_and_is_bounded() {
    let aliases: Aliases = vec![];
    let mut state = session();
    state.register_parsed_document("b", document("b", vec![shape()], vec![]));
    state.to_process.stack.push(("a".to_string(), vec![(4, 0)]));
    let mut doc = TDoc::new_state("a", &aliases, state);
    assert_eq!(doc.search_thing("b#shape", 1).unwrap(), StateWithThing::Continue);
    let mut state = doc.into_state().unwrap();
    assert_eq!(state.peek_stack(), Some(("b".to_string(), 5, 0)));
    assert_eq!(state.to_process.stack.len(), 2);
    assert_eq!(state.to_process.contains, vec![("b".to_string(), "b#shape".to_string())]);

    let before = state.to_process.stack.clone();
    let mut doc = TDoc::new_state("a", &aliases, state);
    let e = doc.search_thing("b#shape", 1).unwrap_err();
    assert_eq!(e.kind, ErrorKind::ValueNotFound);
    state = doc.into_state().unwrap();
    assert_eq!(state.to_process.stack, before);
}

#[test]
fn items_of_own_document_are_queued_first() {
    let aliases: Aliases = vec![];
    let mut state = InterpreterState::new("a".to_string());
    let own = ast::AST::VariableDefinition(ast::VariableDefinition {
        name: "b#size".to_string(),
        kind: written_kind("integer"),
        mutable: false,
        value: ast::VariableValue::String { value: "3".to_string(), line_number: 4 },
        line_number: 4,
    });
    state.register_parsed_document("a", document("a", vec![shape(), own], vec![]));
    let mut doc = TDoc::new_state("a", &aliases, state);
    assert_eq!(doc.search_thing("b#size", 1).unwrap(), StateWithThing::Continue);
    let state = doc.into_state().unwrap();
    assert_eq!(state.peek_stack(), Some(("a".to_string(), 1, 1)));
    assert_eq!(state.pending_imports.stack.len(), 0);
}

#[test]
fn work_stack_is_advanced_item_by_item() {
    let mut state = session();
    state.to_process.stack.push(("a".to_string(), vec![(1, 0), (1, 2)]));
    state.to_process.stack.push(("b".to_string(), vec![(2, 7)]));
    assert_eq!(state.peek_stack(), Some(("b".to_string(), 2, 7)));
    state.increase_scan_count();
    assert_eq!(state.peek_stack(), Some(("b".to_string(), 3, 7)));
    state.advance();
    assert_eq!(state.peek_stack(), Some(("a".to_string(), 1, 0)));
    state.advance();
    assert_eq!(state.peek_stack(), Some(("a".to_string(), 1, 2)));
    state.advance();
    assert_eq!(state.peek_stack(), None);
    state.advance();
    assert!(state.is_done());
}

#[test]
fn registration_replaces_earlier_document() {
    let mut state = session();
    state.register_parsed_document("b", document("b", vec![], vec![]));
    state.register_parsed_document("a", document("a", vec![shape()], vec![]));
    assert_eq!(state.parsed_libs.len(), 2);
    assert_eq!(state.parsed_document_position("a"), Some(0));
    assert_eq!(state.parsed_libs[0].1.ast.len(), 1);
    assert_eq!(state.parsed_document_position("c"), None);
}

#[test]
fn scan_notes_what_is_missing() {
    let aliases: Aliases = vec![];
    let mut state = session();
    state.register_parsed_document("b", document("b", vec![shape()], vec!["env"]));
    state.inject_foreign_variable(number("a#known", 1));
    let mut doc = TDoc::new_state("a", &aliases, state);
    doc.scan_thing("$known", 1).unwrap();
    doc.scan_thing("inherited#colors", 1).unwrap();
    doc.scan_thing("b#circle", 1).unwrap();
    assert_eq!(doc.state().unwrap().pending_imports.stack.len(), 0);
    doc.scan_thing("b#shape", 2).unwrap();
    doc.scan_thing("b#shape.sides", 3).unwrap();
    assert_eq!(
        doc.state().unwrap().pending_imports.stack,
        vec![("b".to_string(), "b#shape".to_string(), 2, "a".to_string())]
    );
    doc.scan_thing("b#env", 4).unwrap();
    doc.scan_thing("c#thing", 5).unwrap();
    doc.scan_thing("c#thing", 6).unwrap();
    let state = doc.into_state().unwrap();
    assert_eq!(state.pending_imports.stack.len(), 4);
    assert_eq!(state.pending_imports.contains.len(), 3);
    assert_eq!(state.to_process.stack.len(), 0);
    assert_eq!(state.bag.len(), 1);
}

#[test]
fn lookup_over_finished_definitions_never_suspends() {
    let mut bag = Bag::new();
    bag.insert("a#n".to_string(), Thing::Variable(number("a#n", 1)));
    let aliases: Aliases = vec![];
    let mut doc = TDoc::new("a", &aliases, &bag);
    assert!(doc.state().is_none());
    assert!(matches!(doc.search_thing("n", 1).unwrap(), StateWithThing::Thing(Thing::Variable(_))));
    let e = doc.search_thing("b#shape", 2).unwrap_err();
    assert_eq!(e.kind, ErrorKind::ValueNotFound);
    assert_eq!(e.message, "b#shape");
    assert_eq!(doc.scan_thing("b#shape", 2).unwrap_err().kind, ErrorKind::ValueNotFound);
    assert!(doc.scan_thing("n", 2).is_ok());
}

#[test]
fn typed_lookup_rejects_other_sorts() {
    let mut bag = Bag::new();
    bag.insert("a#n".to_string(), Thing::Variable(number("a#n", 1)));
    bag.insert(
        "a#shape".to_string(),
        Thing::Record(Record::new(
            "a#shape",
            vec![Field::new("sides", KindData::new(Kind::integer()), false, None, 2)],
            1,
        )),
    );
    let aliases: Aliases = vec![];
    let mut doc = TDoc::new("a", &aliases, &bag);
    assert_eq!(doc.search_record("n", 1).unwrap_err().kind, ErrorKind::UnexpectedKind);
    assert_eq!(doc.search_variable("shape", 1).unwrap_err().kind, ErrorKind::UnexpectedKind);
    assert_eq!(doc.search_component("shape", 1).unwrap_err().kind, ErrorKind::UnexpectedKind);
    assert_eq!(doc.search_or_type("shape", 1).unwrap_err().kind, ErrorKind::UnexpectedKind);
    assert_eq!(doc.search_function("shape", 1).unwrap_err().kind, ErrorKind::UnexpectedKind);
    assert_eq!(doc.get_record("n", 1).unwrap_err().kind, ErrorKind::UnexpectedKind);
    assert_eq!(doc.get_variable("shape", 1).unwrap_err().kind, ErrorKind::UnexpectedKind);
    assert_eq!(doc.get_component("n", 1).unwrap_err().kind, ErrorKind::UnexpectedKind);
    assert_eq!(doc.get_function("n", 1).unwrap_err().kind, ErrorKind::UnexpectedKind);
    assert!(doc.get_record("shape", 1).is_ok());
    assert!(matches!(doc.search_record("shape", 1).unwrap(), StateWithThing::Thing(_)));
}

#[test]
fn variant_of_or_type_is_found() {
    let mut bag = Bag::new();
    bag.insert(
        "a#length".to_string(),
        Thing::OrType(OrType {
            name: "a#length".to_string(),
            variants: vec![
                Field::new("a#length.px", KindData::new(Kind::integer()), false, None, 2),
                Field::new("a#length.percent", KindData::new(Kind::decimal()), false, None, 3),
            ],
            line_number: 1,
        }),
    );
    let aliases: Aliases = vec![];
    let mut doc = TDoc::new("a", &aliases, &bag);
    match doc.search_or_type_with_variant("length.percent", 1).unwrap() {
        StateWithThing::Thing((or_type, variant)) => {
            assert_eq!(or_type, "a#length");
            assert_eq!(variant.name, "a#length.percent");
        }
        other => panic!("expected the variant, found {:?}", other),
    }
    assert_eq!(doc.search_thing("length.em", 1).unwrap_err().kind, ErrorKind::ValueNotFound);
    assert_eq!(doc.get_thing("length.px", 1).unwrap_err().kind, ErrorKind::TypeMismatch);
}

#[test]
fn kind_of_dotted_name_is_looked_up() {
    let mut bag = Bag::new();
    let point = Record::new(
        "a#point",
        vec![
            Field::new("x", KindData::new(Kind::integer()), false, None, 2),
            Field::new("tags", KindData::new(Kind::string().into_list()), false, None, 3),
            Field::new("next", KindData::new(Kind::record("a#point").into_optional()), false, None, 4),
        ],
        1,
    );
    bag.insert("a#point".to_string(), Thing::Record(point));
    bag.insert(
        "a#origin".to_string(),
        Thing::Variable(Variable {
            name: "a#origin".to_string(),
            kind: KindData::new(Kind::record("a#point")),
            mutable: false,
            value: PropertyValue::Reference {
                name: "a#elsewhere".to_string(),
                kind: KindData::new(Kind::record("a#point")),
                source: PropertyValueSource::Global,
                is_mutable: false,
                line_number: 1,
            },
            conditional_value: vec![],
            line_number: 1,
            is_static: true,
        }),
    );
    let aliases: Aliases = vec![];
    let mut doc = TDoc::new("a", &aliases, &bag);
    assert_eq!(
        doc.get_kind("$origin.x", 1).unwrap(),
        StateWithThing::Thing(KindData::new(Kind::integer()))
    );
    assert_eq!(
        doc.get_kind("origin.tags.0", 1).unwrap(),
        StateWithThing::Thing(KindData::new(Kind::string()))
    );
    assert_eq!(
        doc.get_kind("origin.next.x", 1).unwrap(),
        StateWithThing::Thing(KindData::new(Kind::integer().into_optional()))
    );
    assert_eq!(
        doc.get_kind("point", 1).unwrap(),
        StateWithThing::Thing(KindData::new(Kind::record("a#point")).caption_or_body())
    );
    assert_eq!(doc.get_kind("origin.y", 1).unwrap_err().kind, ErrorKind::FieldNotFound);
    assert_eq!(doc.get_kind("origin.x.y", 1).unwrap_err().kind, ErrorKind::TypeMismatch);

    let arguments = vec![Field::new("title", KindData::new(Kind::string()), false, None, 1)];
    let found = doc
        .get_kind_with_argument("$card.title", 1, Some(("card", &arguments)), &None)
        .unwrap();
    assert_eq!(
        found,
        StateWithThing::Thing((
            PropertyValueSource::Local("card".to_string()),
            KindData::new(Kind::string())
        ))
    );
    let e = doc
        .get_kind_with_argument("$card.nope", 1, Some(("card", &arguments)), &None)
        .unwrap_err();
    assert_eq!(e.kind, ErrorKind::ArgumentNotFound);
    let object = Some((
        "a#p".to_string(),
        Field::new("a#p", KindData::new(Kind::record("a#point")), false, None, 1),
    ));
    assert_eq!(
        doc.get_kind_with_argument("$p.x", 1, None, &object).unwrap(),
        StateWithThing::Thing((
            PropertyValueSource::Loop("a#p".to_string()),
            KindData::new(Kind::integer())
        ))
    );
}

#[test]
fn scan_of_an_instance_notes_every_name_it_uses() {
    let value = |text: &str, line_number: usize| ast::VariableValue::String {
        value: text.to_string(),
        line_number,
    };
    let property = |text: &str, condition: Option<&str>, line_number: usize| ast::Property {
        value: value(text, line_number),
        source: ast::PropertySource::Caption,
        condition: condition.map(|c| c.to_string()),
        line_number,
    };
    let child = ast::Component {
        name: "lib#card".to_string(),
        properties: vec![property("$p.name", None, 8), property("plain", None, 9)],
        iteration: None,
        condition: None,
        events: vec![],
        children: vec![],
        line_number: 7,
    };
    let item = ast::Component {
        name: "row".to_string(),
        properties: vec![property("$theme#size", Some("$flags#dark && !$row.open"), 3)],
        iteration: Some(ast::Loop {
            on: "$data#people".to_string(),
            alias: "p".to_string(),
            line_number: 2,
        }),
        condition: Some(ast::Condition { expression: "$p.visible".to_string(), line_number: 4 }),
        events: vec![ast::Event {
            name: "click".to_string(),
            action: "$actions#toggle(flag = $flags#dark, other = 1)".to_string(),
            line_number: 5,
        }],
        children: vec![child],
        line_number: 1,
    };
    let aliases: Aliases = vec![];
    let arguments = vec!["open".to_string()];
    let mut doc = TDoc::new_state("a", &aliases, session());
    ftd::value::Component::scan_ast_component(&item, Some(("row", &arguments)), &mut doc).unwrap();
    let state = doc.into_state().unwrap();
    let noted: Vec<(&str, &str, usize)> = state
        .pending_imports
        .stack
        .iter()
        .map(|w| (w.0.as_str(), w.1.as_str(), w.2))
        .collect();
    assert_eq!(
        noted,
        vec![
            ("lib", "lib#card", 7),
            ("data", "data#people", 2),
            ("actions", "actions#toggle", 5),
            ("flags", "flags#dark", 5),
            ("theme", "theme#size", 3),
            ("flags", "flags#dark", 3),
        ]
    );
    assert_eq!(state.bag.len(), 0);
    assert_eq!(state.to_process.stack.len(), 0);
}

#[test]
fn scan_of_fields_notes_their_kinds() {
    let aliases: Aliases = vec![];
    let mut doc = TDoc::new_state("a", &aliases, session());
    let mut fields = vec![written_field("n", "integer"), written_field("at", "geo#point")];
    fields[1].value = Some(ast::VariableValue::Record {
        name: "geo#point".to_string(),
        fields: vec![(
            "x".to_string(),
            ast::VariableValue::List {
                items: vec![ast::VariableValue::String {
                    value: "*$geo#zero".to_string(),
                    line_number: 6,
                }],
                line_number: 5,
            },
        )],
        line_number: 4,
    });
    Field::scan_ast_fields(&fields, &mut doc).unwrap();
    let state = doc.into_state().unwrap();
    let noted: Vec<&str> = state.pending_imports.stack.iter().map(|w| w.1.as_str()).collect();
    assert_eq!(noted, vec!["geo#point", "geo#point", "geo#zero"]);
}
