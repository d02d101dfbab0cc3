use ftd::ast;
use ftd::error::ErrorKind;
use ftd::executor;
use ftd::interpret::Built;
use ftd::kind::{Kind, KindData};
use ftd::names::Aliases;
use ftd::state::{InterpreterState, ParsedDocument, StateWithThing};
use ftd::tdoc::TDoc;
use ftd::thing::{ComponentDefinition, Field, Function, Record, Thing, Variable};
use ftd::value::{
    Component, EventName, Expression, ExpressionNode, FunctionCall, Loop, Property,
    PropertySource, PropertyValue, PropertyValueSource, Value,
};

fn aliases() -> Aliases {
    vec![("ftd".to_string(), "ftd".to_string())]
}

fn literal(value: Value) -> PropertyValue {
    PropertyValue::Value { value, is_mutable: false, line_number: 1 }
}

fn text_of(s: &str) -> Value {
    Value::String { text: s.to_string() }
}

fn variable(name: &str, kind: Kind, value: PropertyValue) -> Thing {
    Thing::Variable(Variable {
        name: name.to_string(),
        kind: KindData::new(kind),
        mutable: false,
        value,
        conditional_value: vec![],
        line_number: 1,
        is_static: true,
    })
}

fn person(name: &str) -> PropertyValue {
    literal(Value::Record {
        name: "foo#person".to_string(),
        fields: vec![("name".to_string(), literal(text_of(name)))],
    })
}

fn session() -> InterpreterState {
    let mut state = InterpreterState::new("foo".to_string());
    state.register_parsed_document(
        "foo",
        ParsedDocument {
            name: "foo".to_string(),
            ast: vec![],
            doc_aliases: aliases(),
            foreign_variable: vec![],
        },
    );
    state.bag.insert(
        "ftd#text".to_string(),
        Thing::Component(ComponentDefinition::new(
            "ftd#text",
            vec![
                Field::new("text", KindData::new(Kind::string()).caption_or_body(), false, None, 1),
                Field::new("size", KindData::new(Kind::integer().into_optional()), true, None, 1),
            ],
            Component::from_name("ftd#kernel"),
            1,
        )),
    );
    state.bag.insert(
        "ftd#column".to_string(),
        Thing::Component(ComponentDefinition::new(
            "ftd#column",
            vec![Field::new("children", KindData::new(Kind::ui().into_list()), false, None, 1)],
            Component::from_name("ftd#kernel"),
            1,
        )),
    );
    state.bag.insert(
        "foo#person".to_string(),
        Thing::Record(Record::new(
            "foo#person",
            vec![Field::new("name", KindData::new(Kind::string()), false, None, 2)],
            1,
        )),
    );
    state.bag.insert(
        "foo#people".to_string(),
        variable(
            "foo#people",
            Kind::record("foo#person").into_list(),
            literal(Value::List {
                data: vec![person("Ann"), person("Bob"), person("Cy")],
                kind: KindData::new(Kind::record("foo#person")),
            }),
        ),
    );
    state.bag.insert(
        "foo#on".to_string(),
        variable("foo#on", Kind::boolean(), literal(Value::Boolean { value: true })),
    );
    state.bag.insert(
        "foo#off".to_string(),
        variable("foo#off", Kind::boolean(), literal(Value::Boolean { value: false })),
    );
    state.bag.insert(
        "foo#toggle".to_string(),
        Thing::Function(Function {
            name: "foo#toggle".to_string(),
            return_kind: KindData::new(Kind::boolean()),
            arguments: vec![Field::new("flag", KindData::new(Kind::boolean()), false, None, 1)],
            expression: Expression {
                node: ExpressionNode::Not(Box::new(ExpressionNode::Argument("flag".to_string()))),
                line_number: 1,
            },
            line_number: 1,
        }),
    );
    state
}

fn written(text: &str, line_number: usize) -> ast::VariableValue {
    ast::VariableValue::String { value: text.to_string(), line_number }
}

fn caption(text: &str) -> ast::Property {
    ast::Property {
        value: written(text, 2),
        source: ast::PropertySource::Caption,
        condition: None,
        line_number: 2,
    }
}

fn header(name: &str, mutable: bool, text: &str) -> ast::Property {
    ast::Property {
        value: written(text, 3),
        source: ast::PropertySource::Header { name: name.to_string(), mutable },
        condition: None,
        line_number: 3,
    }
}

fn instance(name: &str, properties: Vec<ast::Property>) -> ast::Component {
    ast::Component {
        name: name.to_string(),
        properties,
        iteration: None,
        condition: None,
        events: vec![],
        children: vec![],
        line_number: 1,
    }
}

fn kind_named(name: &str) -> ast::VariableKind {
    ast::VariableKind { modifier: None, kind: name.to_string() }
}

fn greeting() -> ast::AST {
    ast::AST::ComponentDefinition(ast::ComponentDefinition {
        name: "greeting".to_string(),
        arguments: vec![ast::Field {
            name: "name".to_string(),
            kind: kind_named("string"),
            mutable: false,
            caption: true,
            body: false,
            value: None,
            line_number: 1,
        }],
        definition: instance("ftd.text", vec![caption("$greeting.name")]),
        line_number: 1,
    })
}

fn with_greeting() -> InterpreterState {
    let names = aliases();
    let mut doc = TDoc::new_state("foo", &names, session());
    let built = doc.interpret(&greeting()).unwrap();
    assert_eq!(built, StateWithThing::Thing(Built::Definition { name: "foo#greeting".to_string() }));
    doc.into_state().unwrap()
}

fn build(state: InterpreterState, c: &ast::Component) -> Result<StateWithThing<Component>, ftd::error::Error> {
    let names = aliases();
    let mut doc = TDoc::new_state("foo", &names, state);
    Component::from_ast_component(c, None, &mut doc)
}

fn built_component(state: InterpreterState, c: &ast::Component) -> Component {
    match build(state, c).unwrap() {
        StateWithThing::Thing(c) => c,
        other => panic!("expected an instance, found {:?}", other),
    }
}

#[test]
fn caption_is_bound_to_the_caption_argument() {
    let state = with_greeting();
    let names = aliases();
    let definition = match state.bag.get("foo#greeting").unwrap() {
        Thing::Component(c) => c,
        other => panic!("expected a component, found {:?}", other),
    };
    assert_eq!(definition.arguments.len(), 1);
    assert_eq!(definition.arguments[0].kind, KindData::new(Kind::string()).caption());
    assert_eq!(definition.definition.name, "ftd#text");
    assert_eq!(
        definition.definition.properties[0].value,
        PropertyValue::Reference {
            name: "foo#greeting.name".to_string(),
            kind: KindData::new(Kind::string()).caption_or_body(),
            source: PropertyValueSource::Local("greeting".to_string()),
            is_mutable: false,
            line_number: 2,
        }
    );

    let mut doc = TDoc::new_state("foo", &names, state);
    let written = ast::AST::ComponentInvocation(instance("greeting", vec![caption("World")]));
    let component = match doc.interpret(&written).unwrap() {
        StateWithThing::Thing(Built::Instance(c)) => c,
        other => panic!("expected an instance, found {:?}", other),
    };
    assert_eq!(component.name, "foo#greeting");
    assert_eq!(component.properties.len(), 1);
    assert_eq!(component.properties[0].source, PropertySource::Caption);
    assert_eq!(component.properties[0].value.kind(), Kind::string());
    assert_eq!(component.properties[0].resolve(&doc).unwrap(), Some(text_of("World")));
    let name = executor::string("name", &component.properties, &definition.arguments, &doc, 1)
        .unwrap();
    assert_eq!(name.value, "World");
    assert_eq!(name.line_number, Some(2));
}

#[test]
fn loop_binds_its_alias_to_each_item() {
    let mut c = instance("ftd.text", vec![caption("$p.name")]);
    c.iteration =
        Some(ast::Loop { on: "$people".to_string(), alias: "p".to_string(), line_number: 4 });
    let names = aliases();
    let mut doc = TDoc::new_state("foo", &names, session());
    let component = match Component::from_ast_component(&c, None, &mut doc).unwrap() {
        StateWithThing::Thing(c) => c,
        other => panic!("expected an instance, found {:?}", other),
    };
    assert!(component.is_loop());
    let iteration: Loop = (*component.iteration).clone().unwrap();
    assert_eq!(iteration.alias, "foo#p");
    assert_eq!(iteration.loop_object_kind("foo").unwrap(), Kind::record("foo#person"));
    let object = iteration.loop_object_as_argument(&doc).unwrap();
    assert_eq!(object.name, "foo#p");
    assert_eq!(object.kind, KindData::new(Kind::record("foo#person")));
    let (items, kind) = iteration.children(&doc).unwrap();
    assert_eq!(items.len(), 3);
    assert_eq!(kind, KindData::new(Kind::record("foo#person")));
    assert_eq!(
        component.properties[0].value,
        PropertyValue::Reference {
            name: "foo#p.name".to_string(),
            kind: KindData::new(Kind::string()).caption_or_body(),
            source: PropertyValueSource::Loop("foo#p".to_string()),
            is_mutable: false,
            line_number: 2,
        }
    );
}

#[test]
fn loop_over_something_else_than_a_list_fails() {
    let mut c = instance("ftd.text", vec![]);
    c.iteration = Some(ast::Loop { on: "$on".to_string(), alias: "p".to_string(), line_number: 4 });
    let e = build(session(), &c).unwrap_err();
    assert_eq!(e.kind, ErrorKind::TypeMismatch);
    assert_eq!(e.line_number, 4);
}

#[test]
fn property_of_another_kind_is_refused() {
    let e = build(with_greeting(), &instance("greeting", vec![caption("$on")])).unwrap_err();
    assert_eq!(e.kind, ErrorKind::InvalidKind);
    assert_eq!(e.message, "$on");
    let e = build(session(), &instance("ftd.text", vec![header("size", true, "big")])).unwrap_err();
    assert_eq!(e.kind, ErrorKind::ParseIntError);
    let c = built_component(session(), &instance("ftd.text", vec![header("size", true, "12")]));
    assert_eq!(c.properties[0].value.kind(), Kind::integer().into_optional());
    assert_eq!(
        c.properties[0].source,
        PropertySource::Header { name: "size".to_string(), mutable: true }
    );
}

#[test]
fn header_has_to_match_an_argument() {
    let e = build(session(), &instance("ftd.text", vec![header("nope", false, "1")])).unwrap_err();
    assert_eq!(e.kind, ErrorKind::ArgumentNotFound);
    assert_eq!(e.message, "nope");
    let e = build(session(), &instance("ftd.text", vec![header("size", false, "1")])).unwrap_err();
    assert_eq!(e.kind, ErrorKind::MutabilityMismatch);
    assert_eq!(e.message, "size");
    let e = build(session(), &instance("ftd.column", vec![caption("x")])).unwrap_err();
    assert_eq!(e.kind, ErrorKind::ArgumentNotFound);
}

#[test]
fn unset_value_needs_an_optional_argument() {
    let mut p = header("size", true, "");
    p.value = ast::VariableValue::Null { line_number: 3 };
    let c = built_component(session(), &instance("ftd.text", vec![p]));
    assert_eq!(
        c.properties[0].value,
        PropertyValue::Value {
            value: Value::Optional { data: Box::new(None), kind: KindData::new(Kind::integer()) },
            is_mutable: true,
            line_number: 3,
        }
    );
    let mut p = caption("");
    p.value = ast::VariableValue::Null { line_number: 2 };
    let e = build(session(), &instance("ftd.text", vec![p])).unwrap_err();
    assert_eq!(e.kind, ErrorKind::InvalidKind);
}

#[test]
fn events_bind_known_names_to_calls() {
    let mut c = instance("ftd.text", vec![caption("hi")]);
    c.events = vec![
        ast::Event {
            name: "click".to_string(),
            action: "$toggle(flag = $on)".to_string(),
            line_number: 5,
        },
        ast::Event {
            name: "global-key[ctrl-a]".to_string(),
            action: "$toggle(flag = false)".to_string(),
            line_number: 6,
        },
    ];
    let names = aliases();
    let mut doc = TDoc::new_state("foo", &names, session());
    let component = match Component::from_ast_component(&c, None, &mut doc).unwrap() {
        StateWithThing::Thing(c) => c,
        other => panic!("expected an instance, found {:?}", other),
    };
    assert_eq!(component.events.len(), 2);
    assert_eq!(component.events[0].name, EventName::Click);
    assert_eq!(component.events[0].action.name, "foo#toggle");
    assert_eq!(component.events[0].action.values[0].0, "flag");
    assert_eq!(
        component.events[1].name,
        EventName::GlobalKey(vec!["ctrl".to_string(), "a".to_string()])
    );
    assert_eq!(
        component.events[0].action.resolve(&doc, 5).unwrap(),
        Value::Boolean { value: false }
    );
    assert_eq!(
        component.events[1].action.resolve(&doc, 6).unwrap(),
        Value::Boolean { value: true }
    );

    c.events[0].name = "hover".to_string();
    let e = build(session(), &c).unwrap_err();
    assert_eq!(e.kind, ErrorKind::UnknownEvent);
    assert_eq!(e.message, "hover");
    assert_eq!(e.line_number, 5);
    c.events[0].name = "click".to_string();
    c.events[0].action = "$toggle(other = $on)".to_string();
    assert_eq!(build(session(), &c).unwrap_err().kind, ErrorKind::ArgumentNotFound);
    c.events[0].action = "toggle".to_string();
    assert_eq!(build(session(), &c).unwrap_err().kind, ErrorKind::ParseError);
}

#[test]
fn event_names_are_recognised() {
    let ok = |s: &str| EventName::from_string(s, "foo", 1).unwrap();
    assert_eq!(ok("click"), EventName::Click);
    assert_eq!(ok("mouse-enter"), EventName::MouseEnter);
    assert_eq!(ok("mouse-leave"), EventName::MouseLeave);
    assert_eq!(ok("click-outside"), EventName::ClickOutside);
    assert_eq!(ok("input"), EventName::Input);
    assert_eq!(ok("change"), EventName::Change);
    assert_eq!(ok("blur"), EventName::Blur);
    assert_eq!(ok("focus"), EventName::Focus);
    assert_eq!(
        ok("global-key-seq[up-up-down]"),
        EventName::GlobalKeySeq(vec!["up".to_string(), "up".to_string(), "down".to_string()])
    );
    assert_eq!(ok("global-key[]"), EventName::GlobalKey(vec!["".to_string()]));
    let e = EventName::from_string("global-key[a", "foo", 4).unwrap_err();
    assert_eq!(e.kind, ErrorKind::UnknownEvent);
    assert_eq!(e.doc_id, "foo");
    assert_eq!(e.line_number, 4);
    assert_eq!(EventName::from_string("Click", "foo", 4).unwrap_err().kind, ErrorKind::UnknownEvent);
}

#[test]
fn children_become_a_subsection_property() {
    let mut c = instance("ftd.column", vec![]);
    c.children = vec![
        instance("ftd.text", vec![caption("one")]),
        instance("ftd.text", vec![caption("two")]),
    ];
    c.children[1].line_number = 9;
    let names = aliases();
    let mut doc = TDoc::new_state("foo", &names, session());
    let component = match Component::from_ast_component(&c, None, &mut doc).unwrap() {
        StateWithThing::Thing(c) => c,
        other => panic!("expected an instance, found {:?}", other),
    };
    assert_eq!(component.properties.len(), 1);
    assert_eq!(component.properties[0].source, PropertySource::Subsection);
    assert_eq!(component.properties[0].value.kind(), Kind::ui().into_list());
    assert!(component.children.is_empty());
    let children = component.get_children(&doc).unwrap();
    assert_eq!(children.len(), 2);
    assert_eq!(children[0].name, "ftd#text");
    assert_eq!(children[1].line_number, 9);
    assert_eq!(children[1].properties[0].resolve(&doc).unwrap(), Some(text_of("two")));
    assert!(children[0].get_children(&doc).unwrap().is_empty());
}

#[test]
fn children_need_an_argument_that_takes_them() {
    let mut c = instance("ftd.text", vec![caption("x")]);
    c.children = vec![instance("ftd.text", vec![caption("one")])];
    let e = build(session(), &c).unwrap_err();
    assert_eq!(e.kind, ErrorKind::ParseError);
    assert_eq!(e.message, "Subsection is unexpected");
}

#[test]
fn children_come_from_one_place_only() {
    let ui = |line: usize| Property {
        value: PropertyValue::Value {
            value: Value::List { data: vec![], kind: KindData::new(Kind::ui()) },
            is_mutable: false,
            line_number: line,
        },
        source: PropertySource::header("children"),
        condition: None,
        line_number: line,
    };
    let check = ftd::builder::validate_children_kind_property_against_children;
    assert!(check(&vec![], true, "foo").is_ok());
    assert!(check(&vec![ui(3)], false, "foo").is_ok());
    let e = check(&vec![ui(3), ui(4)], false, "foo").unwrap_err();
    assert_eq!(e.message, "Can't pass multiple children");
    assert_eq!(e.line_number, 3);
    let e = check(&vec![ui(3)], true, "foo").unwrap_err();
    assert_eq!(e.message, "Can't have children passed in both subsection and header");
    let mut conditional = ui(5);
    conditional.condition = Some(Expression {
        node: ExpressionNode::Value(literal(Value::Boolean { value: true })),
        line_number: 5,
    });
    let e = check(&vec![conditional], false, "foo").unwrap_err();
    assert_eq!(e.message, "Not supporting condition for children");
    assert_eq!(e.kind, ErrorKind::ParseError);
}

#[test]
fn definition_may_not_be_a_loop() {
    let mut body = instance("ftd.text", vec![caption("x")]);
    body.iteration =
        Some(ast::Loop { on: "$people".to_string(), alias: "p".to_string(), line_number: 6 });
    let item = ast::AST::ComponentDefinition(ast::ComponentDefinition {
        name: "list".to_string(),
        arguments: vec![],
        definition: body,
        line_number: 1,
    });
    let names = aliases();
    let mut doc = TDoc::new_state("foo", &names, session());
    let e = doc.interpret(&item).unwrap_err();
    assert_eq!(e.kind, ErrorKind::ParseError);
    assert_eq!(e.line_number, 6);
    let state = doc.into_state().unwrap();
    assert!(!state.bag.contains_key("foo#list"));
}

#[test]
fn item_of_another_sort_is_refused() {
    let names = aliases();
    let mut doc = TDoc::new_state("foo", &names, session());
    let e = Component::from_ast(&greeting(), &mut doc).unwrap_err();
    assert_eq!(e.kind, ErrorKind::ParseError);
    let item = ast::AST::ComponentInvocation(instance("ftd.text", vec![caption("x")]));
    assert_eq!(ComponentDefinition::from_ast(&item, &mut doc).unwrap_err().kind, ErrorKind::ParseError);
    assert!(Component::from_ast(&item, &mut doc).is_ok());
    assert!(Component::scan_ast(&item, &mut doc).is_ok());
    assert!(ComponentDefinition::scan_ast(&greeting(), &mut doc).is_ok());
    assert!(ComponentDefinition::scan_ast(&item, &mut doc).is_err());
}

#[test]
fn conditions_are_read_from_the_left() {
    let names = aliases();
    let mut doc = TDoc::new_state("foo", &names, session());
    let written = ast::Condition { expression: "$off && $on || !$off".to_string(), line_number: 3 };
    let e = match Expression::from_ast_condition(&written, None, &None, &mut doc).unwrap() {
        StateWithThing::Thing(e) => e,
        other => panic!("expected an expression, found {:?}", other),
    };
    assert_eq!(e.line_number, 3);
    assert!(matches!(e.node, ExpressionNode::Or(_, _)));
    assert_eq!(e.eval(&doc), Ok(true));
    let written = ast::Condition { expression: "!!$off".to_string(), line_number: 3 };
    let e = match Expression::from_ast_condition(&written, None, &None, &mut doc).unwrap() {
        StateWithThing::Thing(e) => e,
        other => panic!("expected an expression, found {:?}", other),
    };
    assert_eq!(e.eval(&doc), Ok(false));
    let written = ast::Condition { expression: "$people".to_string(), line_number: 3 };
    let e = Expression::from_ast_condition(&written, None, &None, &mut doc).unwrap_err();
    assert_eq!(e.kind, ErrorKind::InvalidKind);
}

#[test]
fn conditional_property_contributes_only_when_it_holds() {
    let mut p = caption("hi");
    p.condition = Some("$off".to_string());
    let names = aliases();
    let mut doc = TDoc::new_state("foo", &names, session());
    let c = match Component::from_ast_component(&instance("ftd.text", vec![p, caption("ho")]), None, &mut doc)
        .unwrap()
    {
        StateWithThing::Thing(c) => c,
        other => panic!("expected an instance, found {:?}", other),
    };
    assert_eq!(c.properties[0].resolve(&doc).unwrap(), None);
    assert_eq!(c.properties[1].resolve(&doc).unwrap(), Some(text_of("ho")));
}

#[test]
fn function_is_built_and_called() {
    let flag = |name: &str| ast::Field {
        name: name.to_string(),
        kind: kind_named("boolean"),
        mutable: false,
        caption: false,
        body: false,
        value: None,
        line_number: 1,
    };
    let item = ast::AST::FunctionDefinition(ast::Function {
        name: "both".to_string(),
        kind: kind_named("boolean"),
        arguments: vec![flag("a"), flag("b")],
        expression: "a && !b".to_string(),
        line_number: 1,
    });
    let names = aliases();
    let mut doc = TDoc::new_state("foo", &names, session());
    assert_eq!(
        doc.interpret(&item).unwrap(),
        StateWithThing::Thing(Built::Definition { name: "foo#both".to_string() })
    );
    let call = match FunctionCall::from_string("$both(a = $on, b = false)", &mut doc, false, None, &None, 7)
        .unwrap()
    {
        StateWithThing::Thing(c) => c,
        other => panic!("expected a call, found {:?}", other),
    };
    assert_eq!(call.kind, KindData::new(Kind::boolean()));
    assert_eq!(call.resolve(&doc, 7).unwrap(), Value::Boolean { value: true });
    let call = match FunctionCall::from_string("$both(a = $on, b = $on)", &mut doc, false, None, &None, 7)
        .unwrap()
    {
        StateWithThing::Thing(c) => c,
        other => panic!("expected a call, found {:?}", other),
    };
    assert_eq!(call.resolve(&doc, 7).unwrap(), Value::Boolean { value: false });
    let missing = FunctionCall::new("foo#both", KindData::new(Kind::boolean()), false, 7, vec![]);
    assert_eq!(missing.resolve(&doc, 7).unwrap_err().kind, ErrorKind::ArgumentNotFound);
}

fn declare(kind: ast::VariableKind, value: ast::VariableValue) -> Result<Variable, ftd::error::Error> {
    let item = ast::VariableDefinition {
        name: if matches!(kind.modifier, Some(ast::VariableModifier::List)) {
            "ages".to_string()
        } else {
            "age".to_string()
        },
        kind,
        mutable: false,
        value,
        line_number: 1,
    };
    let names = aliases();
    let mut doc = TDoc::new_state("foo", &names, session());
    match Variable::from_ast(&item, &mut doc)? {
        StateWithThing::Thing(v) => Ok(v),
        other => panic!("expected a variable, found {:?}", other),
    }
}

#[test]
fn integer() {
    let v = declare(kind_named("integer"), written("40", 1)).unwrap();
    assert_eq!(
        v,
        Variable {
            name: "foo#age".to_string(),
            kind: KindData::new(Kind::integer()),
            mutable: false,
            value: literal(Value::Integer { value: 40 }),
            conditional_value: vec![],
            line_number: 1,
            is_static: true,
        }
    );
    assert_eq!(
        declare(kind_named("integer"), written("-9223372036854775808", 1)).unwrap().value,
        literal(Value::Integer { value: i64::MIN })
    );
    assert_eq!(
        declare(kind_named("integer"), written("9223372036854775808", 1)).unwrap_err().kind,
        ErrorKind::ParseIntError
    );
    assert_eq!(
        declare(kind_named("boolean"), written("yes", 1)).unwrap_err().kind,
        ErrorKind::ParseBoolError
    );
    assert_eq!(
        declare(kind_named("unknown"), written("1", 1)).unwrap_err().kind,
        ErrorKind::ValueNotFound
    );
    assert_eq!(
        declare(kind_named("people"), written("1", 1)).unwrap_err().kind,
        ErrorKind::InvalidKind
    );
}

#[test]
fn integer_list() {
    let list = ast::VariableKind {
        modifier: Some(ast::VariableModifier::List),
        kind: "integer".to_string(),
    };
    let v = declare(
        list.clone(),
        ast::VariableValue::List { items: vec![written("40", 3), written("50", 5)], line_number: 1 },
    )
    .unwrap();
    assert_eq!(v.name, "foo#ages");
    assert_eq!(
        v.value,
        PropertyValue::Value {
            value: Value::List {
                data: vec![
                    PropertyValue::Value {
                        value: Value::Integer { value: 40 },
                        is_mutable: false,
                        line_number: 3,
                    },
                    PropertyValue::Value {
                        value: Value::Integer { value: 50 },
                        is_mutable: false,
                        line_number: 5,
                    },
                ],
                kind: KindData { kind: Kind::Integer, caption: false, body: false },
            },
            is_mutable: false,
            line_number: 1,
        }
    );
    assert_eq!(v.kind.kind, Kind::List { kind: Box::new(Kind::Integer) });
    let e = declare(
        list,
        ast::VariableValue::List {
            items: vec![
                written("40", 3),
                ast::VariableValue::List { items: vec![], line_number: 5 },
            ],
            line_number: 1,
        },
    )
    .unwrap_err();
    assert_eq!(e.kind, ErrorKind::InvalidKind);
    assert_eq!(e.doc_id, "foo");
    assert_eq!(e.line_number, 5);
}

#[test]
fn optional() {
    let kind = ast::VariableKind {
        modifier: Some(ast::VariableModifier::Optional),
        kind: "integer".to_string(),
    };
    let v = declare(kind.clone(), written("40", 1)).unwrap();
    assert_eq!(
        v.value,
        literal(Value::Optional {
            data: Box::new(Some(Value::Integer { value: 40 })),
            kind: KindData { kind: Kind::Integer, caption: false, body: false },
        })
    );
    let v = declare(kind, ast::VariableValue::Null { line_number: 1 }).unwrap();
    assert_eq!(
        v.value,
        literal(Value::Optional {
            data: Box::new(None),
            kind: KindData { kind: Kind::Integer, caption: false, body: false },
        })
    );
    assert_eq!(v.value.kind(), Kind::integer().into_optional());
}

#[test]
fn record_literal_takes_defaults_for_missing_fields() {
    let record = ast::AST::Record(ast::Record {
        name: "point".to_string(),
        fields: vec![
            ast::Field {
                name: "x".to_string(),
                kind: kind_named("integer"),
                mutable: false,
                caption: false,
                body: false,
                value: None,
                line_number: 2,
            },
            ast::Field {
                name: "y".to_string(),
                kind: kind_named("integer"),
                mutable: false,
                caption: false,
                body: false,
                value: Some(written("7", 3)),
                line_number: 3,
            },
        ],
        line_number: 1,
    });
    let names = aliases();
    let mut doc = TDoc::new_state("foo", &names, session());
    assert!(doc.interpret(&record).is_ok());
    let origin = ast::AST::VariableDefinition(ast::VariableDefinition {
        name: "origin".to_string(),
        kind: kind_named("point"),
        mutable: false,
        value: ast::VariableValue::Record {
            name: "point".to_string(),
            fields: vec![("x".to_string(), written("0", 5))],
            line_number: 4,
        },
        line_number: 4,
    });
    assert!(doc.interpret(&origin).is_ok());
    assert_eq!(doc.get_value(1, "origin.x").unwrap(), Value::Integer { value: 0 });
    assert_eq!(doc.get_value(1, "origin.y").unwrap(), Value::Integer { value: 7 });
    let bad = ast::AST::VariableDefinition(ast::VariableDefinition {
        name: "nowhere".to_string(),
        kind: kind_named("point"),
        mutable: false,
        value: ast::VariableValue::Record {
            name: "point".to_string(),
            fields: vec![],
            line_number: 6,
        },
        line_number: 6,
    });
    assert_eq!(doc.interpret(&bad).unwrap_err().kind, ErrorKind::FieldNotFound);
    assert!(!doc.bag().contains_key("foo#nowhere"));
}
