use ftd::error::ErrorKind;
use ftd::kind::{Kind, KindData};
use ftd::names::Aliases;
use ftd::tdoc::TDoc;
use ftd::thing::{Bag, ConditionalValue, ComponentDefinition, Thing, Variable};
use ftd::value::{
    Component, Expression, ExpressionNode, PropertyValue, PropertyValueSource, Value,
};

fn integer_literal(n: i64) -> PropertyValue {
    PropertyValue::Value { value: Value::Integer { value: n }, is_mutable: false, line_number: 1 }
}

fn truth(b: bool) -> PropertyValue {
    PropertyValue::Value { value: Value::Boolean { value: b }, is_mutable: false, line_number: 1 }
}

fn reference(name: &str, kind: Kind) -> PropertyValue {
    PropertyValue::Reference {
        name: name.to_string(),
        kind: KindData::new(kind),
        source: PropertyValueSource::Global,
        is_mutable: false,
        line_number: 1,
    }
}

fn copy_of(name: &str, kind: Kind) -> PropertyValue {
    PropertyValue::Clone {
        name: name.to_string(),
        kind: KindData::new(kind),
        source: PropertyValueSource::Global,
        is_mutable: false,
        line_number: 1,
    }
}

fn variable(name: &str, kind: Kind, value: PropertyValue, mutable: bool) -> Thing {
    Thing::Variable(Variable {
        name: name.to_string(),
        kind: KindData::new(kind),
        mutable,
        value,
        conditional_value: vec![],
        line_number: 1,
        is_static: !mutable,
    })
}

fn point(x: i64, y: i64) -> PropertyValue {
    PropertyValue::Value {
        value: Value::Record {
            name: "foo#point".to_string(),
            fields: vec![("x".to_string(), integer_literal(x)), ("y".to_string(), integer_literal(y))],
        },
        is_mutable: false,
        line_number: 1,
    }
}

fn condition(node: ExpressionNode) -> Expression {
    Expression { node, line_number: 7 }
}

#[test]
fn reference_to_record_field_resolves() {
    let mut bag = Bag::new();
    bag.insert(
        "foo#origin".to_string(),
        variable("foo#origin", Kind::record("foo#point"), point(0, 0), false),
    );
    let aliases: Aliases = vec![];
    let doc = TDoc::new("foo", &aliases, &bag);
    let r = reference("$origin.x", Kind::integer()).resolve(&doc, 3).unwrap();
    assert_eq!(r, Value::Integer { value: 0 });
    let whole = doc.resolve("origin", &KindData::new(Kind::record("foo#point")), 3).unwrap();
    assert_eq!(whole.kind(), Kind::record("foo#point"));
}

#[test]
fn resolution_is_idempotent() {
    let mut bag = Bag::new();
    bag.insert("foo#a".to_string(), variable("foo#a", Kind::integer(), integer_literal(41), false));
    bag.insert(
        "foo#b".to_string(),
        variable("foo#b", Kind::integer(), reference("foo#a", Kind::integer()), false),
    );
    let aliases: Aliases = vec![];
    let doc = TDoc::new("foo", &aliases, &bag);
    let pv = reference("foo#b", Kind::integer());
    let first = pv.clone().resolve(&doc, 1).unwrap();
    let second = pv.resolve(&doc, 1).unwrap();
    assert_eq!(first, second);
    assert_eq!(first, Value::Integer { value: 41 });
}

#[test]
fn literal_resolves_to_itself() {
    let bag = Bag::new();
    let aliases: Aliases = vec![];
    let doc = TDoc::new("foo", &aliases, &bag);
    assert_eq!(integer_literal(5).resolve(&doc, 1).unwrap(), Value::Integer { value: 5 });
}

#[test]
fn alias_is_replaced_by_document() {
    let mut bag = Bag::new();
    bag.insert("lib/theme#size".to_string(), variable("lib/theme#size", Kind::integer(), integer_literal(12), false));
    let aliases: Aliases = vec![("theme".to_string(), "lib/theme".to_string())];
    let doc = TDoc::new("foo", &aliases, &bag);
    assert_eq!(doc.resolve_name("theme.size"), "lib/theme#size");
    assert_eq!(doc.resolve_name("size"), "foo#size");
    assert_eq!(doc.resolve_name("a#b"), "a#b");
    assert!(doc.eq("theme.size", "lib/theme#size"));
    let r = reference("$theme.size", Kind::integer()).resolve(&doc, 1).unwrap();
    assert_eq!(r, Value::Integer { value: 12 });
}

#[test]
fn first_true_condition_wins() {
    let mut bag = Bag::new();
    let mut v = Variable {
        name: "foo#v".to_string(),
        kind: KindData::new(Kind::integer()),
        mutable: false,
        value: integer_literal(0),
        conditional_value: vec![
            ConditionalValue {
                condition: condition(ExpressionNode::Value(truth(true))),
                value: integer_literal(1),
                line_number: 2,
            },
            ConditionalValue {
                condition: condition(ExpressionNode::Value(truth(true))),
                value: integer_literal(2),
                line_number: 3,
            },
        ],
        line_number: 1,
        is_static: true,
    };
    bag.insert("foo#v".to_string(), Thing::Variable(v.clone()));
    let aliases: Aliases = vec![];
    {
        let doc = TDoc::new("foo", &aliases, &bag);
        let r = reference("foo#v", Kind::integer()).resolve(&doc, 1).unwrap();
        assert_eq!(r, Value::Integer { value: 1 });
    }
    v.conditional_value[0].condition = condition(ExpressionNode::Value(truth(false)));
    bag.insert("foo#v".to_string(), Thing::Variable(v.clone()));
    {
        let doc = TDoc::new("foo", &aliases, &bag);
        let r = reference("foo#v", Kind::integer()).resolve(&doc, 1).unwrap();
        assert_eq!(r, Value::Integer { value: 2 });
    }
    v.conditional_value[1].condition = condition(ExpressionNode::Not(Box::new(
        ExpressionNode::Value(truth(true)),
    )));
    bag.insert("foo#v".to_string(), Thing::Variable(v));
    let doc = TDoc::new("foo", &aliases, &bag);
    let r = reference("foo#v", Kind::integer()).resolve(&doc, 1).unwrap();
    assert_eq!(r, Value::Integer { value: 0 });
}

#[test]
fn conditions_read_variables() {
    let mut bag = Bag::new();
    bag.insert("foo#on".to_string(), variable("foo#on", Kind::boolean(), truth(true), false));
    bag.insert("foo#off".to_string(), variable("foo#off", Kind::boolean(), truth(false), false));
    let aliases: Aliases = vec![];
    let doc = TDoc::new("foo", &aliases, &bag);
    let on = || Box::new(ExpressionNode::Value(reference("foo#on", Kind::boolean())));
    let off = || Box::new(ExpressionNode::Value(reference("foo#off", Kind::boolean())));
    assert_eq!(condition(ExpressionNode::And(on(), off())).eval(&doc), Ok(false));
    assert_eq!(condition(ExpressionNode::Or(off(), on())).eval(&doc), Ok(true));
    assert_eq!(condition(ExpressionNode::Not(off())).eval(&doc), Ok(true));
    let e = condition(ExpressionNode::Value(integer_literal(1))).eval(&doc).unwrap_err();
    assert_eq!(e.kind, ErrorKind::TypeMismatch);
    assert_eq!(e.line_number, 7);
    let e = condition(ExpressionNode::Argument("x".to_string())).eval(&doc).unwrap_err();
    assert_eq!(e.kind, ErrorKind::ArgumentNotFound);
}

#[test]
fn cyclic_references_fail_with_not_found() {
    let mut bag = Bag::new();
    bag.insert(
        "a#x".to_string(),
        variable("a#x", Kind::integer(), reference("b#y", Kind::integer()), false),
    );
    bag.insert(
        "b#y".to_string(),
        variable("b#y", Kind::integer(), reference("a#x", Kind::integer()), false),
    );
    let aliases: Aliases = vec![];
    let doc = TDoc::new("a", &aliases, &bag);
    let e = reference("a#x", Kind::integer()).resolve(&doc, 9).unwrap_err();
    assert_eq!(e.kind, ErrorKind::ValueNotFound);
    assert_eq!(e.doc_id, "a");
    assert_eq!(e.line_number, 9);
}

#[test]
fn missing_name_is_not_found() {
    let bag = Bag::new();
    let aliases: Aliases = vec![];
    let doc = TDoc::new("foo", &aliases, &bag);
    let e = reference("$nothing", Kind::integer()).resolve(&doc, 4).unwrap_err();
    assert_eq!(e.kind, ErrorKind::ValueNotFound);
    assert_eq!(e.line_number, 4);
    let e = doc.get_initial_thing("nothing", 4).unwrap_err();
    assert_eq!(e.kind, ErrorKind::ValueNotFound);
    assert_eq!(e.message, "foo#nothing");
}

#[test]
fn paths_enter_lists_and_records() {
    let mut bag = Bag::new();
    let list = PropertyValue::Value {
        value: Value::List {
            data: vec![point(1, 2), point(3, 4)],
            kind: KindData::new(Kind::record("foo#point")),
        },
        is_mutable: false,
        line_number: 1,
    };
    bag.insert(
        "foo#points".to_string(),
        variable("foo#points", Kind::record("foo#point").into_list(), list, false),
    );
    bag.insert("foo#n".to_string(), variable("foo#n", Kind::integer(), integer_literal(3), false));
    let aliases: Aliases = vec![];
    let doc = TDoc::new("foo", &aliases, &bag);
    let k = KindData::new(Kind::integer());
    assert_eq!(doc.resolve("points.1.y", &k, 1).unwrap(), Value::Integer { value: 4 });
    assert_eq!(doc.resolve("points.2.y", &k, 1).unwrap_err().kind, ErrorKind::IndexOutOfRange);
    assert_eq!(doc.resolve("points.one.y", &k, 1).unwrap_err().kind, ErrorKind::ParseIntError);
    assert_eq!(doc.resolve("points.0.z", &k, 1).unwrap_err().kind, ErrorKind::FieldNotFound);
    assert_eq!(doc.resolve("n.x", &k, 1).unwrap_err().kind, ErrorKind::TypeMismatch);
}

#[test]
fn component_name_resolves_to_ui_value() {
    let mut bag = Bag::new();
    let definition = ComponentDefinition::new("foo#card", vec![], Component::from_name("ftd#row"), 5);
    bag.insert("foo#card".to_string(), Thing::Component(definition));
    let aliases: Aliases = vec![];
    let doc = TDoc::new("foo", &aliases, &bag);
    let kind = KindData::new(Kind::ui());
    match doc.resolve("card", &kind, 1).unwrap() {
        Value::UI { name, component, .. } => {
            assert_eq!(name, "foo#card");
            assert_eq!(component.name, "ftd#row");
        }
        other => panic!("expected a UI value, found {:?}", other),
    }
}

#[test]
fn copy_reads_current_value() {
    let mut bag = Bag::new();
    bag.insert("foo#a".to_string(), variable("foo#a", Kind::integer(), integer_literal(1), true));
    let aliases: Aliases = vec![];
    let materialized = {
        let doc = TDoc::new("foo", &aliases, &bag);
        copy_of("foo#a", Kind::integer()).resolve(&doc, 1).unwrap()
    };
    let changed = {
        let doc = TDoc::new("foo", &aliases, &bag);
        doc.set_value("a", integer_literal(2), 1).unwrap()
    };
    bag.insert("foo#a".to_string(), Thing::Variable(changed));
    let doc = TDoc::new("foo", &aliases, &bag);
    assert_eq!(materialized, Value::Integer { value: 1 });
    assert_eq!(
        reference("foo#a", Kind::integer()).resolve(&doc, 1).unwrap(),
        Value::Integer { value: 2 }
    );
    assert_eq!(
        copy_of("foo#a", Kind::integer()).resolve(&doc, 1).unwrap(),
        Value::Integer { value: 2 }
    );
}
