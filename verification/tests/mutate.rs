use ftd::error::ErrorKind;
use ftd::kind::{Kind, KindData};
use ftd::names::Aliases;
use ftd::tdoc::TDoc;
use ftd::thing::{Bag, Thing, Variable};
use ftd::value::{PropertyValue, PropertyValueSource, Value};

fn lit(value: Value) -> PropertyValue {
    PropertyValue::Value { value, is_mutable: true, line_number: 1 }
}

fn num(n: i64) -> PropertyValue {
    lit(Value::Integer { value: n })
}

fn link(name: &str, kind: Kind) -> PropertyValue {
    PropertyValue::Reference {
        name: name.to_string(),
        kind: KindData::new(kind),
        source: PropertyValueSource::Global,
        is_mutable: true,
        line_number: 1,
    }
}

fn var(name: &str, kind: Kind, value: PropertyValue, mutable: bool) -> Thing {
    Thing::Variable(Variable {
        name: name.to_string(),
        kind: KindData::new(kind),
        mutable,
        value,
        conditional_value: vec![],
        line_number: 1,
        is_static: !mutable,
    })
}

fn pair(x: PropertyValue, y: PropertyValue) -> PropertyValue {
    lit(Value::Record {
        name: "foo#point".to_string(),
        fields: vec![("x".to_string(), x), ("y".to_string(), y)],
    })
}

#[test]
fn counter_is_set_and_seen_through_reference() {
    let mut bag = Bag::new();
    bag.insert("foo#counter".to_string(), var("foo#counter", Kind::integer(), num(0), true));
    let aliases: Aliases = vec![];
    let changed = {
        let doc = TDoc::new("foo", &aliases, &bag);
        doc.set_value("counter", num(5), 1).unwrap()
    };
    assert_eq!(changed.name, "foo#counter");
    assert_eq!(changed.value, num(5));
    bag.insert(changed.name.clone(), Thing::Variable(changed));
    let doc = TDoc::new("foo", &aliases, &bag);
    assert_eq!(
        link("$counter", Kind::integer()).resolve(&doc, 1).unwrap(),
        Value::Integer { value: 5 }
    );
    assert_eq!(doc.get_value(1, "counter").unwrap(), Value::Integer { value: 5 });
}

#[test]
fn immutable_variable_is_not_set() {
    let mut bag = Bag::new();
    bag.insert("foo#k".to_string(), var("foo#k", Kind::integer(), num(0), false));
    let aliases: Aliases = vec![];
    let doc = TDoc::new("foo", &aliases, &bag);
    let e = doc.set_value("k", num(5), 8).unwrap_err();
    assert_eq!(e.kind, ErrorKind::NotMutable);
    assert_eq!(e.message, "foo#k");
    assert_eq!(e.line_number, 8);
}

#[test]
fn other_kind_is_not_set() {
    let mut bag = Bag::new();
    bag.insert("foo#k".to_string(), var("foo#k", Kind::integer(), num(0), true));
    let aliases: Aliases = vec![];
    let doc = TDoc::new("foo", &aliases, &bag);
    let e = doc.set_value("k", lit(Value::Boolean { value: true }), 8).unwrap_err();
    assert_eq!(e.kind, ErrorKind::InvalidKind);
}

#[test]
fn optional_slot_takes_inner_kind() {
    let mut bag = Bag::new();
    let unset = lit(Value::Optional { data: Box::new(None), kind: KindData::new(Kind::integer()) });
    bag.insert("foo#age".to_string(), var("foo#age", Kind::integer().into_optional(), unset, true));
    let aliases: Aliases = vec![];
    let doc = TDoc::new("foo", &aliases, &bag);
    let changed = doc.set_value("age", num(40), 1).unwrap();
    assert_eq!(changed.value, num(40));
}

#[test]
fn field_of_record_is_set() {
    let mut bag = Bag::new();
    bag.insert(
        "foo#p".to_string(),
        var("foo#p", Kind::record("foo#point"), pair(num(1), num(2)), true),
    );
    let aliases: Aliases = vec![];
    let doc = TDoc::new("foo", &aliases, &bag);
    let changed = doc.set_value("p.y", num(9), 1).unwrap();
    assert_eq!(changed.value, pair(num(1), num(9)));
    let e = doc.set_value("p.z", num(9), 1).unwrap_err();
    assert_eq!(e.kind, ErrorKind::FieldNotFound);
    let e = doc.set_value("p.x.deep", num(9), 1).unwrap_err();
    assert_eq!(e.kind, ErrorKind::TypeMismatch);
}

#[test]
fn chain_of_references_is_followed_to_the_holder() {
    let mut bag = Bag::new();
    bag.insert("foo#a".to_string(), var("foo#a", Kind::integer(), num(1), true));
    bag.insert(
        "foo#b".to_string(),
        var("foo#b", Kind::integer(), link("foo#a", Kind::integer()), true),
    );
    bag.insert(
        "foo#c".to_string(),
        var("foo#c", Kind::integer(), link("foo#b", Kind::integer()), true),
    );
    let aliases: Aliases = vec![];
    let doc = TDoc::new("foo", &aliases, &bag);
    let changed = doc.set_value("c", num(7), 1).unwrap();
    assert_eq!(changed.name, "foo#a");
    assert_eq!(changed.value, num(7));
}

#[test]
fn copy_ends_the_chain() {
    let mut bag = Bag::new();
    bag.insert("foo#a".to_string(), var("foo#a", Kind::integer(), num(1), true));
    let copy = PropertyValue::Clone {
        name: "foo#a".to_string(),
        kind: KindData::new(Kind::integer()),
        source: PropertyValueSource::Global,
        is_mutable: true,
        line_number: 1,
    };
    bag.insert("foo#b".to_string(), var("foo#b", Kind::integer(), copy, true));
    let aliases: Aliases = vec![];
    let changed = {
        let doc = TDoc::new("foo", &aliases, &bag);
        doc.set_value("b", num(7), 1).unwrap()
    };
    assert_eq!(changed.name, "foo#b");
    assert_eq!(changed.value, num(7));
    bag.insert("foo#b".to_string(), Thing::Variable(changed));
    let doc = TDoc::new("foo", &aliases, &bag);
    assert_eq!(doc.get_value(1, "a").unwrap(), Value::Integer { value: 1 });
    assert_eq!(doc.get_value(1, "b").unwrap(), Value::Integer { value: 7 });
}

#[test]
fn reference_inside_record_leads_to_its_variable() {
    let mut bag = Bag::new();
    bag.insert("foo#w".to_string(), var("foo#w", Kind::integer(), num(1), true));
    bag.insert(
        "foo#p".to_string(),
        var(
            "foo#p",
            Kind::record("foo#point"),
            pair(link("foo#w", Kind::integer()), num(2)),
            true,
        ),
    );
    let aliases: Aliases = vec![];
    let doc = TDoc::new("foo", &aliases, &bag);
    let changed = doc.set_value("p.x", num(8), 1).unwrap();
    assert_eq!(changed.name, "foo#w");
    assert_eq!(changed.value, num(8));
}

#[test]
fn reference_with_path_is_materialized() {
    let mut bag = Bag::new();
    bag.insert(
        "foo#p".to_string(),
        var("foo#p", Kind::record("foo#point"), pair(num(1), num(2)), true),
    );
    let copy = PropertyValue::Clone {
        name: "foo#p".to_string(),
        kind: KindData::new(Kind::record("foo#point")),
        source: PropertyValueSource::Global,
        is_mutable: true,
        line_number: 1,
    };
    bag.insert("foo#q".to_string(), var("foo#q", Kind::record("foo#point"), copy, true));
    let aliases: Aliases = vec![];
    let doc = TDoc::new("foo", &aliases, &bag);
    let changed = doc.set_value("q.x", num(5), 3).unwrap();
    assert_eq!(changed.name, "foo#q");
    match changed.value {
        PropertyValue::Value { value: Value::Record { fields, .. }, line_number, .. } => {
            assert_eq!(line_number, 3);
            assert_eq!(fields[0].1, num(5));
            assert_eq!(fields[1].1, num(2));
        }
        other => panic!("expected a record literal, found {:?}", other),
    }
    assert_eq!(doc.get_value(1, "p.x").unwrap(), Value::Integer { value: 1 });
}
