use ftd::error::{Error, ErrorKind};
use ftd::executor;
use ftd::json::Json;
use ftd::kind::{Kind, KindData};
use ftd::library::{ExampleLibrary, VariableFlags};
use ftd::names::{
    get_doc_name_and_remaining, get_doc_name_and_thing_name_and_remaining, get_function_name,
    resolve_name, split_at, Aliases,
};
use ftd::tdoc::TDoc;
use ftd::thing::{Bag, Field, Record, Thing, Variable};
use ftd::value::{
    Expression, ExpressionNode, Property, PropertySource, PropertyValue, PropertyValueSource,
    Value,
};
use ftd::vec_map::VecMap;

fn lit(value: Value) -> PropertyValue {
    PropertyValue::Value { value, is_mutable: false, line_number: 1 }
}

fn property(value: Value, source: PropertySource, line_number: usize) -> Property {
    Property { value: lit(value), source, condition: None, line_number }
}

fn when(truth: bool, mut p: Property) -> Property {
    p.condition = Some(Expression {
        node: ExpressionNode::Value(lit(Value::Boolean { value: truth })),
        line_number: p.line_number,
    });
    p
}

fn arguments() -> Vec<Field> {
    vec![
        Field::new("title", KindData::new(Kind::string()).caption(), false, None, 1),
        Field::new("count", KindData::new(Kind::integer().into_optional()), false, None, 1),
        Field::new(
            "open",
            KindData::new(Kind::boolean()),
            false,
            Some(lit(Value::Boolean { value: true })),
            9,
        ),
        Field::new("ratio", KindData::new(Kind::decimal().into_optional()), false, None, 1),
        Field::new("at", KindData::new(Kind::record("foo#point").into_optional()), false, None, 1),
        Field::new("unit", KindData::new(Kind::or_type("foo#length").into_optional()), false, None, 1),
    ]
}

#[test]
fn kinds_unify_through_optional() {
    let s = Kind::string();
    assert!(s.is_same_as(&Kind::string().into_optional()));
    assert!(Kind::string().into_optional().is_same_as(&s));
    assert!(Kind::string().into_list().is_same_as(&Kind::string().into_optional().into_list()));
    assert!(!s.is_same_as(&Kind::integer()));
    assert!(!s.is_same_as(&Kind::string().into_list()));
    assert!(Kind::ui().is_same_as(&Kind::ui_with_name("foo#card")));
    assert!(Kind::or_type("a").is_same_as(&Kind::or_type_with_variant("a", "a.b")));
    assert!(!Kind::or_type("a").is_same_as(&Kind::or_type("b")));
    assert!(!Kind::record("a").is_same_as(&Kind::record("b")));
    assert!(!s.is_equal(&Kind::string().into_optional()));
    assert!(Kind::record("a").into_list().is_equal(&Kind::record("a").into_list()));
    assert_eq!(Kind::string().into_optional().inner(), Kind::string());
    assert_eq!(Kind::string().inner(), Kind::string());
    assert_eq!(Kind::string().into_list().inner_list(), Kind::string());
    assert_eq!(Kind::record("a").into_optional().get_record_name(), Some("a".to_string()));
    assert_eq!(Kind::integer().get_record_name(), None);
    assert!(Kind::subsection_ui().into_list().inner_list().is_subsection_ui());
    assert_eq!(Kind::object().into_kind_data(), KindData::new(Kind::object()));
    assert!(KindData::new(Kind::void()).body().is_body());
}

#[test]
fn value_knows_its_kind_and_contents() {
    let unset = Value::Optional { data: Box::new(None), kind: KindData::new(Kind::integer()) };
    assert_eq!(unset.kind(), Kind::integer().into_optional());
    assert_eq!(unset.inner(), None);
    assert!(unset.is_null());
    let set = Value::Optional {
        data: Box::new(Some(Value::Integer { value: 3 })),
        kind: KindData::new(Kind::integer()),
    };
    assert_eq!(set.inner(), Some(Value::Integer { value: 3 }));
    let one = Value::Integer { value: 1 };
    assert_eq!(one.inner(), Some(Value::Integer { value: 1 }));
    assert_eq!(one.integer("foo", 1), Ok(1));
    assert_eq!(one.string("foo", 2).unwrap_err().kind, ErrorKind::TypeMismatch);
    assert_eq!(one.bool("foo", 2).unwrap_err().line_number, 2);
    let record = Value::Record { name: "foo#point".to_string(), fields: vec![] };
    assert!(record.is_record("foo#point"));
    assert!(!record.is_record("foo#line"));
    assert_eq!(record.kind(), Kind::record("foo#point"));
    let variant = Value::OrType {
        name: "foo#length".to_string(),
        variant: "foo#length.px".to_string(),
        full_variant: "foo#length.px".to_string(),
        value: Box::new(lit(Value::Integer { value: 2 })),
    };
    assert!(variant.is_or_type_variant("foo#length.px"));
    assert_eq!(variant.kind(), Kind::or_type_with_variant("foo#length", "foo#length.px"));
    let pv = one.into_property_value(true, 7);
    assert!(pv.is_mutable() && pv.is_value());
    assert_eq!(pv.line_number(), 7);
    assert_eq!(pv.reference_name(), None);
    assert_eq!(pv.value("foo", 1), Ok(Value::Integer { value: 1 }));
    let link = PropertyValue::Reference {
        name: "foo#a".to_string(),
        kind: KindData::new(Kind::string()),
        source: PropertyValueSource::Global,
        is_mutable: false,
        line_number: 2,
    };
    assert_eq!(link.reference_name(), Some("foo#a".to_string()));
    assert_eq!(link.kind(), Kind::string());
    assert_eq!(link.value("foo", 1).unwrap_err().kind, ErrorKind::TypeMismatch);
    assert!(link.get_function().is_none());
}

#[test]
fn names_are_taken_apart() {
    let aliases: Aliases = vec![("t".to_string(), "lib/t".to_string())];
    assert_eq!(resolve_name("x", "foo", &aliases), "foo#x");
    assert_eq!(resolve_name("t.x", "foo", &aliases), "lib/t#x");
    assert_eq!(resolve_name("t.x.y", "foo", &aliases), "lib/t#x.y");
    assert_eq!(resolve_name("u.x.y", "foo", &aliases), "foo#u.x.y");
    assert_eq!(resolve_name("a#b.c", "foo", &aliases), "a#b.c");
    assert_eq!(split_at("a . b.c", "."), ("a".to_string(), Some("b.c".to_string())));
    assert_eq!(split_at("abc", "."), ("abc".to_string(), None));
    assert_eq!(
        get_doc_name_and_remaining("foo#a.b.c"),
        ("foo#a".to_string(), Some("b.c".to_string()))
    );
    assert_eq!(get_doc_name_and_remaining("a.b"), ("a".to_string(), Some("b".to_string())));
    assert_eq!(get_doc_name_and_remaining("foo.x#a"), ("foo.x#a".to_string(), None));
    assert_eq!(
        get_doc_name_and_thing_name_and_remaining("foo#a.b", "bar"),
        ("foo".to_string(), "a".to_string(), Some("b".to_string()))
    );
    assert_eq!(
        get_doc_name_and_thing_name_and_remaining("a", "bar"),
        ("bar".to_string(), "a".to_string(), None)
    );
    assert_eq!(get_function_name("f(a, b)"), Some("f".to_string()));
    assert_eq!(get_function_name("f)("), None);
    assert_eq!(get_function_name("f"), None);
    let bag = Bag::new();
    let doc = TDoc::new("foo", &aliases, &bag);
    assert_eq!(doc.resolve_reference_name("$t.x"), "$lib/t#x");
    assert_eq!(doc.resolve_reference_name("$PARENT.x"), "$PARENT.x");
    assert_eq!(doc.resolve_reference_name("plain"), "plain");
}

#[test]
fn lookup_enters_values() {
    let mut bag = Bag::new();
    bag.insert(
        "foo#point".to_string(),
        Thing::Record(Record::new(
            "foo#point",
            vec![Field::new("x", KindData::new(Kind::integer().into_optional()), false, None, 2)],
            1,
        )),
    );
    let holder = |name: &str, kind: Kind, value: PropertyValue, mutable: bool| {
        Thing::Variable(Variable {
            name: name.to_string(),
            kind: KindData::new(kind),
            mutable,
            value,
            conditional_value: vec![],
            line_number: 1,
            is_static: !mutable,
        })
    };
    bag.insert(
        "foo#list".to_string(),
        holder(
            "foo#list",
            Kind::integer().into_list(),
            lit(Value::List {
                data: vec![lit(Value::Integer { value: 10 }), lit(Value::Integer { value: 11 })],
                kind: KindData::new(Kind::integer()),
            }),
            false,
        ),
    );
    bag.insert(
        "foo#none".to_string(),
        holder(
            "foo#none",
            Kind::record("foo#point").into_optional(),
            lit(Value::Optional {
                data: Box::new(None),
                kind: KindData::new(Kind::record("foo#point")),
            }),
            true,
        ),
    );
    let aliases: Aliases = vec![];
    let doc = TDoc::new("foo", &aliases, &bag);
    match doc.get_thing("list.1", 1).unwrap() {
        Thing::Variable(v) => {
            assert_eq!(v.value, lit(Value::Integer { value: 11 }));
            assert_eq!(v.kind, KindData::new(Kind::integer()));
            assert!(!v.mutable);
        }
        other => panic!("expected a variable, found {:?}", other),
    }
    assert!(matches!(doc.get_thing("list.01", 1).unwrap(), Thing::Variable(v) if v.name == "foo#list"));
    match doc.get_thing("none.x", 4).unwrap() {
        Thing::Variable(v) => {
            assert_eq!(v.kind, KindData::new(Kind::integer().into_optional()));
            assert!(v.mutable);
            assert_eq!(v.line_number, 4);
            assert_eq!(v.value.kind(), Kind::integer().into_optional().into_optional());
        }
        other => panic!("expected a variable, found {:?}", other),
    }
    assert_eq!(doc.get_thing("none.y", 4).unwrap_err().kind, ErrorKind::FieldNotFound);
    assert_eq!(doc.get_thing("point.x", 4).unwrap_err().kind, ErrorKind::TypeMismatch);
    assert_eq!(doc.get_thing("list.0.x", 4).unwrap_err().kind, ErrorKind::TypeMismatch);
}

#[test]
fn arguments_take_values_from_properties() {
    let bag = Bag::new();
    let aliases: Aliases = vec![];
    let doc = TDoc::new("foo", &aliases, &bag);
    let args = arguments();
    let properties = vec![
        property(Value::String { text: "Hi".to_string() }, PropertySource::Caption, 2),
        when(false, property(Value::Integer { value: 1 }, PropertySource::header("count"), 3)),
        when(true, property(Value::Integer { value: 2 }, PropertySource::header("count"), 4)),
        when(true, property(Value::Integer { value: 3 }, PropertySource::header("count"), 5)),
        property(Value::Decimal { bits: 1.5f64.to_bits() }, PropertySource::header("ratio"), 6),
    ];
    let title = executor::string("title", &properties, &args, &doc, 1).unwrap();
    assert_eq!(title.value, "Hi");
    assert_eq!(title.line_number, Some(2));
    assert_eq!(title.properties.len(), 1);
    let count = executor::optional_i64("count", &properties, &args, &doc, 1).unwrap();
    assert_eq!(count.value, Some(2));
    assert_eq!(count.line_number, Some(4));
    assert_eq!(count.properties.len(), 3);
    assert_eq!(executor::i64("count", &properties, &args, &doc, 1).unwrap().value, 2);
    let open = executor::bool("open", &properties, &args, &doc, 1).unwrap();
    assert!(open.value);
    assert_eq!(open.line_number, Some(9));
    assert_eq!(executor::bool_with_default("open", &properties, &args, false, &doc, 1).unwrap().value, true);
    let ratio = executor::optional_decimal("ratio", &properties, &args, &doc, 1).unwrap();
    assert_eq!(ratio.value.map(f64::from_bits), Some(1.5));
    assert_eq!(executor::decimal("ratio", &properties, &args, &doc, 1).unwrap().value, 1.5f64.to_bits());
    assert_eq!(executor::optional_record("at", &properties, &args, &doc, 1, "foo#point").unwrap().value, None);
    assert_eq!(executor::optional_or_type("unit", &properties, &args, &doc, 1, "foo#length").unwrap().value, None);
    assert_eq!(
        executor::optional_string("title", &properties, &args, &doc, 1).unwrap().value,
        Some("Hi".to_string())
    );
    assert_eq!(
        executor::string("count", &properties, &args, &doc, 1).unwrap_err().kind,
        ErrorKind::TypeMismatch
    );
    assert_eq!(
        executor::string("nope", &properties, &args, &doc, 8).unwrap_err(),
        Error::new(ErrorKind::ArgumentNotFound, "nope", "foo", 8)
    );
    let mapped = title.map(|t| t.len());
    assert_eq!(mapped.value, 2);
    assert_eq!(mapped.line_number, Some(2));
}

#[test]
fn properties_are_checked_against_their_argument() {
    let bag = Bag::new();
    let aliases: Aliases = vec![];
    let doc = TDoc::new("foo", &aliases, &bag);
    let args = arguments();
    let none: Vec<Property> = vec![];
    assert_eq!(
        executor::string("title", &none, &args, &doc, 1).unwrap_err().kind,
        ErrorKind::ParseError
    );
    assert_eq!(
        executor::string_with_default("title", &none, &args, "x", &doc, 1).unwrap_err().message,
        "title"
    );
    assert_eq!(executor::optional_i64("count", &none, &args, &doc, 1).unwrap().value, None);
    assert_eq!(executor::optional_bool("open", &none, &args, &doc, 1).unwrap().value, Some(true));
    let twice = vec![
        property(Value::String { text: "a".to_string() }, PropertySource::Caption, 2),
        property(Value::String { text: "b".to_string() }, PropertySource::header("title"), 3),
    ];
    let e = executor::string("title", &twice, &args, &doc, 1).unwrap_err();
    assert_eq!(e.message, "Already found default property");
    let wrong = vec![property(Value::Integer { value: 1 }, PropertySource::Caption, 2)];
    assert_eq!(
        executor::string("title", &wrong, &args, &doc, 1).unwrap_err().kind,
        ErrorKind::InvalidKind
    );
    let sources = args[0].to_sources();
    assert_eq!(sources, vec![PropertySource::header("title"), PropertySource::Caption]);
    assert!(PropertySource::header("a").is_equal(&PropertySource::Header {
        name: "a".to_string(),
        mutable: true
    }));
    assert!(!PropertySource::header("a").is_equal(&PropertySource::header("b")));
    assert!(!PropertySource::Caption.is_equal(&PropertySource::Body));
    assert!(PropertySource::Subsection.is_equal(&PropertySource::Subsection));
    assert_eq!(PropertySource::default(), PropertySource::Caption);
    assert_eq!(Property::get_argument_for_children(&args), None);
}

#[test]
fn record_argument_gives_its_fields() {
    let bag = Bag::new();
    let aliases: Aliases = vec![];
    let doc = TDoc::new("foo", &aliases, &bag);
    let args = arguments();
    let fields = vec![("x".to_string(), lit(Value::Integer { value: 1 }))];
    let properties = vec![
        property(
            Value::Record { name: "foo#point".to_string(), fields: fields.clone() },
            PropertySource::header("at"),
            2,
        ),
        property(
            Value::OrType {
                name: "foo#length".to_string(),
                variant: "px".to_string(),
                full_variant: "foo#length.px".to_string(),
                value: Box::new(lit(Value::Integer { value: 4 })),
            },
            PropertySource::header("unit"),
            3,
        ),
    ];
    assert_eq!(executor::record("at", &properties, &args, &doc, 1, "foo#point").unwrap().value, fields);
    assert_eq!(
        executor::record("at", &properties, &args, &doc, 1, "foo#line").unwrap_err().kind,
        ErrorKind::TypeMismatch
    );
    assert_eq!(
        executor::optional_or_type("unit", &properties, &args, &doc, 1, "foo#length").unwrap().value,
        Some(("px".to_string(), lit(Value::Integer { value: 4 })))
    );
}

#[test]
fn json_is_converted_by_kind() {
    let mut bag = Bag::new();
    bag.insert(
        "foo#person".to_string(),
        Thing::Record(Record::new(
            "foo#person",
            vec![
                Field::new("name", KindData::new(Kind::string()), false, None, 2),
                Field::new("age", KindData::new(Kind::integer().into_optional()), false, None, 3),
            ],
            1,
        )),
    );
    let aliases: Aliases = vec![];
    let doc = TDoc::new("foo", &aliases, &bag);
    let number = |n: i64| Json::Number { integer: Some(n), decimal_bits: (n as f64).to_bits() };
    let text = |s: &str| Json::String(s.to_string());
    assert_eq!(doc.from_json(&text("a"), &Kind::string(), 1), Ok(Value::String { text: "a".to_string() }));
    assert_eq!(doc.from_json(&number(3), &Kind::integer(), 1), Ok(Value::Integer { value: 3 }));
    assert_eq!(
        doc.from_json(&number(3), &Kind::decimal(), 1),
        Ok(Value::Decimal { bits: 3.0f64.to_bits() })
    );
    let half = Json::Number { integer: None, decimal_bits: 0.5f64.to_bits() };
    assert_eq!(doc.from_json(&half, &Kind::integer(), 4).unwrap_err().kind, ErrorKind::ParseError);
    assert_eq!(doc.from_json(&Json::Bool(true), &Kind::boolean(), 1), Ok(Value::Boolean { value: true }));
    assert_eq!(doc.from_json(&text("a"), &Kind::boolean(), 1).unwrap_err().kind, ErrorKind::ParseError);
    assert_eq!(doc.from_json(&text("a"), &Kind::ui(), 1).unwrap_err().kind, ErrorKind::InvalidKind);
    assert_eq!(
        doc.from_json(&Json::Null, &Kind::integer().into_optional(), 1),
        Ok(Value::Optional { data: Box::new(None), kind: KindData::new(Kind::integer()) })
    );
    assert_eq!(
        doc.from_json(&number(1), &Kind::integer().into_optional(), 1),
        Ok(Value::Integer { value: 1 })
    );
    let ann = Json::Object(vec![
        ("age".to_string(), Json::Null),
        ("name".to_string(), text("Ann")),
    ]);
    let expected = Value::Record {
        name: "foo#person".to_string(),
        fields: vec![
            (
                "name".to_string(),
                PropertyValue::Value {
                    value: Value::String { text: "Ann".to_string() },
                    is_mutable: false,
                    line_number: 6,
                },
            ),
            (
                "age".to_string(),
                PropertyValue::Value {
                    value: Value::Optional {
                        data: Box::new(None),
                        kind: KindData::new(Kind::integer()),
                    },
                    is_mutable: false,
                    line_number: 6,
                },
            ),
        ],
    };
    assert_eq!(doc.from_json(&ann, &Kind::record("foo#person"), 6), Ok(expected.clone()));
    let list = Json::Array(vec![number(1), number(2)]);
    match doc.from_json(&list, &Kind::integer().into_list(), 1).unwrap() {
        Value::List { data, kind } => {
            assert_eq!(data.len(), 2);
            assert_eq!(kind, KindData::new(Kind::integer()));
        }
        other => panic!("expected a list, found {:?}", other),
    }
    assert_eq!(
        doc.from_json(&Json::Object(vec![]), &Kind::record("foo#person"), 1).unwrap_err().kind,
        ErrorKind::FieldNotFound
    );
    assert_eq!(
        doc.from_json(&list, &Kind::record("foo#person"), 1).unwrap_err().kind,
        ErrorKind::ParseError
    );
    assert_eq!(
        doc.from_json(&list, &Kind::record("foo#nobody"), 1).unwrap_err().kind,
        ErrorKind::ValueNotFound
    );
    assert_eq!(doc.from_json_row(&vec![text("Ann"), Json::Null], &Kind::record("foo#person"), 6), Ok(expected));
    assert_eq!(
        doc.from_json_row(&vec![text("Ann")], &Kind::record("foo#person"), 6).unwrap_err().kind,
        ErrorKind::FieldNotFound
    );
    assert_eq!(doc.from_json_row(&vec![number(5)], &Kind::integer(), 1), Ok(Value::Integer { value: 5 }));
    assert_eq!(doc.from_json_row(&vec![], &Kind::integer(), 1).unwrap_err().kind, ErrorKind::InvalidKind);
    let rows = vec![vec![text("Ann"), number(30)], vec![text("Bob"), Json::Null]];
    match doc.from_json_rows(&rows, &Kind::record("foo#person").into_list(), 1).unwrap() {
        Value::List { data, kind } => {
            assert_eq!(data.len(), 2);
            assert_eq!(kind, KindData::new(Kind::record("foo#person")));
        }
        other => panic!("expected a list, found {:?}", other),
    }
    assert_eq!(
        doc.from_json_rows(&rows, &Kind::record("foo#person"), 1).unwrap_err().kind,
        ErrorKind::InvalidKind
    );
}

#[test]
fn vec_map_collects_values_by_name() {
    let mut m: VecMap<i32> = VecMap::new();
    m.insert("b.x".to_string(), 1);
    m.insert("a".to_string(), 2);
    m.insert("b.a".to_string(), 3);
    m.insert("b.a".to_string(), 4);
    m.unique_insert("b.a".to_string(), 4);
    m.unique_insert("b.a".to_string(), 5);
    m.unique_insert("c".to_string(), 6);
    m.extend("a".to_string(), vec![7, 8]);
    m.extend("d".to_string(), vec![9]);
    assert_eq!(m.get_value("a"), vec![&2, &7, &8]);
    assert_eq!(m.get_value("b"), vec![&3, &4, &5]);
    assert_eq!(m.get_value("b.x"), vec![&1]);
    assert_eq!(m.get_value("c"), vec![&6]);
    assert_eq!(m.get_value("d"), vec![&9]);
    assert!(m.get_value("e").is_empty());
    assert!(m.get_value("b.").is_empty());
    m.insert("b".to_string(), 0);
    assert_eq!(m.get_value("b"), vec![&0]);
    assert!(ftd::vec_map::text_less("a", "b"));
    assert!(ftd::vec_map::text_less("a", "ab"));
    assert!(!ftd::vec_map::text_less("b", "ab"));
    assert!(!ftd::vec_map::text_less("a", "a"));
}

#[test]
fn example_library_answers() {
    let library = ExampleLibrary {};
    let ids = library.dummy_global_ids_map();
    assert_eq!(ids.len(), 15);
    assert_eq!(ids[0], ("foo".to_string(), "/foo/bar/#foo".to_string()));
    assert!(ids.contains(&("some id".to_string(), "/some/id/#some-id".to_string())));
    assert!(ids.contains(&("X".to_string(), "/some/#X".to_string())));
    assert!(ExampleLibrary::is_lazy_processor("page-headings"));
    assert!(!ExampleLibrary::is_lazy_processor("toc"));
    assert_eq!(library.process("foo", 3).unwrap_err(), Error::new(ErrorKind::ParseError, "unknown processor", "foo", 3));
    assert_eq!(library.get_with_result("a", Some("text".to_string())), Ok("text".to_string()));
    let e = library.get_with_result("a", None).unwrap_err();
    assert_eq!(e.message, "library not found: a");
    assert_eq!(e.to_text(), ": library not found: a");
    assert_eq!(VariableFlags::default(), VariableFlags { always_include: None });
    assert_eq!(VariableFlags::get_flags(None, "foo", 1), Ok(VariableFlags::default()));
    let yes = lit(Value::Boolean { value: true });
    assert_eq!(
        VariableFlags::get_flags(Some(&yes), "foo", 1),
        Ok(VariableFlags { always_include: Some(true) })
    );
    let no = lit(Value::Integer { value: 1 });
    assert_eq!(VariableFlags::get_flags(Some(&no), "foo", 5).unwrap_err().line_number, 5);
}

#[test]
fn string_list_argument_gives_its_texts() {
    let mut bag = Bag::new();
    bag.insert(
        "foo#last".to_string(),
        Thing::Variable(Variable {
            name: "foo#last".to_string(),
            kind: KindData::new(Kind::string()),
            mutable: false,
            value: lit(Value::String { text: "z".to_string() }),
            conditional_value: vec![],
            line_number: 1,
            is_static: true,
        }),
    );
    let aliases: Aliases = vec![];
    let doc = TDoc::new("foo", &aliases, &bag);
    let args = vec![Field::new("tags", KindData::new(Kind::string().into_list()), false, None, 1)];
    let last = PropertyValue::Reference {
        name: "foo#last".to_string(),
        kind: KindData::new(Kind::string()),
        source: PropertyValueSource::Global,
        is_mutable: false,
        line_number: 1,
    };
    let list = |data: Vec<PropertyValue>, kind: Kind| {
        vec![property(
            Value::List { data, kind: KindData::new(kind) },
            PropertySource::header("tags"),
            2,
        )]
    };
    let tags = list(vec![lit(Value::String { text: "a".to_string() }), last], Kind::string());
    let found = executor::string_list("tags", &tags, &args, &doc, 1).unwrap();
    assert_eq!(found.value, vec!["a".to_string(), "z".to_string()]);
    assert_eq!(found.line_number, Some(2));
    let none: Vec<Property> = vec![];
    assert!(executor::string_list("tags", &none, &args, &doc, 1).unwrap().value.is_empty());
    let mixed = list(vec![lit(Value::Integer { value: 1 })], Kind::string());
    assert_eq!(
        executor::string_list("tags", &mixed, &args, &doc, 1).unwrap_err().kind,
        ErrorKind::TypeMismatch
    );
    let numbers = list(vec![lit(Value::Integer { value: 1 })], Kind::integer());
    assert_eq!(
        executor::string_list("tags", &numbers, &args, &doc, 1).unwrap_err().kind,
        ErrorKind::InvalidKind
    );
}
