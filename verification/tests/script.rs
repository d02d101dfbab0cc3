use ftd::dependencies::{
    dependencies_from_property_value, is_dark_mode_dependent, is_device_dependent,
};
use ftd::kind::{Kind, KindData};
use ftd::names::Aliases;
use ftd::script::{events_to_string, join_texts, js_expression_from_list};
use ftd::tdoc::TDoc;
use ftd::thing::Bag;
use ftd::value::{FunctionCall, PropertyValue, PropertyValueSource, Value};

fn lit(value: Value) -> PropertyValue {
    PropertyValue::Value { value, is_mutable: false, line_number: 1 }
}

fn link(name: &str) -> PropertyValue {
    PropertyValue::Reference {
        name: name.to_string(),
        kind: KindData::new(Kind::integer()),
        source: PropertyValueSource::Global,
        is_mutable: false,
        line_number: 1,
    }
}

fn variant(name: &str, variant: &str, value: PropertyValue) -> Value {
    Value::OrType {
        name: name.to_string(),
        variant: variant.to_string(),
        full_variant: variant.to_string(),
        value: Box::new(value),
    }
}

fn event(id: &str, name: &str, action: &str) -> (String, String, String) {
    (id.to_string(), name.to_string(), action.to_string())
}

#[test]
fn texts_are_joined() {
    let parts = vec!["a".to_string(), "".to_string(), "c".to_string()];
    assert_eq!(join_texts(&parts, ", "), "a, , c");
    assert_eq!(join_texts(&vec!["a".to_string()], ", "), "a");
    assert_eq!(join_texts(&vec![], ", "), "");
}

#[test]
fn conditional_expressions_become_a_chain() {
    let chain = js_expression_from_list(
        vec![
            (Some("a".to_string()), " x ".to_string()),
            (Some("b".to_string()), "y".to_string()),
            (None, "z".to_string()),
        ],
        None,
        "",
    );
    assert_eq!(chain, "if(a){\n    x\n}\n else if(b){\n    y\n}\nelse {z}\n");
    assert_eq!(js_expression_from_list(vec![(None, "z".to_string())], None, "n"), "z\n");
    assert_eq!(
        js_expression_from_list(vec![(Some("a".to_string()), "x".to_string())], Some("k"), "null"),
        "if(a){\n    x\n}\nelse { null }\n"
    );
    assert_eq!(
        js_expression_from_list(vec![(Some("a".to_string()), "x".to_string())], None, "null"),
        "if(a){\n    x\n}\n\n"
    );
    assert_eq!(
        js_expression_from_list(vec![(Some("a".to_string()), "x".to_string())], Some("k"), ""),
        "if(a){\n    x\n}\n\n"
    );
    assert_eq!(js_expression_from_list(vec![], Some("k"), "null"), "\n");
    assert_eq!(
        js_expression_from_list(
            vec![(None, "first".to_string()), (None, "last".to_string())],
            None,
            ""
        ),
        "last\n"
    );
}

#[test]
fn no_events_give_no_script() {
    assert_eq!(events_to_string(vec![]), "");
    assert_eq!(
        events_to_string(vec![event("a", "onclick", "go()")]),
        "document.addEventListener(\"click\", function(event) {});"
    );
}

#[test]
fn click_outside_is_listened_for() {
    let script = events_to_string(vec![event("id1", "onclickoutside", "act()")]);
    assert_eq!(
        script,
        "document.addEventListener(\"click\", function(event) {\nif (document.querySelector(`[data-id=\"id1\"]`).style.display !== \"none\" && !document.querySelector(`[data-id=\"id1\"]`).contains(event.target)) {\n    act()\n}\n});"
    );
}

#[test]
fn keys_are_listened_for() {
    let script = events_to_string(vec![
        event("n", "onglobalkey[ctrl-a]", "go()"),
        event("m", "onglobalkeyseq[up-dash]", "run()"),
    ]);
    let expected = [
        "document.addEventListener(\"click\", function(event) {});",
        "\n\n\n",
        "let global_keys = {};\nlet buffer = [];\nlet lastKeyTime = Date.now();",
        "\n\n\n",
        "document.addEventListener(\"keydown\", function(event) {\n    global_keys[event.key] = true;\n    const currentTime = Date.now();\n    if (currentTime - lastKeyTime > 1000) {{\n        buffer = [];\n    }}\n    lastKeyTime = currentTime;\n    if (event.target.nodeName === \"INPUT\" || event.target.nodeName === \"TEXTAREA\") {\n        return;\n    }          \n    buffer.push(event.key);\n",
        "\n\n",
        "\nif (buffer.join(',').includes(\"ArrowUp,-\")) {\n   run()\n    buffer = [];\n    global_keys[event.key] = false;\n    return;\n}\n",
        "\nif (global_keys[\"Control\"] && global_keys[\"a\"] && buffer.join(',').includes(\"Control,a\")) {\n    go()\n    buffer = [];\n    global_keys[event.key] = false;\n    return;\n}\n",
        "});",
        "\n\n\n",
        "document.addEventListener(\"keyup\", function(event) { global_keys[event.key] = false; })",
    ]
    .concat();
    assert_eq!(script, expected);
}

#[test]
fn dependencies_are_the_names_that_are_referred_to() {
    assert_eq!(dependencies_from_property_value(&link("foo#a")), vec!["foo#a".to_string()]);
    assert!(dependencies_from_property_value(&lit(Value::Integer { value: 1 })).is_empty());
    let call = PropertyValue::FunctionCall(FunctionCall::new(
        "foo#f",
        KindData::new(Kind::integer()),
        false,
        1,
        vec![
            ("a".to_string(), link("foo#x")),
            ("b".to_string(), lit(Value::Integer { value: 1 })),
            ("c".to_string(), link("foo#y")),
        ],
    ));
    assert_eq!(
        dependencies_from_property_value(&call),
        vec!["foo#x".to_string(), "foo#y".to_string()]
    );
    let length = lit(variant("ftd#length", "ftd#length.px", link("foo#w")));
    assert_eq!(dependencies_from_property_value(&length), vec!["foo#w".to_string()]);
    let other = lit(variant("ftd#align", "ftd#align.left", link("foo#w")));
    assert!(dependencies_from_property_value(&other).is_empty());
    let fixed = lit(variant("ftd#resizing", "ftd#resizing.fixed", length.clone()));
    assert_eq!(dependencies_from_property_value(&fixed), vec!["foo#w".to_string()]);
    let hug = lit(variant("ftd#resizing", "ftd#resizing.hug-content", length));
    assert!(dependencies_from_property_value(&hug).is_empty());
    let size = lit(variant("ftd#font-size", "ftd#font-size.px", link("foo#s")));
    let kind = lit(Value::Record {
        name: "ftd#type".to_string(),
        fields: vec![("size".to_string(), size), ("weight".to_string(), link("foo#bold"))],
    });
    let responsive = lit(Value::Record {
        name: "ftd#responsive-type".to_string(),
        fields: vec![("desktop".to_string(), kind.clone()), ("mobile".to_string(), kind)],
    });
    assert_eq!(
        dependencies_from_property_value(&responsive),
        vec!["foo#s".to_string(), "foo#s".to_string()]
    );
}

#[test]
fn colours_depend_on_the_scheme_and_types_on_the_device() {
    let bag = Bag::new();
    let aliases: Aliases = vec![];
    let doc = TDoc::new("foo", &aliases, &bag);
    let record = |name: &str| lit(Value::Record { name: name.to_string(), fields: vec![] });
    assert_eq!(is_dark_mode_dependent(&record("ftd#color"), &doc), Ok(true));
    assert_eq!(is_dark_mode_dependent(&record("ftd#image-src"), &doc), Ok(true));
    assert_eq!(is_dark_mode_dependent(&record("ftd#type"), &doc), Ok(false));
    let solid = lit(variant("ftd#background", "ftd#background.solid", record("ftd#color")));
    assert_eq!(is_dark_mode_dependent(&solid, &doc), Ok(true));
    assert_eq!(is_device_dependent(&solid, &doc), Ok(false));
    assert_eq!(is_device_dependent(&record("ftd#responsive-type"), &doc), Ok(true));
    let responsive = lit(variant("ftd#length", "ftd#length.responsive", record("x")));
    assert_eq!(is_device_dependent(&responsive, &doc), Ok(true));
    assert!(is_device_dependent(&link("foo#missing"), &doc).is_err());
}
