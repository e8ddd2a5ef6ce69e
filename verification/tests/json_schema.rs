use drakkar::json_schema::{JsonNode, JsonTree, validate};

fn leaf(node: JsonNode, text: &str) -> JsonTree {
    JsonTree { node, text: text.to_owned(), items_debug: String::new() }
}

fn s(v: &str) -> JsonTree {
    leaf(JsonNode::Str(v.to_owned()), &format!("\"{v}\""))
}

fn n(t: &str) -> JsonTree {
    leaf(JsonNode::Number(t.to_owned()), t)
}

fn b(v: bool) -> JsonTree {
    leaf(JsonNode::Bool(v), if v { "true" } else { "false" })
}

fn arr(items: Vec<JsonTree>, debug: &str) -> JsonTree {
    let text = format!(
        "[{}]",
        items.iter().map(|t| t.text.clone()).collect::<Vec<_>>().join(",")
    );
    JsonTree { node: JsonNode::Array(items), text, items_debug: debug.to_owned() }
}

fn obj(members: Vec<(&str, JsonTree)>) -> JsonTree {
    let text = format!(
        "{{{}}}",
        members.iter().map(|(k, v)| format!("\"{k}\":{}", v.text)).collect::<Vec<_>>().join(",")
    );
    JsonTree {
        node: JsonNode::Object(members.into_iter().map(|(k, v)| (k.to_owned(), v)).collect()),
        text,
        items_debug: String::new(),
    }
}

const TIERS_DEBUG: &str = "[String(\"fits\"), String(\"tight\")]";

fn report_schema() -> JsonTree {
    obj(vec![
        (
            "properties",
            obj(vec![
                ("count", obj(vec![("type", s("integer"))])),
                ("schema", obj(vec![("const", s("drakkar.fit/1")), ("type", s("string"))])),
                (
                    "tags",
                    obj(vec![
                        ("items", obj(vec![("type", s("string"))])),
                        ("type", s("array")),
                    ]),
                ),
                (
                    "tier",
                    obj(vec![(
                        "enum",
                        arr(vec![s("fits"), s("tight")], TIERS_DEBUG),
                    )]),
                ),
            ]),
        ),
        ("required", arr(vec![s("schema"), s("tier")], "")),
        ("type", s("object")),
    ])
}

#[test]
fn validate_accepts_a_conforming_value_and_extra_fields() {
    let value = obj(vec![
        ("count", n("3")),
        ("extra", b(true)),
        ("schema", s("drakkar.fit/1")),
        ("tags", arr(vec![s("a"), s("b")], "")),
        ("tier", s("fits")),
    ]);
    assert_eq!(validate(&value, &report_schema(), "$"), Ok(()));
}

#[test]
fn validate_names_a_const_violation() {
    let value = obj(vec![("schema", s("drakkar.fit/2")), ("tier", s("fits"))]);
    assert_eq!(
        validate(&value, &report_schema(), "$"),
        Err("$.schema: expected const \"drakkar.fit/1\", got \"drakkar.fit/2\"".to_owned())
    );
}

#[test]
fn validate_names_an_enum_violation_with_the_choices() {
    let value = obj(vec![("schema", s("drakkar.fit/1")), ("tier", s("other"))]);
    assert_eq!(
        validate(&value, &report_schema(), "$"),
        Err(["$.tier: ", &s("other").text, " is not one of ", TIERS_DEBUG].concat())
    );
}

#[test]
fn validate_names_a_missing_required_field() {
    let value = obj(vec![("schema", s("drakkar.fit/1"))]);
    assert_eq!(
        validate(&value, &report_schema(), "$"),
        Err("$: missing required field `tier`".to_owned())
    );
}

#[test]
fn validate_names_the_item_path_of_a_bad_element() {
    let value = obj(vec![
        ("schema", s("drakkar.fit/1")),
        ("tags", arr(vec![s("a"), n("7")], "")),
        ("tier", s("tight")),
    ]);
    assert_eq!(
        validate(&value, &report_schema(), "$"),
        Err("$.tags[1]: expected string, got 7".to_owned())
    );
}

#[test]
fn validate_reports_each_type_mismatch() {
    let ty = |t: &str| obj(vec![("type", s(t))]);
    assert_eq!(validate(&n("1"), &ty("object"), "$"), Err("$: expected object, got 1".to_owned()));
    assert_eq!(validate(&n("1"), &ty("array"), "$"), Err("$: expected array, got 1".to_owned()));
    assert_eq!(validate(&b(true), &ty("integer"), "$"), Err("$: expected integer, got true".to_owned()));
    assert_eq!(validate(&s("x"), &ty("number"), "$"), Err("$: expected number, got \"x\"".to_owned()));
    assert_eq!(validate(&n("1.5"), &ty("boolean"), "$"), Err("$: expected boolean, got 1.5".to_owned()));
    assert_eq!(
        validate(&n("1"), &ty("null"), "$"),
        Err("$: unsupported schema type `null`".to_owned())
    );
    assert_eq!(validate(&n("1.5"), &ty("number"), "$"), Ok(()));
}

#[test]
fn validate_without_a_type_accepts_anything() {
    assert_eq!(validate(&n("1"), &obj(vec![]), "$"), Ok(()));
    assert_eq!(validate(&n("1"), &b(true), "$"), Ok(()));
    // A number differs from the float of the same value.
    let schema = obj(vec![("const", n("1"))]);
    assert_eq!(validate(&n("1"), &schema, "$"), Ok(()));
    assert_eq!(validate(&n("1.0"), &schema, "$"), Err("$: expected const 1, got 1.0".to_owned()));
}

/// A report shaped like `drakkar.fit/1`, reduced to the members these checks
/// need, and a schema that requires them.
fn fit_like_report() -> JsonTree {
    obj(vec![
        ("memory", obj(vec![("confidence", s("modeled")), ("total_gib", n("5.25"))])),
        ("schema", s("drakkar.fit/1")),
        ("verdict", s("fits")),
    ])
}

fn fit_like_schema() -> JsonTree {
    obj(vec![
        (
            "properties",
            obj(vec![
                (
                    "memory",
                    obj(vec![
                        ("required", arr(vec![s("total_gib")], "")),
                        ("type", s("object")),
                    ]),
                ),
                ("schema", obj(vec![("const", s("drakkar.fit/1"))])),
            ]),
        ),
        ("required", arr(vec![s("schema"), s("verdict"), s("memory")], "")),
        ("type", s("object")),
    ])
}

fn without(t: &JsonTree, key: &str) -> JsonTree {
    match &t.node {
        JsonNode::Object(members) => obj(
            members
                .iter()
                .filter(|(k, _)| k != key)
                .map(|(k, v)| (k.as_str(), clone_tree(v)))
                .collect(),
        ),
        _ => clone_tree(t),
    }
}

fn clone_tree(t: &JsonTree) -> JsonTree {
    let node = match &t.node {
        JsonNode::Null => JsonNode::Null,
        JsonNode::Bool(b) => JsonNode::Bool(*b),
        JsonNode::Number(x) => JsonNode::Number(x.clone()),
        JsonNode::Str(x) => JsonNode::Str(x.clone()),
        JsonNode::Array(items) => JsonNode::Array(items.iter().map(clone_tree).collect()),
        JsonNode::Object(m) => {
            JsonNode::Object(m.iter().map(|(k, v)| (k.clone(), clone_tree(v))).collect())
        }
    };
    JsonTree { node, text: t.text.clone(), items_debug: t.items_debug.clone() }
}

#[test]
fn additive_only_guard_catches_a_removed_field() {
    let report = fit_like_report();
    assert_eq!(validate(&report, &fit_like_schema(), "$"), Ok(()));
    let err = validate(&without(&report, "verdict"), &fit_like_schema(), "$").unwrap_err();
    assert!(err.contains("verdict"), "unexpected error: {err}");
    let memory = match &report.node {
        JsonNode::Object(m) => clone_tree(&m[0].1),
        _ => unreachable!(),
    };
    let nested = obj(vec![
        ("memory", without(&memory, "total_gib")),
        ("schema", s("drakkar.fit/1")),
        ("verdict", s("fits")),
    ]);
    let err = validate(&nested, &fit_like_schema(), "$").unwrap_err();
    assert!(err.contains("total_gib"), "unexpected error: {err}");
}

#[test]
fn additive_extra_field_is_permitted() {
    let with_extra = obj(vec![
        ("future_field", b(true)),
        ("memory", obj(vec![("total_gib", n("5.25"))])),
        ("schema", s("drakkar.fit/1")),
        ("verdict", s("fits")),
    ]);
    assert_eq!(validate(&with_extra, &fit_like_schema(), "$"), Ok(()));
}

#[test]
fn validate_integer_admits_only_integral_numbers() {
    let schema = obj(vec![("type", s("integer"))]);
    assert_eq!(validate(&n("2"), &schema, "$"), Ok(()));
    assert_eq!(validate(&n("-3"), &schema, "$"), Ok(()));
    assert_eq!(validate(&n("2.0"), &schema, "$"), Ok(()));
    assert_eq!(validate(&n("1.5e1"), &schema, "$"), Ok(()));
    assert_eq!(validate(&n("1e20"), &schema, "$"), Ok(()));
    assert_eq!(validate(&n("1.5"), &schema, "$"), Err("$: expected integer, got 1.5".to_owned()));
    assert_eq!(validate(&n("15e-1"), &schema, "$"), Err("$: expected integer, got 15e-1".to_owned()));
    assert_eq!(validate(&n("1.25e1"), &schema, "$"), Err("$: expected integer, got 1.25e1".to_owned()));
    assert_eq!(validate(&n("10e-1"), &schema, "$"), Ok(()));
    assert_eq!(validate(&n("1.5"), &obj(vec![("type", s("number"))]), "$"), Ok(()));
}
