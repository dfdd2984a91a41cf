use oxanus::macro_attributes::{
    extract_vec_field, retry_delay_from_meta, unique_id_from_meta, AttrMeta, AttrValue,
    FieldShape, RetryDelay, UniqueIdSpec,
};

type Meta = AttrMeta<String, String, String, String>;

fn name_value(name: &str, value: AttrValue<String, String>, expr: &str) -> Meta {
    AttrMeta::NameValue {
        ident: Some(name.to_string()),
        is_fmt: name == "fmt",
        value,
        expr: expr.to_string(),
        debug: format!("Expr({})", expr),
    }
}

#[test]
fn retry_delay_forms() {
    match retry_delay_from_meta(name_value("retry_delay", AttrValue::IntLit(Ok(10)), "10")) {
        Ok(RetryDelay::Value(v)) => assert_eq!(v, 10),
        _ => panic!("expected a fixed delay"),
    }
    match retry_delay_from_meta(name_value(
        "retry_delay",
        AttrValue::Path("Self::retry_delay".to_string()),
        "Self::retry_delay",
    )) {
        Ok(RetryDelay::CustomFunc(p)) => assert_eq!(p, "Self::retry_delay"),
        _ => panic!("expected a function"),
    }
    match retry_delay_from_meta(name_value(
        "retry_delay",
        AttrValue::StrLit("\"ten\"".to_string()),
        "\"ten\"",
    )) {
        Err(m) => assert_eq!(m, "unsupported retry_delay value: Expr(\"ten\")"),
        _ => panic!("expected an error"),
    }
    match retry_delay_from_meta(name_value(
        "retry_delay",
        AttrValue::IntLit(Err("number too large to fit in target type".to_string())),
        "99999999999999999999999",
    )) {
        Err(m) => assert_eq!(m, "number too large to fit in target type"),
        _ => panic!("expected an error"),
    }
    match retry_delay_from_meta::<String, String, String, String>(AttrMeta::Path) {
        Err(m) => assert_eq!(m, "retry_delay must be a name-value attribute"),
        _ => panic!("expected an error"),
    }
}

#[test]
fn unique_id_shorthand_and_function() {
    match unique_id_from_meta(name_value(
        "unique_id",
        AttrValue::StrLit("test_worker_{id}".to_string()),
        "\"test_worker_{id}\"",
    )) {
        Ok(UniqueIdSpec::Shorthand(l)) => assert_eq!(l, "test_worker_{id}"),
        _ => panic!("expected a shorthand"),
    }
    match unique_id_from_meta(name_value(
        "unique_id",
        AttrValue::Path("Self::unique_id".to_string()),
        "Self::unique_id",
    )) {
        Ok(UniqueIdSpec::CustomFunc(p)) => assert_eq!(p, "Self::unique_id"),
        _ => panic!("expected a function"),
    }
    match unique_id_from_meta(name_value("unique_id", AttrValue::IntLit(Ok(3)), "3")) {
        Err(m) => assert_eq!(m, "unique_id must be a string literal"),
        _ => panic!("expected an error"),
    }
    match unique_id_from_meta(name_value("unique_id", AttrValue::Other, "a + b")) {
        Err(m) => assert_eq!(m, "Expected string literal or type path."),
        _ => panic!("expected an error"),
    }
    match unique_id_from_meta::<String, String, String, String>(AttrMeta::Path) {
        Err(m) => assert_eq!(m, "invalid unique_id attribute"),
        _ => panic!("expected an error"),
    }
}

#[test]
fn unique_id_named_formatter() {
    let items = vec![
        name_value(
            "fmt",
            AttrValue::StrLit("test_worker_{id}_{task}".to_string()),
            "\"test_worker_{id}_{task}\"",
        ),
        name_value("id", AttrValue::Other, "self.id"),
        name_value("task", AttrValue::Other, "self.task.name"),
    ];
    match unique_id_from_meta(AttrMeta::List { items: Ok(items) }) {
        Ok(UniqueIdSpec::NamedFormatter { fmt, args }) => {
            assert_eq!(fmt, "test_worker_{id}_{task}");
            assert_eq!(
                args,
                vec![
                    ("id".to_string(), "self.id".to_string()),
                    ("task".to_string(), "self.task.name".to_string())
                ]
            );
        }
        _ => panic!("expected a named formatter"),
    }
    let missing_fmt = vec![name_value("id", AttrValue::Other, "self.id")];
    match unique_id_from_meta(AttrMeta::List {
        items: Ok(missing_fmt),
    }) {
        Err(m) => assert_eq!(m, "missing fmt = \"...\""),
        _ => panic!("expected an error"),
    }
    let bad_fmt = vec![name_value("fmt", AttrValue::IntLit(Ok(1)), "1")];
    match unique_id_from_meta(AttrMeta::List { items: Ok(bad_fmt) }) {
        Err(m) => assert_eq!(m, "fmt must be a string literal"),
        _ => panic!("expected an error"),
    }
    let unnamed: Vec<Meta> = vec![AttrMeta::NameValue {
        ident: None,
        is_fmt: false,
        value: AttrValue::Other,
        expr: "x".to_string(),
        debug: "x".to_string(),
    }];
    match unique_id_from_meta(AttrMeta::List { items: Ok(unnamed) }) {
        Err(m) => assert_eq!(m, "expected identifier"),
        _ => panic!("expected an error"),
    }
    let nested: Vec<Meta> = vec![AttrMeta::Path];
    match unique_id_from_meta(AttrMeta::List { items: Ok(nested) }) {
        Err(m) => assert_eq!(m, "unsupported unique_id syntax"),
        _ => panic!("expected an error"),
    }
}

fn field(ident: Option<&str>, segment: Option<&str>, arg: Option<&str>) -> FieldShape<String, String> {
    FieldShape {
        ident: ident.map(|s| s.to_string()),
        last_segment: segment.map(|s| s.to_string()),
        first_type_arg: arg.map(|s| s.to_string()),
    }
}

#[test]
fn batch_items_field_is_the_first_vec_field() {
    let fields = vec![
        field(Some("ctx"), Some("WorkerState"), None),
        field(Some("items"), Some("Vec"), Some("BatchItemJob")),
        field(Some("more"), Some("Vec"), Some("Other")),
    ];
    assert_eq!(
        extract_vec_field(fields),
        Some(("items".to_string(), "BatchItemJob".to_string()))
    );
    assert_eq!(extract_vec_field(vec![field(None, Some("Vec"), Some("T"))]), None);
    assert_eq!(extract_vec_field(vec![field(Some("v"), Some("Vec"), None)]), None);
    assert_eq!(extract_vec_field::<String, String>(vec![]), None);
}
