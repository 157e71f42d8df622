use kv_derive::derive::{derive_from_iter, derive_from_mapping, derive_into_vec};
use kv_derive::error::{DeriveError, Error, IntErrorKind};
use kv_derive::field::{DefaultOpts, Field, FlattenOpts, Type};
use kv_derive::from_mapping::mapping_from_pairs;
use kv_derive::opts::{Data, MacroOpts};
use kv_derive::scalar::{IntType, Scalar, ScalarType};
use kv_derive::transform::{BoolAsInt, FromReprWith, Identity, IntoReprWith};
use kv_derive::value::Value;

type Opts = MacroOpts<BoolAsInt, BoolAsInt>;

fn field(name: &str, ty: ScalarType) -> Field<BoolAsInt, BoolAsInt> {
    Field {
        ident: Some(name.to_string()),
        ty: Type::Scalar(ty),
        custom_key: None,
        flatten: None,
        default: None,
        is_optional: false,
        is_collection: false,
        from_repr_with: None,
        into_repr_with: None,
    }
}

fn record(name: &str, fields: Vec<Field<BoolAsInt, BoolAsInt>>) -> Opts {
    MacroOpts { ident: name.to_string(), data: Data::Struct(fields) }
}

fn pairs(list: &[(&str, &str)]) -> Vec<(String, String)> {
    list.iter().map(|(k, v)| (k.to_string(), v.to_string())).collect()
}

const I32: ScalarType = ScalarType::Int(IntType::I32);

#[test]
fn encode_follows_declaration_order() {
    let mut tags = field("tags", ScalarType::Str);
    tags.is_collection = true;
    let mut nick = field("nick", ScalarType::Str);
    nick.is_optional = true;
    nick.custom_key = Some("alias".to_string());
    let mut inner = field("inner", ScalarType::Bool);
    inner.ty = Type::Struct(Box::new(record("Inner", vec![field("x", I32), field("y", I32)])));
    inner.flatten = Some(FlattenOpts { prefix: Some("in_".to_string()) });
    let mut flag = field("flag", ScalarType::Bool);
    flag.into_repr_with = Some(BoolAsInt);
    let opts = record("Outer", vec![tags, nick, inner, flag]);
    let derived = derive_into_vec(&opts).unwrap();
    let this = vec![
        Value::Collection(vec![
            Value::Scalar(Scalar::Str("a".to_string())),
            Value::Scalar(Scalar::Str("b".to_string())),
        ]),
        Value::Optional(Some(Box::new(Value::Scalar(Scalar::Str("n".to_string()))))),
        Value::Nested(vec![Value::Scalar(Scalar::I32(-1)), Value::Scalar(Scalar::I32(2))]),
        Value::Scalar(Scalar::Bool(true)),
    ];
    assert_eq!(
        derived.into_vec(&this),
        pairs(&[("tags", "a"), ("tags", "b"), ("alias", "n"), ("in_x", "-1"), ("in_y", "2"), ("flag", "1")])
    );
    let absent = vec![
        Value::Collection(vec![]),
        Value::Optional(None),
        Value::Nested(vec![Value::Scalar(Scalar::I32(0)), Value::Scalar(Scalar::I32(0))]),
        Value::Scalar(Scalar::Bool(false)),
    ];
    assert_eq!(derived.into_vec(&absent), pairs(&[("in_x", "0"), ("in_y", "0"), ("flag", "0")]));
}

fn with_default(mut f: Field<BoolAsInt, BoolAsInt>, value: Option<Value>) -> Field<BoolAsInt, BoolAsInt> {
    f.default = Some(DefaultOpts { value });
    f
}

#[test]
fn from_iter_last_occurrence_wins() {
    let opts = record("R", vec![with_default(field("k", I32), None)]);
    let derived = derive_from_iter(&opts).unwrap();
    let twice = derived.from_iter(&pairs(&[("k", "1"), ("k", "2")])).unwrap();
    let once = derived.from_iter(&pairs(&[("k", "2")])).unwrap();
    assert_eq!(twice, once);
    assert_eq!(once, vec![Value::Scalar(Scalar::I32(2))]);
}

#[test]
fn from_iter_repeated_keeps_input_order() {
    let mut f = with_default(field("k", ScalarType::Str), None);
    f.is_collection = true;
    let opts = record("R", vec![f]);
    let derived = derive_from_iter(&opts).unwrap();
    assert_eq!(
        derived.from_iter(&pairs(&[("k", "a"), ("k", "b")])).unwrap(),
        vec![Value::Collection(vec![
            Value::Scalar(Scalar::Str("a".to_string())),
            Value::Scalar(Scalar::Str("b".to_string())),
        ])]
    );
}

#[test]
fn from_iter_unknown_key_is_ignored() {
    let opts = record(
        "R",
        vec![with_default(field("k", I32), Some(Value::Scalar(Scalar::I32(42))))],
    );
    let derived = derive_from_iter(&opts).unwrap();
    assert_eq!(
        derived.from_iter(&pairs(&[("unrelated_key", "x")])).unwrap(),
        vec![Value::Scalar(Scalar::I32(42))]
    );
}

#[test]
fn from_iter_first_parse_error_stops() {
    let opts = record(
        "R",
        vec![with_default(field("a", I32), None), with_default(field("b", ScalarType::Bool), None)],
    );
    let derived = derive_from_iter(&opts).unwrap();
    assert_eq!(
        derived.from_iter(&pairs(&[("b", "maybe"), ("a", "x")])),
        Err(Error::ParseBoolError)
    );
    assert_eq!(
        derived.from_iter(&pairs(&[("a", ""), ("b", "maybe")])),
        Err(Error::ParseIntError(IntErrorKind::Empty))
    );
}

#[test]
fn from_iter_rejects_flattened_field() {
    let mut inner = with_default(field("inner", ScalarType::Bool), None);
    inner.ty = Type::Struct(Box::new(record("Inner", vec![])));
    inner.flatten = Some(FlattenOpts { prefix: None });
    let opts = record("R", vec![inner]);
    assert_eq!(derive_from_iter(&opts).err(), Some(DeriveError::FlattenedField));
    let no_default = record("R", vec![field("k", I32)]);
    assert_eq!(derive_from_iter(&no_default).err(), Some(DeriveError::MissingDefault));
}

#[test]
fn from_mapping_missing_key() {
    let opts = record("R", vec![field("k", I32)]);
    let derived = derive_from_mapping(&opts).unwrap();
    let empty = mapping_from_pairs(&vec![]);
    assert_eq!(derived.from_mapping(&empty), Err(Error::MissingKey("k".to_string())));
}

#[test]
fn from_mapping_default_fallback() {
    let opts = record(
        "R",
        vec![with_default(field("k", I32), Some(Value::Scalar(Scalar::I32(42))))],
    );
    let derived = derive_from_mapping(&opts).unwrap();
    let empty = mapping_from_pairs(&vec![]);
    assert_eq!(derived.from_mapping(&empty), Ok(vec![Value::Scalar(Scalar::I32(42))]));
}

#[test]
fn from_mapping_flattened_with_prefix() {
    let deep = record("Deep", vec![field("z", I32)]);
    let mut deep_field = field("deep", ScalarType::Bool);
    deep_field.ty = Type::Struct(Box::new(deep));
    deep_field.flatten = Some(FlattenOpts { prefix: Some("d_".to_string()) });
    let inner = record("Inner", vec![field("x", I32), deep_field]);
    let mut inner_field = field("inner", ScalarType::Bool);
    inner_field.ty = Type::Struct(Box::new(inner));
    inner_field.flatten = Some(FlattenOpts { prefix: Some("in_".to_string()) });
    let mut flag = field("flag", ScalarType::Bool);
    flag.from_repr_with = Some(BoolAsInt);
    let mut opt = field("opt", ScalarType::Str);
    opt.is_optional = true;
    opt.default = Some(DefaultOpts { value: None });
    let opts = record("Outer", vec![field("x", I32), inner_field, flag, opt]);
    let derived = derive_from_mapping(&opts).unwrap();
    let mapping = mapping_from_pairs(&pairs(&[
        ("in_d_z", "3"),
        ("x", "1"),
        ("in_x", "2"),
        ("flag", "7"),
    ]));
    assert_eq!(
        derived.from_mapping(&mapping),
        Ok(vec![
            Value::Scalar(Scalar::I32(1)),
            Value::Nested(vec![
                Value::Scalar(Scalar::I32(2)),
                Value::Nested(vec![Value::Scalar(Scalar::I32(3))]),
            ]),
            Value::Scalar(Scalar::Bool(true)),
            Value::Optional(None),
        ])
    );
    let missing_deep = mapping_from_pairs(&pairs(&[("x", "1"), ("in_x", "2"), ("flag", "0")]));
    assert_eq!(derived.from_mapping(&missing_deep), Err(Error::MissingKey("z".to_string())));
}

#[test]
fn identity_keeps_values() {
    let value = Value::Scalar(Scalar::U8(3));
    assert_eq!(IntoReprWith::apply(&Identity, &value), value);
    assert_eq!(FromReprWith::apply(&Identity, Scalar::U8(3)), Ok(Scalar::U8(3)));
}
