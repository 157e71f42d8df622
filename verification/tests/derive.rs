use kv_derive::consume::{generate_field_consumer, generate_field_consumers};
use kv_derive::decoder::{consume, evaluate, init};
use kv_derive::derive::{
    derive_from_iter, derive_from_mapping, derive_into_vec, generate_field_producer,
    generate_mapped_field, generate_match_field_consumer, MappedField, MissingHandler,
    ProducerExpr,
};
use kv_derive::encoder::{produce, struct_into_vec};
use kv_derive::error::{DeriveError, Error};
use kv_derive::field::{ConsumerExpr, DefaultOpts, Field, FlattenOpts, Type, ValueExpr};
use kv_derive::from_mapping::mapping_from_pairs;
use kv_derive::mapped::{decode_keyed, make_default, struct_from_mapping};
use kv_derive::opts::{get_fields, Data, MacroOpts};
use kv_derive::produce::{generate_produce_field, generate_produce_fields};
use kv_derive::scalar::{IntType, Scalar, ScalarType};
use kv_derive::transform::{BoolAsInt, FromReprWith, IntoReprWith};
use kv_derive::value::{clone_values, Value};
use kv_derive::{from_iter, to_vec};

type F = Field<BoolAsInt, BoolAsInt>;

fn field(name: &str, ty: ScalarType) -> F {
    Field {
        ident: Some(name.to_string()),
        ty: Type::Scalar(ty),
        custom_key: None,
        flatten: None,
        default: None,
        is_optional: false,
        is_collection: false,
        from_repr_with: None,
        into_repr_with: None,
    }
}

fn record(fields: Vec<F>) -> MacroOpts<BoolAsInt, BoolAsInt> {
    MacroOpts { ident: "R".to_string(), data: Data::Struct(fields) }
}

fn flattened(name: &str, prefix: Option<&str>, inner: Vec<F>) -> F {
    let mut f = field(name, ScalarType::Bool);
    f.ty = Type::Struct(Box::new(record(inner)));
    f.flatten = Some(FlattenOpts { prefix: prefix.map(|p| p.to_string()) });
    f
}

fn pairs(list: &[(&str, &str)]) -> Vec<(String, String)> {
    list.iter().map(|(k, v)| (k.to_string(), v.to_string())).collect()
}

const I32: ScalarType = ScalarType::Int(IntType::I32);

#[test]
fn key_is_custom_key_or_name() {
    let mut f = field("size", I32);
    assert_eq!(f.get_key(), "size");
    assert_eq!(f.try_get_key(), Ok("size".to_string()));
    assert_eq!(f.get_ident(), "size");
    f.custom_key = Some("SIZE".to_string());
    assert_eq!(f.get_key(), "SIZE");
    f.ident = None;
    assert_eq!(f.get_key(), "SIZE");
    f.custom_key = None;
    assert_eq!(f.try_get_key(), Err(DeriveError::MissingIdent));
}

#[test]
fn consumer_follows_flags() {
    let mut f = field("k", I32);
    assert!(matches!(f.consumer(), ConsumerExpr::Scalar));
    f.is_optional = true;
    assert!(matches!(f.consumer(), ConsumerExpr::Optional(inner) if matches!(*inner, ConsumerExpr::Scalar)));
    f.is_collection = true;
    assert!(matches!(
        f.consumer(),
        ConsumerExpr::Collection(outer)
            if matches!(&*outer, ConsumerExpr::Optional(inner) if matches!(**inner, ConsumerExpr::Scalar))
    ));
    f.is_optional = false;
    assert!(matches!(f.consumer(), ConsumerExpr::Collection(inner) if matches!(*inner, ConsumerExpr::Scalar)));
}

#[test]
fn wrap_from_repr_with_wraps_once() {
    let mut f = field("k", ScalarType::Bool);
    assert!(matches!(f.wrap_from_repr_with(ValueExpr::FromStr), ValueExpr::FromStr));
    f.from_repr_with = Some(BoolAsInt);
    assert!(matches!(
        f.wrap_from_repr_with(ValueExpr::FromStr),
        ValueExpr::With(BoolAsInt, inner) if matches!(*inner, ValueExpr::FromStr)
    ));
}

#[test]
fn field_producer_follows_attributes() {
    let mut f = field("k", ScalarType::Bool);
    f.custom_key = Some("key".to_string());
    let made = generate_field_producer(&f);
    assert_eq!(made.ident, "k");
    assert_eq!(made.key, "key");
    assert!(matches!(made.producer, ProducerExpr::Scalar));
    f.into_repr_with = Some(BoolAsInt);
    f.is_optional = true;
    f.is_collection = true;
    let made = generate_field_producer(&f);
    match made.producer {
        ProducerExpr::Collection(a) => match *a {
            ProducerExpr::Optional(b) => match *b {
                ProducerExpr::Wrapped(c, BoolAsInt) => assert!(matches!(*c, ProducerExpr::Scalar)),
                _ => panic!("not wrapped"),
            },
            _ => panic!("not optional"),
        },
        _ => panic!("not a collection"),
    }
    let plain = flattened("inner", None, vec![]);
    assert!(matches!(generate_field_producer(&plain).producer, ProducerExpr::Flattening));
    let with_prefix = flattened("inner", Some("p_"), vec![]);
    assert!(matches!(
        generate_field_producer(&with_prefix).producer,
        ProducerExpr::PrefixedFlattening(p) if p == "p_"
    ));
}

#[test]
fn derive_into_vec_errors() {
    let enumeration: MacroOpts<BoolAsInt, BoolAsInt> =
        MacroOpts { ident: "E".to_string(), data: Data::Enum };
    assert_eq!(derive_into_vec(&enumeration).err(), Some(DeriveError::Enum));
    let mut unnamed = field("k", I32);
    unnamed.ident = None;
    assert_eq!(derive_into_vec(&record(vec![unnamed])).err(), Some(DeriveError::UnnamedField));
    let mut not_struct = field("k", I32);
    not_struct.flatten = Some(FlattenOpts { prefix: None });
    assert_eq!(derive_into_vec(&record(vec![not_struct])).err(), Some(DeriveError::NotAStruct));
    let mut not_scalar = flattened("k", None, vec![]);
    not_scalar.flatten = None;
    assert_eq!(derive_into_vec(&record(vec![not_scalar])).err(), Some(DeriveError::NotAScalar));
    let mut deep = field("z", I32);
    deep.ident = None;
    let outer = record(vec![field("a", I32), flattened("inner", None, vec![deep])]);
    assert_eq!(derive_into_vec(&outer).err(), Some(DeriveError::UnnamedField));
    let fine = record(vec![field("a", I32), flattened("inner", None, vec![field("z", I32)])]);
    let derived = derive_into_vec(&fine).unwrap();
    assert_eq!(derived.ident, "R");
    assert_eq!(derived.producers.len(), 2);
}

#[test]
fn derive_from_iter_errors() {
    let enumeration: MacroOpts<BoolAsInt, BoolAsInt> =
        MacroOpts { ident: "E".to_string(), data: Data::Enum };
    assert_eq!(derive_from_iter(&enumeration).err(), Some(DeriveError::Enum));
    let mut unnamed = field("k", I32);
    unnamed.ident = None;
    unnamed.default = Some(DefaultOpts { value: None });
    assert_eq!(derive_from_iter(&record(vec![unnamed])).err(), Some(DeriveError::UnnamedField));
    assert_eq!(
        derive_from_iter(&record(vec![field("k", I32)])).err(),
        Some(DeriveError::MissingDefault)
    );
    let mut flat = flattened("inner", Some("p_"), vec![]);
    flat.default = Some(DefaultOpts { value: None });
    let mut first = field("a", I32);
    first.default = Some(DefaultOpts { value: None });
    assert_eq!(
        derive_from_iter(&record(vec![first, flat])).err(),
        Some(DeriveError::FlattenedField)
    );
    let mut nested = flattened("inner", None, vec![]);
    nested.flatten = None;
    nested.default = Some(DefaultOpts { value: None });
    assert_eq!(derive_from_iter(&record(vec![nested])).err(), Some(DeriveError::NotAScalar));
}

#[test]
fn derive_from_mapping_errors() {
    let enumeration: MacroOpts<BoolAsInt, BoolAsInt> =
        MacroOpts { ident: "E".to_string(), data: Data::Enum };
    assert_eq!(derive_from_mapping(&enumeration).err(), Some(DeriveError::Enum));
    let mut unnamed = field("k", I32);
    unnamed.ident = None;
    assert_eq!(derive_from_mapping(&record(vec![unnamed])).err(), Some(DeriveError::UnnamedField));
    let mut both = flattened("inner", None, vec![]);
    both.default = Some(DefaultOpts { value: None });
    assert_eq!(
        derive_from_mapping(&record(vec![both])).err(),
        Some(DeriveError::FlattenWithDefault)
    );
    let mut not_struct = field("k", I32);
    not_struct.flatten = Some(FlattenOpts { prefix: None });
    assert_eq!(derive_from_mapping(&record(vec![not_struct])).err(), Some(DeriveError::NotAStruct));
    let mut not_scalar = flattened("k", None, vec![]);
    not_scalar.flatten = None;
    assert_eq!(derive_from_mapping(&record(vec![not_scalar])).err(), Some(DeriveError::NotAScalar));
}

#[test]
fn mapped_field_follows_attributes() {
    let mut f = field("k", I32);
    match generate_mapped_field(&f) {
        MappedField::Keyed { key, missing, .. } => {
            assert_eq!(key, "k");
            assert!(matches!(missing, MissingHandler::MissingKey(name) if name == "k"));
        },
        _ => panic!("not keyed"),
    }
    f.default = Some(DefaultOpts { value: None });
    assert!(matches!(
        generate_mapped_field(&f),
        MappedField::Keyed { missing: MissingHandler::Default, .. }
    ));
    f.default = Some(DefaultOpts { value: Some(Value::Scalar(Scalar::I32(42))) });
    assert!(matches!(
        generate_mapped_field(&f),
        MappedField::Keyed { missing: MissingHandler::Value(Value::Scalar(Scalar::I32(42))), .. }
    ));
    let flat = flattened("inner", Some("p_"), vec![]);
    assert!(matches!(
        generate_mapped_field(&flat),
        MappedField::Flattened { prefix: Some(p), .. } if p == "p_"
    ));
    let mut plain = field("k", I32);
    plain.custom_key = Some("key".to_string());
    let made = generate_match_field_consumer(&plain);
    assert_eq!(made.key, "key");
    assert_eq!(made.ident, "k");
    assert_eq!(made.ty, I32);
}

#[test]
fn shape_producers_and_consumers() {
    let mut f = field("k", I32);
    f.is_optional = true;
    let made = generate_produce_field(&f).unwrap();
    assert!(matches!(made.producer, ProducerExpr::Optional(_)));
    let flat = flattened("inner", Some("p_"), vec![]);
    assert!(matches!(
        generate_produce_field(&flat).unwrap().producer,
        ProducerExpr::PrefixedFlattening(p) if p == "p_"
    ));
    let mut unnamed = field("k", I32);
    unnamed.ident = None;
    assert_eq!(generate_produce_field(&unnamed).err(), Some(DeriveError::UnnamedField));
    assert_eq!(generate_produce_fields(&vec![field("a", I32), field("b", I32)]).unwrap().len(), 2);
    assert_eq!(
        generate_produce_fields(&vec![field("a", I32), unnamed]).err(),
        Some(DeriveError::UnnamedField)
    );
    assert_eq!(generate_field_consumer(&field("a", I32)).unwrap().key, "a");
    let flat = flattened("inner", None, vec![]);
    assert_eq!(generate_field_consumer(&flat).err(), Some(DeriveError::FlattenedField));
    assert_eq!(generate_field_consumers(&vec![field("a", I32)]).unwrap().len(), 1);
    let flat = flattened("inner", None, vec![]);
    assert_eq!(
        generate_field_consumers(&vec![field("a", I32), flat]).err(),
        Some(DeriveError::FlattenedField)
    );
}

#[test]
fn plain_derives() {
    let mut renamed = field("a", I32);
    renamed.custom_key = Some("ignored".to_string());
    let opts = record(vec![renamed, field("b", ScalarType::Bool)]);
    let encoder = to_vec(&opts).unwrap();
    assert_eq!(
        encoder.into_vec(&vec![Value::Scalar(Scalar::I32(7)), Value::Scalar(Scalar::Bool(true))]),
        pairs(&[("a", "7"), ("b", "true")])
    );
    let decoder = from_iter(&opts).unwrap();
    assert_eq!(
        decoder.from_iter(&pairs(&[("b", "true"), ("ignored", "1"), ("a", "5"), ("a", "6")])),
        Ok(vec![Value::Scalar(Scalar::I32(6)), Value::Scalar(Scalar::Bool(true))])
    );
    assert_eq!(
        decoder.from_iter(&vec![]),
        Ok(vec![Value::Scalar(Scalar::I32(0)), Value::Scalar(Scalar::Bool(false))])
    );
    let mut unnamed = field("k", I32);
    unnamed.ident = None;
    assert_eq!(to_vec(&record(vec![unnamed])).err(), Some(DeriveError::UnnamedField));
    let nested = flattened("inner", None, vec![]);
    assert_eq!(from_iter(&record(vec![nested])).err(), Some(DeriveError::NotAScalar));
    let enumeration: MacroOpts<BoolAsInt, BoolAsInt> =
        MacroOpts { ident: "E".to_string(), data: Data::Enum };
    assert_eq!(to_vec(&enumeration).err(), Some(DeriveError::Enum));
    assert_eq!(from_iter(&enumeration).err(), Some(DeriveError::Enum));
}

#[test]
fn get_fields_of_struct() {
    let data: Data<BoolAsInt, BoolAsInt> = Data::Struct(vec![field("a", I32)]);
    assert_eq!(get_fields(data).len(), 1);
}

#[test]
fn interpreter_pieces() {
    let text = ScalarType::Str;
    assert_eq!(
        produce::<BoolAsInt, BoolAsInt>(
            &ProducerExpr::Scalar,
            &Type::Scalar(text),
            "k",
            &Value::Scalar(Scalar::Str("v".to_string()))
        ),
        pairs(&[("k", "v")])
    );
    assert_eq!(
        produce::<BoolAsInt, BoolAsInt>(
            &ProducerExpr::Scalar,
            &Type::Scalar(text),
            "k",
            &Value::Optional(None)
        ),
        Vec::new()
    );
    let opts = record(vec![field("a", I32), field("b", I32)]);
    assert_eq!(
        struct_into_vec(&opts, &vec![Value::Scalar(Scalar::I32(1))]),
        pairs(&[("a", "1")])
    );
    assert_eq!(
        evaluate(&ValueExpr::With(BoolAsInt, Box::new(ValueExpr::FromStr)), ScalarType::Bool, "2"),
        Ok(Scalar::Bool(true))
    );
    assert_eq!(
        evaluate(&ValueExpr::With(BoolAsInt, Box::new(ValueExpr::FromStr)), ScalarType::Bool, "x")
            .is_err(),
        true
    );
    assert_eq!(evaluate::<BoolAsInt>(&ValueExpr::FromStr, I32, "12"), Ok(Scalar::I32(12)));
    let collection = ConsumerExpr::Collection(Box::new(ConsumerExpr::Scalar));
    assert_eq!(
        init(&collection, Scalar::I32(1)),
        Value::Collection(vec![Value::Scalar(Scalar::I32(1))])
    );
    let mut target = Value::Scalar(Scalar::I32(0));
    consume(&collection, &mut target, Scalar::I32(1));
    assert_eq!(target, Value::Collection(vec![Value::Scalar(Scalar::I32(1))]));
    consume(&collection, &mut target, Scalar::I32(2));
    assert_eq!(
        target,
        Value::Collection(vec![Value::Scalar(Scalar::I32(1)), Value::Scalar(Scalar::I32(2))])
    );
    let optional = ConsumerExpr::Optional(Box::new(ConsumerExpr::Scalar));
    consume(&optional, &mut target, Scalar::I32(3));
    assert_eq!(target, Value::Optional(Some(Box::new(Value::Scalar(Scalar::I32(3))))));
    assert_eq!(make_default(&ConsumerExpr::Scalar, I32), Value::Scalar(Scalar::I32(0)));
    assert_eq!(make_default(&optional, I32), Value::Optional(None));
    assert_eq!(make_default(&collection, I32), Value::Collection(vec![]));
    let mapping = mapping_from_pairs(&pairs(&[("k", "5"), ("p_a", "1"), ("p_b", "2")]));
    assert_eq!(
        decode_keyed::<_, BoolAsInt>(
            "k",
            &MissingHandler::MissingKey("k".to_string()),
            &optional,
            &ValueExpr::FromStr,
            I32,
            &mapping
        ),
        Ok(Value::Optional(Some(Box::new(Value::Scalar(Scalar::I32(5))))))
    );
    assert_eq!(
        decode_keyed::<_, BoolAsInt>(
            "q",
            &MissingHandler::MissingKey("q".to_string()),
            &optional,
            &ValueExpr::FromStr,
            I32,
            &mapping
        ),
        Err(Error::MissingKey("q".to_string()))
    );
    assert_eq!(
        struct_from_mapping(&opts, &mapping, "p_"),
        Ok(vec![Value::Scalar(Scalar::I32(1)), Value::Scalar(Scalar::I32(2))])
    );
    let values = vec![Value::Nested(vec![Value::Optional(None)]), Value::Collection(vec![])];
    assert_eq!(clone_values(&values), values);
    assert_eq!(values[0].clone(), values[0]);
}

#[test]
fn bool_as_int_both_ways() {
    assert_eq!(
        IntoReprWith::apply(&BoolAsInt, &Value::Scalar(Scalar::Bool(true))),
        Value::Scalar(Scalar::U8(1))
    );
    assert_eq!(
        IntoReprWith::apply(&BoolAsInt, &Value::Scalar(Scalar::Bool(false))),
        Value::Scalar(Scalar::U8(0))
    );
    assert_eq!(
        IntoReprWith::apply(&BoolAsInt, &Value::Optional(None)),
        Value::Optional(None)
    );
    assert_eq!(BoolAsInt.repr_type(), ScalarType::Int(IntType::U8));
    assert_eq!(FromReprWith::apply(&BoolAsInt, Scalar::U8(0)), Ok(Scalar::Bool(false)));
    assert_eq!(FromReprWith::apply(&BoolAsInt, Scalar::U8(9)), Ok(Scalar::Bool(true)));
    assert_eq!(FromReprWith::apply(&BoolAsInt, Scalar::I8(9)), Ok(Scalar::I8(9)));
}
