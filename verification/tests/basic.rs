use kv_derive::derive::{derive_from_iter, derive_into_vec};
use kv_derive::error::Error;
use kv_derive::field::{Field, Type};
use kv_derive::opts::{Data, MacroOpts};
use kv_derive::scalar::{IntType, Scalar, ScalarType};
use kv_derive::transform::Identity;
use kv_derive::value::Value;
use kv_derive::{from_iter, to_vec};

fn empty() -> MacroOpts<Identity, Identity> {
    MacroOpts { ident: "Empty".to_string(), data: Data::Struct(vec![]) }
}

#[test]
fn from_iter_empty_ok() -> Result<(), Error> {
    let opts = empty();
    let derived = derive_from_iter(&opts).unwrap();
    assert_eq!(derived.from_iter(&vec![])?, Vec::new());
    Ok(())
}

#[test]
fn to_vec_empty_ok() {
    let opts = empty();
    let derived = derive_into_vec(&opts).unwrap();
    assert_eq!(derived.into_vec(&vec![]), Vec::new());
}

#[test]
fn from_slice_empty_ok() -> Result<(), Error> {
    let opts = empty();
    let derived = from_iter(&opts).unwrap();
    assert_eq!(derived.from_iter(&vec![])?, Vec::new());
    Ok(())
}

#[test]
fn tests_empty_to_key_values_ok() {
    let opts = empty();
    let derived = to_vec(&opts).unwrap();
    assert_eq!(derived.into_iter(&vec![]), Vec::new());
}

#[test]
fn to_vec_empty_to_key_values_ok() {
    let opts = empty();
    let derived = to_vec(&opts).unwrap();
    assert_eq!(derived.into_vec(&vec![]), Vec::new());
}

#[test]
fn test_scalar() {
    let opts: MacroOpts<Identity, Identity> = MacroOpts {
        ident: "Scalar".to_string(),
        data: Data::Struct(vec![Field {
            ident: Some("scalar".to_string()),
            ty: Type::Scalar(ScalarType::Int(IntType::I32)),
            custom_key: None,
            flatten: None,
            default: None,
            is_optional: false,
            is_collection: false,
            from_repr_with: None,
            into_repr_with: None,
        }]),
    };
    let derived = to_vec(&opts).unwrap();
    assert_eq!(
        derived.into_vec(&vec![Value::Scalar(Scalar::I32(42))]),
        vec![("scalar".to_string(), "42".to_string())]
    );
}
