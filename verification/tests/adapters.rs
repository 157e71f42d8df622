use kv_derive::consumer::{CollectionConsumer, Consumer, OptionConsumer, ScalarConsumer};
use kv_derive::error::Error;
use kv_derive::from_iter::FromIter;
use kv_derive::from_mapping::{mapping_from_pairs, FromMapping, Mapping, PrefixedMapping};
use kv_derive::into_vec::IntoVec;
use kv_derive::producer::{
    prefix_keys, CollectionProducer, FlatteningProducer, OptionProducer,
    PrefixedFlatteningProducer, Producer, ScalarProducer, WrappedProducer,
};
use kv_derive::text::{join, same};
use std::marker::PhantomData;

fn pairs(list: &[(&str, &str)]) -> Vec<(String, String)> {
    list.iter().map(|(k, v)| (k.to_string(), v.to_string())).collect()
}

#[test]
fn scalar_consumer_replaces() {
    let consumer = ScalarConsumer::<i32>(PhantomData);
    let mut target = consumer.init(1);
    assert_eq!(target, 1);
    consumer.consume(&mut target, 2);
    assert_eq!(target, 2);
}

#[test]
fn option_consumer_makes_present() {
    let consumer = OptionConsumer(ScalarConsumer::<i32>(PhantomData));
    assert_eq!(consumer.init(1), Some(1));
    let mut target = None;
    consumer.consume(&mut target, 5);
    assert_eq!(target, Some(5));
    consumer.consume(&mut target, 6);
    assert_eq!(target, Some(6));
}

#[test]
fn collection_consumer_appends_in_order() {
    let consumer = CollectionConsumer(ScalarConsumer::<String>(PhantomData));
    let mut target = consumer.init("a".to_string());
    assert_eq!(target, vec!["a".to_string()]);
    consumer.consume(&mut target, "b".to_string());
    consumer.consume(&mut target, "a".to_string());
    assert_eq!(target, vec!["a".to_string(), "b".to_string(), "a".to_string()]);
    let nested = CollectionConsumer(OptionConsumer(ScalarConsumer::<u8>(PhantomData)));
    let mut options = Vec::new();
    nested.consume(&mut options, 3);
    assert_eq!(options, vec![Some(3)]);
}

#[test]
fn scalar_producer_one_pair() {
    assert_eq!(ScalarProducer.produce("size", 8080u16), pairs(&[("size", "8080")]));
    assert_eq!(ScalarProducer.produce("name", "n".to_string()), pairs(&[("name", "n")]));
}

#[test]
fn wrapped_producer_applies_function() {
    let producer = WrappedProducer(ScalarProducer, |flag: bool| if flag { 1u8 } else { 0u8 });
    assert_eq!(producer.produce("flag", true), pairs(&[("flag", "1")]));
}

#[test]
fn option_producer_none_or_one() {
    assert_eq!(OptionProducer(ScalarProducer).produce("k", None::<i32>), Vec::new());
    assert_eq!(OptionProducer(ScalarProducer).produce("k", Some(-3i32)), pairs(&[("k", "-3")]));
}

#[test]
fn collection_producer_one_pair_per_element() {
    assert_eq!(CollectionProducer(ScalarProducer).produce("k", Vec::<i32>::new()), Vec::new());
    assert_eq!(
        CollectionProducer(ScalarProducer).produce("k", vec![3u8, 1, 3]),
        pairs(&[("k", "3"), ("k", "1"), ("k", "3")])
    );
    assert_eq!(
        CollectionProducer(OptionProducer(ScalarProducer)).produce("k", vec![Some(1u8), None, Some(2)]),
        pairs(&[("k", "1"), ("k", "2")])
    );
}

#[test]
fn flattening_producers_forward_nested_pairs() {
    let nested = pairs(&[("x", "1"), ("y", "-2")]);
    assert_eq!(FlatteningProducer.produce("ignored", nested.clone()), nested);
    assert_eq!(
        PrefixedFlatteningProducer("p_").produce("ignored", nested.clone()),
        pairs(&[("p_x", "1"), ("p_y", "-2")])
    );
    assert_eq!(nested.clone().into_vec(), nested);
    assert_eq!(prefix_keys("a.", pairs(&[("b", "1")])), pairs(&[("a.b", "1")]));
    assert_eq!(prefix_keys("a.", Vec::new()), Vec::new());
}

#[test]
fn unit_record_converts() {
    assert_eq!(().into_vec(), Vec::new());
    assert_eq!(IntoVec::into_iter(()), Vec::new());
    assert_eq!(<() as FromIter>::from_iter(&pairs(&[("k", "v")])), Ok(()));
    let mapping = mapping_from_pairs(&pairs(&[("k", "v")]));
    assert_eq!(<() as FromMapping>::from_mapping(&mapping), Ok::<(), Error>(()));
}

#[test]
fn mapping_lookup_and_prefix() {
    let mapping = mapping_from_pairs(&pairs(&[("a", "1"), ("p_a", "2"), ("a", "3"), ("p_q_a", "4")]));
    assert_eq!(mapping.get_value("a"), Some("3"));
    assert_eq!(mapping.get_value("b"), None);
    assert_eq!((&mapping).get_value("p_a"), Some("2"));
    let prefixed = PrefixedMapping(&mapping, "p_");
    assert_eq!(prefixed.get_value("a"), Some("2"));
    assert_eq!(prefixed.get_value("p_a"), None);
    let twice = PrefixedMapping(prefixed, "q_");
    assert_eq!(twice.get_value("a"), Some("4"));
}

#[test]
fn text_helpers() {
    assert!(same("abc", "abc"));
    assert!(same("", ""));
    assert!(!same("abc", "abd"));
    assert!(!same("abc", "ab"));
    assert!(!same("é", "e"));
    assert_eq!(join("pre", "fix"), "prefix");
    assert_eq!(join("", ""), "");
}
