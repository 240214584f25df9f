use builder::record::{FieldDesc, FieldsShape, RecordDef, RecordShape};
use builder::synth::expand;
use builder::value::BuilderValue;

fn three_fields() -> builder::synth::Expansion {
    let fs = ["a", "b", "c"]
        .iter()
        .map(|n| FieldDesc { name: n.to_string(), ty: "u32".to_string() })
        .collect();
    let rec = RecordDef {
        vis: "pub".to_string(),
        ident: "R".to_string(),
        data: RecordShape::Struct(FieldsShape::Named(fs)),
    };
    expand(rec).unwrap()
}

#[test]
fn factory_value_is_all_absent() {
    let e = three_fields();
    let b: BuilderValue<u32> = e.factory.invoke();
    assert_eq!(b.slots, vec![None, None, None]);
    let empty = expand(RecordDef {
        vis: String::new(),
        ident: "Z".to_string(),
        data: RecordShape::Struct(FieldsShape::Named(vec![])),
    })
    .unwrap();
    let z: BuilderValue<u32> = empty.factory.invoke();
    assert!(z.slots.is_empty());
}

#[test]
fn setter_round_trip_touches_one_field() {
    let mut b: BuilderValue<u32> = three_fields().factory.invoke();
    b.set(1, 7);
    assert_eq!(*b.get(1), Some(7));
    assert_eq!(*b.get(0), None);
    assert_eq!(*b.get(2), None);
}

#[test]
fn setters_chain_in_any_order() {
    let mut first: BuilderValue<u32> = three_fields().factory.invoke();
    first.set(0, 1).set(2, 3);
    let mut second: BuilderValue<u32> = three_fields().factory.invoke();
    second.set(2, 3).set(0, 1);
    assert_eq!(first.slots, vec![Some(1), None, Some(3)]);
    assert_eq!(first.slots, second.slots);
}

#[test]
fn second_set_overwrites_first() {
    let mut b: BuilderValue<u32> = three_fields().factory.invoke();
    b.set(2, 10).set(2, 20);
    assert_eq!(b.slots, vec![None, None, Some(20)]);
}
