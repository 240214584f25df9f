use builder::record::{get_fields, FieldDesc, FieldsShape, GenError, RecordDef, RecordShape};

use builder::synth::{
    create_builder_struct, create_factory, create_setters, expand, get_builder_struct_ident,
};

fn field(name: &str, ty: &str) -> FieldDesc {
    FieldDesc { name: name.to_string(), ty: ty.to_string() }
}

fn record(vis: &str, ident: &str, data: RecordShape) -> RecordDef {
    RecordDef { vis: vis.to_string(), ident: ident.to_string(), data }
}

fn point() -> RecordDef {
    record(
        "pub",
        "Point",
        RecordShape::Struct(FieldsShape::Named(vec![field("x", "i32"), field("y", "i32")])),
    )
}

#[test]
fn builder_name_has_suffix() {
    assert_eq!(get_builder_struct_ident(&"Point".to_string()), "PointBuilder");
    assert_eq!(get_builder_struct_ident(&"".to_string()), "Builder");
}

#[test]
fn point_expansion_text() {
    let text = builder::render::derive(point()).unwrap();
    assert_eq!(
        text,
        "pub struct PointBuilder { pub x: Option<i32>, pub y: Option<i32>, } impl PointBuilder { \
         pub fn x(&mut self, x: i32) -> &mut Self { self.x = Some(x); self } \
         pub fn y(&mut self, y: i32) -> &mut Self { self.y = Some(y); self } } \
         impl Point { pub fn builder() -> PointBuilder { PointBuilder { x: None, y: None, } } }"
    );
}

#[test]
fn point_expansion_model() {
    let e = expand(point()).unwrap();
    assert_eq!(e.builder.vis, "pub");
    assert_eq!(e.builder.ident, "PointBuilder");
    assert_eq!(e.builder.fields, vec![field("x", "Option<i32>"), field("y", "Option<i32>")]);
    assert_eq!(e.builder.setters.len(), 2);
    assert_eq!(e.builder.setters[0].name, "x");
    assert_eq!(e.builder.setters[1].ty, "i32");
    assert_eq!(e.factory.record, "Point");
    assert_eq!(e.factory.builder, "PointBuilder");
    assert_eq!(e.factory.fields, vec!["x".to_string(), "y".to_string()]);
}

#[test]
fn builder_fields_keep_order_names_and_wrap_types() {
    let fields = vec![field("name", "String"), field("tags", "Vec<String>"), field("id", "u64")];
    let b = create_builder_struct(&"pub(crate)".to_string(), &"ItemBuilder".to_string(), &fields);
    assert_eq!(b.vis, "pub(crate)");
    assert_eq!(
        b.fields,
        vec![
            field("name", "Option<String>"),
            field("tags", "Option<Vec<String>>"),
            field("id", "Option<u64>"),
        ]
    );
    let setters = create_setters(&fields);
    let names: Vec<&str> = setters.iter().map(|s| s.name.as_str()).collect();
    let tys: Vec<&str> = setters.iter().map(|s| s.ty.as_str()).collect();
    assert_eq!(names, vec!["name", "tags", "id"]);
    assert_eq!(tys, vec!["String", "Vec<String>", "u64"]);
}

#[test]
fn factory_lists_every_field() {
    let fields = vec![field("a", "u8"), field("b", "bool")];
    let f = create_factory(&"R".to_string(), &"RBuilder".to_string(), &fields);
    assert_eq!(f.fields, vec!["a".to_string(), "b".to_string()]);
    assert_eq!(
        f.render(),
        "impl R { pub fn builder() -> RBuilder { RBuilder { a: None, b: None, } } }"
    );
}

#[test]
fn private_record_keeps_empty_visibility() {
    let rec = record("", "P", RecordShape::Struct(FieldsShape::Named(vec![field("v", "u8")])));
    let text = builder::render::derive(rec).unwrap();
    assert!(text.starts_with(" struct PBuilder {  v: Option<u8>, }"));
}

#[test]
fn builder_fields_carry_record_visibility() {
    let rec = record(
        "pub(crate)",
        "Cfg",
        RecordShape::Struct(FieldsShape::Named(vec![field("port", "u16"), field("host", "String")])),
    );
    let text = builder::render::derive(rec).unwrap();
    assert!(text.starts_with(
        "pub(crate) struct CfgBuilder { pub(crate) port: Option<u16>, \
         pub(crate) host: Option<String>, }"
    ));
}

#[test]
fn enum_is_rejected() {
    let r = builder::render::derive(record("pub", "E", RecordShape::Enum));
    assert_eq!(r, Err(GenError::NotAStruct));
    assert_eq!(
        GenError::NotAStruct.message(),
        "#[derive(Builder)] only works with structs"
    );
}

#[test]
fn union_is_rejected() {
    assert_eq!(expand(record("", "U", RecordShape::Union)), Err(GenError::NotAStruct));
}

#[test]
fn tuple_struct_is_rejected() {
    let r = builder::render::derive(record("pub", "T", RecordShape::Struct(FieldsShape::Unnamed)));
    assert_eq!(r, Err(GenError::NotNamedFields));
    assert_eq!(
        GenError::NotNamedFields.message(),
        "#[derive(Builder)] only works with named struct fields"
    );
}

#[test]
fn unit_struct_is_rejected() {
    let r = get_fields(RecordShape::Struct(FieldsShape::Unit));
    assert_eq!(r, Err(GenError::NotNamedFields));
}

#[test]
fn zero_fields_generate_empty_builder() {
    let rec = record("pub", "Empty", RecordShape::Struct(FieldsShape::Named(vec![])));
    let e = expand(rec.clone()).unwrap();
    assert!(e.builder.fields.is_empty());
    assert!(e.builder.setters.is_empty());
    assert!(e.factory.fields.is_empty());
    assert_eq!(
        builder::render::derive(rec).unwrap(),
        "pub struct EmptyBuilder { } impl EmptyBuilder { } \
         impl Empty { pub fn builder() -> EmptyBuilder { EmptyBuilder { } } }"
    );
}

#[test]
fn get_fields_returns_named_fields_in_order() {
    let fs = vec![field("b", "u8"), field("a", "u16")];
    let r = get_fields(RecordShape::Struct(FieldsShape::Named(fs.clone())));
    assert_eq!(r, Ok(fs));
}
