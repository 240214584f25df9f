use vstd::prelude::*;

use crate::record::{fields_result, FieldDesc, GenError, RecordDef};

verus! {

/// Suffix appended to a record's name to name its builder.
pub open spec fn builder_suffix() -> Seq<char> {
    "Builder"@
}

/// The builder's name: the record's name followed by the suffix.
pub open spec fn builder_name_of(name: Seq<char>) -> Seq<char> {
    name + builder_suffix()
}

/// Source text of the optional wrapper around a type.
pub open spec fn option_of(ty: Seq<char>) -> Seq<char> {
    "Option<"@ + ty + ">"@
}

/// One setter of the builder: a method named after its field, taking the field's type.
#[derive(Clone, Debug, PartialEq, Eq)]
pub struct Setter {
    pub name: String,
    pub ty: String,
}

/// The generated builder type: its visibility, name, fields and setters.
#[derive(Clone, Debug, PartialEq, Eq)]
pub struct BuilderStruct {
    pub vis: String,
    pub ident: String,
    /// Each field's `ty` is the full text of its optional type.
    pub fields: Vec<FieldDesc>,
    pub setters: Vec<Setter>,
}

/// The factory added to the record: it returns a builder with the listed fields absent.
#[derive(Clone, Debug, PartialEq, Eq)]
pub struct Factory {
    pub record: String,
    pub builder: String,
    pub fields: Vec<String>,
}

/// Everything the derive generates for one record.
#[derive(Clone, Debug, PartialEq, Eq)]
pub struct Expansion {
    pub builder: BuilderStruct,
    pub factory: Factory,
}

/// `ss` holds one setter per field of `fs`, in order, each named after its field and taking
/// the field's declared type.
pub open spec fn setters_of(ss: Seq<Setter>, fs: Seq<FieldDesc>) -> bool {
    &&& ss.len() == fs.len()
    &&& forall|i: int|
        0 <= i < fs.len() ==> #[trigger] ss[i].name@ == fs[i].name@ && ss[i].ty@ == fs[i].ty@
}

/// `bs` holds one field per field of `fs`, in order, with the same name and the optional
/// wrapper of its type.
pub open spec fn builder_fields_of(bs: Seq<FieldDesc>, fs: Seq<FieldDesc>) -> bool {
    &&& bs.len() == fs.len()
    &&& forall|i: int|
        0 <= i < fs.len() ==> #[trigger] bs[i].name@ == fs[i].name@ && bs[i].ty@ == option_of(
            fs[i].ty@,
        )
}

/// `b` is the builder type generated with visibility `vis` and name `ident` for fields `fs`.
pub open spec fn is_builder_struct_of(
    b: BuilderStruct,
    vis: Seq<char>,
    ident: Seq<char>,
    fs: Seq<FieldDesc>,
) -> bool {
    &&& b.vis@ == vis
    &&& b.ident@ == ident
    &&& builder_fields_of(b.fields@, fs)
    &&& setters_of(b.setters@, fs)
}

/// `f` is the factory of record `record` returning builder `builder` for fields `fs`.
pub open spec fn is_factory_of(
    f: Factory,
    record: Seq<char>,
    builder: Seq<char>,
    fs: Seq<FieldDesc>,
) -> bool {
    &&& f.record@ == record
    &&& f.builder@ == builder
    &&& f.fields@.len() == fs.len()
    &&& forall|i: int| 0 <= i < fs.len() ==> #[trigger] f.fields@[i]@ == fs[i].name@
}

/// `e` is what the derive generates for a record with visibility `vis`, name `ident` and
/// named fields `fs`.
pub open spec fn is_expansion_of(
    e: Expansion,
    vis: Seq<char>,
    ident: Seq<char>,
    fs: Seq<FieldDesc>,
) -> bool {
    &&& is_builder_struct_of(e.builder, vis, builder_name_of(ident), fs)
    &&& is_factory_of(e.factory, ident, builder_name_of(ident), fs)
}

/// For every record with `n` named fields, the generated builder has exactly `n` fields, each
/// with the name of the record field at the same position and the optional wrapper of its
/// type, and the setter at each position is named after that field and takes its type. The
/// builder, and so each of its fields, carries the record's visibility.
pub proof fn lemma_builder_field_count(rec: RecordDef, e: Expansion)
    requires
        fields_result(rec.data) is Ok,
        is_expansion_of(e, rec.vis@, rec.ident@, fields_result(rec.data)->Ok_0@),
    ensures
        ({
            let fs = fields_result(rec.data)->Ok_0@;
            &&& e.builder.vis@ == rec.vis@
            &&& e.builder.fields@.len() == fs.len()
            &&& e.builder.setters@.len() == fs.len()
            &&& forall|i: int|
                0 <= i < fs.len() ==> {
                    &&& #[trigger] e.builder.fields@[i].name@ == fs[i].name@
                    &&& e.builder.fields@[i].ty@ == option_of(fs[i].ty@)
                    &&& e.builder.setters@[i].name@ == e.builder.fields@[i].name@
                    &&& e.builder.setters@[i].ty@ == fs[i].ty@
                }
        }),
{
    let fs = fields_result(rec.data)->Ok_0@;
    assert forall|i: int| 0 <= i < fs.len() implies {
        &&& #[trigger] e.builder.fields@[i].name@ == fs[i].name@
        &&& e.builder.fields@[i].ty@ == option_of(fs[i].ty@)
        &&& e.builder.setters@[i].name@ == e.builder.fields@[i].name@
        &&& e.builder.setters@[i].ty@ == fs[i].ty@
    } by {
        assert(e.builder.fields@[i].name@ == fs[i].name@);
        assert(e.builder.setters@[i].name@ == fs[i].name@);
    }
}

/// Name of the builder type derived from a record named `ident`.
pub fn get_builder_struct_ident(ident: &String) -> (r: String)
    ensures
        r@ == builder_name_of(ident@),
{
    let mut r = ident.clone();
    r.append("Builder");
    r
}

/// One setter per field, in declaration order.
pub fn create_setters(fields: &Vec<FieldDesc>) -> (r: Vec<Setter>)
    ensures
        setters_of(r@, fields@),
{
    let mut r: Vec<Setter> = Vec::new();
    let mut i: usize = 0;
    while i < fields.len()
        invariant
            i <= fields@.len(),
            setters_of(r@, fields@.subrange(0, i as int)),
        decreases fields@.len() - i,
    {
        let f = &fields[i];
        r.push(Setter { name: f.name.clone(), ty: f.ty.clone() });
        i = i + 1;
    }
    assert(fields@.subrange(0, fields@.len() as int) =~= fields@);
    r
}

/// The builder type for `fields`: same names, optional types, one setter each, with the
/// record's visibility.
pub fn create_builder_struct(vis: &String, ident: &String, fields: &Vec<FieldDesc>) -> (r:
    BuilderStruct)
    ensures
        is_builder_struct_of(r, vis@, ident@, fields@),
{
    let setters = create_setters(fields);
    let mut new_fields: Vec<FieldDesc> = Vec::new();
    let mut i: usize = 0;
    while i < fields.len()
        invariant
            i <= fields@.len(),
            builder_fields_of(new_fields@, fields@.subrange(0, i as int)),
        decreases fields@.len() - i,
    {
        let f = &fields[i];
        let mut ty = String::from_str("Option<");
        ty.append(f.ty.as_str());
        ty.append(">");
        new_fields.push(FieldDesc { name: f.name.clone(), ty });
        i = i + 1;
    }
    assert(fields@.subrange(0, fields@.len() as int) =~= fields@);
    BuilderStruct { vis: vis.clone(), ident: ident.clone(), fields: new_fields, setters }
}

/// The factory of record `record`, which returns builder `builder` with every field absent.
pub fn create_factory(record: &String, builder: &String, fields: &Vec<FieldDesc>) -> (r: Factory)
    ensures
        is_factory_of(r, record@, builder@, fields@),
{
    let mut names: Vec<String> = Vec::new();
    let mut i: usize = 0;
    while i < fields.len()
        invariant
            i <= fields@.len(),
            names@.len() == i,
            forall|j: int| 0 <= j < i ==> #[trigger] names@[j]@ == fields@[j].name@,
        decreases fields@.len() - i,
    {
        names.push(fields[i].name.clone());
        i = i + 1;
    }
    Factory { record: record.clone(), builder: builder.clone(), fields: names }
}

/// What the derive generates for `rec`, or the error that stops it.
pub fn expand(rec: RecordDef) -> (r: Result<Expansion, GenError>)
    ensures
        match fields_result(rec.data) {
            Ok(fs) => r is Ok && is_expansion_of(r->Ok_0, rec.vis@, rec.ident@, fs@),
            Err(e) => r == Err::<Expansion, GenError>(e),
        },
{
    let RecordDef { vis, ident, data } = rec;
    let fields = match crate::record::get_fields(data) {
        Ok(fs) => fs,
        Err(e) => {
            return Err(e);
        },
    };
    let builder_ident = get_builder_struct_ident(&ident);
    let builder = create_builder_struct(&vis, &builder_ident, &fields);
    let factory = create_factory(&ident, &builder_ident, &fields);
    Ok(Expansion { builder, factory })
}

} // verus!
