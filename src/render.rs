use vstd::prelude::*;

use crate::record::{fields_result, FieldDesc, GenError, RecordDef};
use crate::synth::{
    builder_fields_of, builder_name_of, expand, is_expansion_of, option_of, setters_of, BuilderStruct,
    Expansion, Factory, Setter,
};

verus! {

/// Text of one builder field declaration, with the builder's visibility `vis`.
pub open spec fn field_decl_text(vis: Seq<char>, name: Seq<char>, ty: Seq<char>) -> Seq<char> {
    vis + " "@ + name + ": "@ + ty + ", "@
}

/// Text of the builder's field declarations, in order, each with visibility `vis`.
pub open spec fn fields_decl_text(vis: Seq<char>, fs: Seq<FieldDesc>) -> Seq<char>
    decreases fs.len(),
{
    if fs.len() == 0 {
        Seq::empty()
    } else {
        fields_decl_text(vis, fs.drop_last()) + field_decl_text(
            vis,
            fs.last().name@,
            fs.last().ty@,
        )
    }
}

/// Text of one setter: it stores its argument as present and returns the builder.
pub open spec fn setter_text(name: Seq<char>, ty: Seq<char>) -> Seq<char> {
    "pub fn "@ + name + "(&mut self, "@ + name + ": "@ + ty + ") -> &mut Self { self."@ + name
        + " = Some("@ + name + "); self } "@
}

/// Text of the setters, in order.
pub open spec fn setters_text(ss: Seq<Setter>) -> Seq<char>
    decreases ss.len(),
{
    if ss.len() == 0 {
        Seq::empty()
    } else {
        setters_text(ss.drop_last()) + setter_text(ss.last().name@, ss.last().ty@)
    }
}

/// Text of the builder type declaration followed by its setters.
pub open spec fn builder_struct_text(b: BuilderStruct) -> Seq<char> {
    b.vis@ + " struct "@ + b.ident@ + " { "@ + fields_decl_text(b.vis@, b.fields@) + "} impl "@
        + b.ident@ + " { "@ + setters_text(b.setters@) + "} "@
}

/// Text of the absent initialiser of one field.
pub open spec fn init_text(name: Seq<char>) -> Seq<char> {
    name + ": None, "@
}

/// Text of the absent initialisers of the factory's fields, in order.
pub open spec fn inits_text(names: Seq<String>) -> Seq<char>
    decreases names.len(),
{
    if names.len() == 0 {
        Seq::empty()
    } else {
        inits_text(names.drop_last()) + init_text(names.last()@)
    }
}

/// Text of the factory, attached to the record type.
pub open spec fn factory_text(f: Factory) -> Seq<char> {
    "impl "@ + f.record@ + " { pub fn builder() -> "@ + f.builder@ + " { "@ + f.builder@ + " { "@
        + inits_text(f.fields@) + "} } }"@
}

/// Text of a whole expansion: the builder, its setters, then the factory.
pub open spec fn expansion_text(e: Expansion) -> Seq<char> {
    builder_struct_text(e.builder) + factory_text(e.factory)
}

/// Text of the builder's field declarations for record fields `fs`: each is declared with
/// the record's visibility `vis`, keeps its name and gets the optional wrapper of its type.
pub open spec fn record_fields_text(vis: Seq<char>, fs: Seq<FieldDesc>) -> Seq<char>
    decreases fs.len(),
{
    if fs.len() == 0 {
        Seq::empty()
    } else {
        record_fields_text(vis, fs.drop_last()) + field_decl_text(
            vis,
            fs.last().name@,
            option_of(fs.last().ty@),
        )
    }
}

/// Text of the setters for record fields `fs`.
pub open spec fn record_setters_text(fs: Seq<FieldDesc>) -> Seq<char>
    decreases fs.len(),
{
    if fs.len() == 0 {
        Seq::empty()
    } else {
        record_setters_text(fs.drop_last()) + setter_text(fs.last().name@, fs.last().ty@)
    }
}

/// Text of the factory's absent initialisers for record fields `fs`.
pub open spec fn record_inits_text(fs: Seq<FieldDesc>) -> Seq<char>
    decreases fs.len(),
{
    if fs.len() == 0 {
        Seq::empty()
    } else {
        record_inits_text(fs.drop_last()) + init_text(fs.last().name@)
    }
}

/// The source text generated for a record with visibility `vis`, name `ident` and named
/// fields `fs`: the builder type, its setters, then the factory on the record.
pub open spec fn generated_text(vis: Seq<char>, ident: Seq<char>, fs: Seq<FieldDesc>) -> Seq<
    char,
> {
    let b = builder_name_of(ident);
    vis + " struct "@ + b + " { "@ + record_fields_text(vis, fs) + "} impl "@ + b + " { "@
        + record_setters_text(fs) + "} "@ + "impl "@ + ident + " { pub fn builder() -> "@ + b
        + " { "@ + b + " { "@ + record_inits_text(fs) + "} } }"@
}

proof fn lemma_fields_text(vis: Seq<char>, bs: Seq<FieldDesc>, fs: Seq<FieldDesc>)
    requires
        builder_fields_of(bs, fs),
    ensures
        fields_decl_text(vis, bs) == record_fields_text(vis, fs),
    decreases fs.len(),
{
    if fs.len() > 0 {
        let n = fs.len() - 1;
        assert(bs[n].name@ == fs[n].name@);
        assert(builder_fields_of(bs.drop_last(), fs.drop_last())) by {
            assert forall|i: int| 0 <= i < n implies #[trigger] bs.drop_last()[i].name@
                == fs.drop_last()[i].name@ && bs.drop_last()[i].ty@ == option_of(
                fs.drop_last()[i].ty@,
            ) by {
                assert(bs[i].name@ == fs[i].name@);
            }
        }
        lemma_fields_text(vis, bs.drop_last(), fs.drop_last());
    }
}

proof fn lemma_setters_text(ss: Seq<Setter>, fs: Seq<FieldDesc>)
    requires
        setters_of(ss, fs),
    ensures
        setters_text(ss) == record_setters_text(fs),
    decreases fs.len(),
{
    if fs.len() > 0 {
        let n = fs.len() - 1;
        assert(ss[n].name@ == fs[n].name@);
        assert(setters_of(ss.drop_last(), fs.drop_last())) by {
            assert forall|i: int| 0 <= i < n implies #[trigger] ss.drop_last()[i].name@
                == fs.drop_last()[i].name@ && ss.drop_last()[i].ty@ == fs.drop_last()[i].ty@ by {
                assert(ss[i].name@ == fs[i].name@);
            }
        }
        lemma_setters_text(ss.drop_last(), fs.drop_last());
    }
}

proof fn lemma_inits_text(names: Seq<String>, fs: Seq<FieldDesc>)
    requires
        names.len() == fs.len(),
        forall|i: int| 0 <= i < fs.len() ==> #[trigger] names[i]@ == fs[i].name@,
    ensures
        inits_text(names) == record_inits_text(fs),
    decreases fs.len(),
{
    if fs.len() > 0 {
        let n = fs.len() - 1;
        assert(names[n]@ == fs[n].name@);
        assert forall|i: int| 0 <= i < n implies #[trigger] names.drop_last()[i]@
            == fs.drop_last()[i].name@ by {
            assert(names[i]@ == fs[i].name@);
        }
        lemma_inits_text(names.drop_last(), fs.drop_last());
    }
}

/// The text of any expansion of a record is the text generated for that record: it depends
/// on the record's visibility, name and fields alone.
pub proof fn lemma_expansion_text(e: Expansion, vis: Seq<char>, ident: Seq<char>, fs: Seq<FieldDesc>)
    requires
        is_expansion_of(e, vis, ident, fs),
    ensures
        expansion_text(e) == generated_text(vis, ident, fs),
{
    lemma_fields_text(vis, e.builder.fields@, fs);
    lemma_setters_text(e.builder.setters@, fs);
    lemma_inits_text(e.factory.fields@, fs);
    assert(expansion_text(e) =~= generated_text(vis, ident, fs));
}

/// Source text of one setter.
fn setter_source(s: &Setter) -> (r: String)
    ensures
        r@ == setter_text(s.name@, s.ty@),
{
    let mut r = String::from_str("pub fn ");
    r.append(s.name.as_str());
    r.append("(&mut self, ");
    r.append(s.name.as_str());
    r.append(": ");
    r.append(s.ty.as_str());
    r.append(") -> &mut Self { self.");
    r.append(s.name.as_str());
    r.append(" = Some(");
    r.append(s.name.as_str());
    r.append("); self } ");
    assert(r@ =~= setter_text(s.name@, s.ty@));
    r
}

impl BuilderStruct {
    /// Source text of the builder type and its setters.
    pub fn render(&self) -> (r: String)
        ensures
            r@ == builder_struct_text(*self),
    {
        let mut r = self.vis.clone();
        r.append(" struct ");
        r.append(self.ident.as_str());
        r.append(" { ");
        let mut i: usize = 0;
        while i < self.fields.len()
            invariant
                i <= self.fields@.len(),
                r@ == self.vis@ + " struct "@ + self.ident@ + " { "@ + fields_decl_text(
                    self.vis@,
                    self.fields@.subrange(0, i as int),
                ),
            decreases self.fields@.len() - i,
        {
            let f = &self.fields[i];
            r.append(self.vis.as_str());
            r.append(" ");
            r.append(f.name.as_str());
            r.append(": ");
            r.append(f.ty.as_str());
            r.append(", ");
            assert(self.fields@.subrange(0, i + 1).drop_last() =~= self.fields@.subrange(0, i as int));
            i = i + 1;
        }
        assert(self.fields@.subrange(0, self.fields@.len() as int) =~= self.fields@);
        r.append("} impl ");
        r.append(self.ident.as_str());
        r.append(" { ");
        let ghost head = r@;
        let mut j: usize = 0;
        while j < self.setters.len()
            invariant
                j <= self.setters@.len(),
                r@ == head + setters_text(self.setters@.subrange(0, j as int)),
            decreases self.setters@.len() - j,
        {
            let piece = setter_source(&self.setters[j]);
            r.append(piece.as_str());
            assert(self.setters@.subrange(0, j + 1).drop_last() =~= self.setters@.subrange(0, j as int));
            j = j + 1;
        }
        assert(self.setters@.subrange(0, self.setters@.len() as int) =~= self.setters@);
        r.append("} ");
        r
    }
}

impl Factory {
    /// Source text of the factory method and the impl block holding it.
    pub fn render(&self) -> (r: String)
        ensures
            r@ == factory_text(*self),
    {
        let mut r = String::from_str("impl ");
        r.append(self.record.as_str());
        r.append(" { pub fn builder() -> ");
        r.append(self.builder.as_str());
        r.append(" { ");
        r.append(self.builder.as_str());
        r.append(" { ");
        let ghost head = r@;
        let mut i: usize = 0;
        while i < self.fields.len()
            invariant
                i <= self.fields@.len(),
                r@ == head + inits_text(self.fields@.subrange(0, i as int)),
            decreases self.fields@.len() - i,
        {
            r.append(self.fields[i].as_str());
            r.append(": None, ");
            assert(self.fields@.subrange(0, i + 1).drop_last() =~= self.fields@.subrange(0, i as int));
            i = i + 1;
        }
        assert(self.fields@.subrange(0, self.fields@.len() as int) =~= self.fields@);
        r.append("} } }");
        r
    }
}

impl Expansion {
    /// Source text of the whole expansion.
    pub fn render(&self) -> (r: String)
        ensures
            r@ == expansion_text(*self),
    {
        let mut r = self.builder.render();
        let f = self.factory.render();
        r.append(f.as_str());
        r
    }
}

/// The source text the derive generates for `rec`, or the error that stops it.
pub fn derive(rec: RecordDef) -> (r: Result<String, GenError>)
    ensures
        match fields_result(rec.data) {
            Ok(fs) => r is Ok && r->Ok_0@ == generated_text(rec.vis@, rec.ident@, fs@),
            Err(e) => r == Err::<String, GenError>(e),
        },
{
    let ghost vis = rec.vis@;
    let ghost ident = rec.ident@;
    let ghost data = rec.data;
    match expand(rec) {
        Ok(e) => {
            proof {
                lemma_expansion_text(e, vis, ident, fields_result(data)->Ok_0@);
            }
            Ok(e.render())
        },
        Err(err) => Err(err),
    }
}

} // verus!
