use vstd::prelude::*;

verus! {

/// One named field of a record: its name and the source text of its declared type.
#[derive(Clone, Debug, PartialEq, Eq)]
pub struct FieldDesc {
    pub name: String,
    pub ty: String,
}

/// The kind of field list a struct declares.
#[derive(Clone, Debug, PartialEq, Eq)]
pub enum FieldsShape {
    /// `struct S { a: A, b: B }`, fields in declaration order.
    Named(Vec<FieldDesc>),
    /// `struct S(A, B);`
    Unnamed,
    /// `struct S;`
    Unit,
}

/// The kind of item the derive is placed on.
#[derive(Clone, Debug, PartialEq, Eq)]
pub enum RecordShape {
    Struct(FieldsShape),
    Enum,
    Union,
}

/// A record declaration as the derive sees it: visibility, name and body.
#[derive(Clone, Debug, PartialEq, Eq)]
pub struct RecordDef {
    /// Source text of the visibility qualifier, empty for private items.
    pub vis: String,
    pub ident: String,
    pub data: RecordShape,
}

/// The two ways generation can fail; both depend on the input's shape alone.
#[derive(Clone, Copy, Debug, PartialEq, Eq)]
pub enum GenError {
    /// The input is an enum or a union.
    NotAStruct,
    /// The input is a struct without named fields.
    NotNamedFields,
}

/// The fixed diagnostic of each error.
pub open spec fn error_message(e: GenError) -> Seq<char> {
    match e {
        GenError::NotAStruct => "#[derive(Builder)] only works with structs"@,
        GenError::NotNamedFields => "#[derive(Builder)] only works with named struct fields"@,
    }
}

impl GenError {
    /// The diagnostic shown when generation stops with this error.
    pub fn message(&self) -> (r: String)
        ensures
            r@ == error_message(*self),
    {
        match self {
            GenError::NotAStruct => String::from_str("#[derive(Builder)] only works with structs"),
            GenError::NotNamedFields => String::from_str(
                "#[derive(Builder)] only works with named struct fields",
            ),
        }
    }
}

/// What field extraction yields for a record body.
pub open spec fn fields_result(data: RecordShape) -> Result<Vec<FieldDesc>, GenError> {
    match data {
        RecordShape::Struct(FieldsShape::Named(fs)) => Ok(fs),
        RecordShape::Struct(_) => Err(GenError::NotNamedFields),
        _ => Err(GenError::NotAStruct),
    }
}

/// The named fields of a record body, in declaration order.
pub fn get_fields(data: RecordShape) -> (r: Result<Vec<FieldDesc>, GenError>)
    ensures
        r == fields_result(data),
{
    if let RecordShape::Struct(fields) = data {
        if let FieldsShape::Named(named) = fields {
            Ok(named)
        } else {
            Err(GenError::NotNamedFields)
        }
    } else {
        Err(GenError::NotAStruct)
    }
}

} // verus!
