//! The declaration of a record: its name and its fields.

use vstd::prelude::*;
use crate::field::Field;

verus! {

/// What carries the fields: only a struct is supported.
pub enum Data<I, F> {
    Enum,
    Struct(Vec<Field<I, F>>),
}

/// Macro options for [`crate::into_vec::IntoVec`], [`crate::from_iter::FromIter`]
/// and [`crate::from_mapping::FromMapping`].
pub struct MacroOpts<I, F> {
    pub ident: String,
    pub data: Data<I, F>,
}

/// The fields of a struct, in the order of their declaration.
pub fn get_fields<I, F>(data: Data<I, F>) -> (fields: Vec<Field<I, F>>)
    requires
        data is Struct,
    ensures
        fields == data->Struct_0,
{
    match data {
        Data::Enum => vstd::pervasive::unreached(),
        Data::Struct(fields) => fields,
    }
}

impl<I, F> MacroOpts<I, F> {
    /// The fields of the record; none where the declaration is no struct.
    pub open spec fn fields(&self) -> Seq<Field<I, F>> {
        match self.data {
            Data::Enum => Seq::empty(),
            Data::Struct(fields) => fields@,
        }
    }
}

} // verus!
