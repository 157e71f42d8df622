//! What is declared of one field of a record, and what follows from it: the
//! field's key, how its value is folded in, and how its text is read.

use vstd::prelude::*;
use crate::error::DeriveError;
use crate::opts::MacroOpts;
use crate::scalar::ScalarType;
use crate::value::Value;

verus! {

/// The type of what a field holds in its innermost place: a scalar, or a
/// record with a declaration of its own.
pub enum Type<I, F> {
    Scalar(ScalarType),
    Struct(Box<MacroOpts<I, F>>),
}

/// One field of a record, as it is declared.
pub struct Field<I, F> {
    pub ident: Option<String>,
    pub ty: Type<I, F>,
    /// Use the specified key instead of the field identifier.
    pub custom_key: Option<String>,
    /// Flattening options.
    pub flatten: Option<FlattenOpts>,
    /// Default value.
    pub default: Option<DefaultOpts>,
    pub is_optional: bool,
    pub is_collection: bool,
    pub from_repr_with: Option<F>,
    pub into_repr_with: Option<I>,
}

pub struct FlattenOpts {
    /// Prefix all the flattened fields with the specified prefix.
    pub prefix: Option<String>,
}

pub struct DefaultOpts {
    /// The value of a field whose key does not come; without it, the default
    /// of the field's type.
    pub value: Option<Value>,
}

/// How incoming values are folded into a field.
pub enum ConsumerExpr {
    /// Each value replaces the one before.
    Scalar,
    /// Each value makes the field present.
    Optional(Box<ConsumerExpr>),
    /// Each value is added at the end.
    Collection(Box<ConsumerExpr>),
}

/// How the value that a field consumes is got from a text.
pub enum ValueExpr<F> {
    /// The text is read as a scalar.
    FromStr,
    /// What the inner expression gives is handed to a function.
    With(F, Box<ValueExpr<F>>),
}

impl<I, F> Field<I, F> {
    /// The target key: the custom key, or else the field's name.
    pub open spec fn key(&self) -> String {
        match self.custom_key {
            Some(custom_key) => custom_key,
            None => self.ident->0,
        }
    }

    /// Gets the target key, either the field name or a custom key.
    pub fn get_key(&self) -> (key: String)
        requires
            self.custom_key is Some || self.ident is Some,
        ensures
            key == self.key(),
    {
        if let Some(custom_key) = &self.custom_key {
            return custom_key.clone();
        }
        match &self.ident {
            Some(ident) => ident.clone(),
            None => vstd::pervasive::unreached(),
        }
    }

    /// Gets the target key, or reports that the field has neither a custom
    /// key nor a name.
    pub fn try_get_key(&self) -> (result: Result<String, DeriveError>)
        ensures
            match result {
                Ok(key) => (self.custom_key is Some || self.ident is Some) && key == self.key(),
                Err(error) => self.custom_key is None && self.ident is None && error
                    == DeriveError::MissingIdent,
            },
    {
        if let Some(custom_key) = &self.custom_key {
            return Ok(custom_key.clone());
        }
        if let Some(ident) = &self.ident {
            return Ok(ident.clone());
        }
        Err(DeriveError::MissingIdent)
    }

    /// Unwraps the field identifier.
    pub fn get_ident(&self) -> (ident: &String)
        requires
            self.ident is Some,
        ensures
            *ident == self.ident->0,
    {
        match &self.ident {
            Some(ident) => ident,
            None => vstd::pervasive::unreached(),
        }
    }

    /// The consumer of the field: scalar, made optional where the field is
    /// optional, and that made a collection where the field is one.
    pub open spec fn consumer_expr(&self) -> ConsumerExpr {
        let scalar = ConsumerExpr::Scalar;
        let optional = if self.is_optional {
            ConsumerExpr::Optional(Box::new(scalar))
        } else {
            scalar
        };
        if self.is_collection {
            ConsumerExpr::Collection(Box::new(optional))
        } else {
            optional
        }
    }

    /// Builds a field consumer based on the attributes.
    pub fn consumer(&self) -> (consumer: ConsumerExpr)
        ensures
            consumer == self.consumer_expr(),
    {
        let mut consumer = ConsumerExpr::Scalar;
        if self.is_optional {
            consumer = ConsumerExpr::Optional(Box::new(consumer));
        }
        if self.is_collection {
            consumer = ConsumerExpr::Collection(Box::new(consumer));
        }
        consumer
    }

    /// `value` handed to the function of `from_repr_with`, where there is one.
    pub open spec fn wrapped(&self, value: ValueExpr<F>) -> ValueExpr<F> {
        match self.from_repr_with {
            Some(with) => ValueExpr::With(with, Box::new(value)),
            None => value,
        }
    }

    /// Wraps the value with an expression of `from_repr_with`, if specified.
    pub fn wrap_from_repr_with(&self, value: ValueExpr<F>) -> (wrapped: ValueExpr<F>) where
        F: Copy,

        ensures
            wrapped == self.wrapped(value),
    {
        if let Some(from_repr_with) = &self.from_repr_with {
            ValueExpr::With(*from_repr_with, Box::new(value))
        } else {
            value
        }
    }
}

} // verus!
