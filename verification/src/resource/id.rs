//! Resource identifiers used by the BigML API.

use vstd::prelude::*;
use std::marker::PhantomData;
use crate::text::{has_prefix, starts_with};

verus! {

/// A trait representing a BigML data type. This mostly exists to be used as
/// a "tag" and to create associations between related types.
pub trait Resource {
    /// The prefix used for all IDs of this type, with its final `/`.
    spec fn spec_id_prefix() -> Seq<char>;

    /// The prefix used for all IDs of this type.
    fn id_prefix() -> (r: &'static str)
        ensures
            r@ == Self::spec_id_prefix(),
    ;
}

/// An identifier that was refused.
#[derive(Debug, Clone)]
pub enum IdError {
    /// The text cannot stand for a resource of the type asked for.
    WrongResourceType {
        /// The prefix of the type asked for.
        prefix: &'static str,
        /// The text that was refused.
        id: String,
    },
}

/// A strongly-typed "resource ID" used to identify many different kinds of
/// BigML resources.
#[derive(Debug)]
pub struct Id<R: Resource> {
    /// The ID of the resource.
    id: String,
    /// Mentions the type `R` inside the struct; holds nothing.
    _phantom: PhantomData<R>,
}

impl<R: Resource> View for Id<R> {
    type V = Seq<char>;

    closed spec fn view(&self) -> Seq<char> {
        self.id@
    }
}

impl<R: Resource> Clone for Id<R> {
    fn clone(&self) -> (r: Id<R>)
        ensures
            r@ == self@,
    {
        Id { id: self.id.clone(), _phantom: PhantomData }
    }
}

impl<R: Resource> Id<R> {
    /// Read `id` as an identifier of an `R`: it is one exactly when it
    /// begins with the prefix of `R`.
    pub fn from_str(id: &str) -> (r: Result<Id<R>, IdError>)
        ensures
            match r {
                Ok(parsed) => has_prefix(id@, R::spec_id_prefix()) && parsed@ == id@,
                Err(IdError::WrongResourceType { prefix, id: refused }) => !has_prefix(
                    id@,
                    R::spec_id_prefix(),
                ) && prefix@ == R::spec_id_prefix() && refused@ == id@,
            },
    {
        if starts_with(id, R::id_prefix()) {
            Ok(Id { id: id.to_owned(), _phantom: PhantomData })
        } else {
            Err(IdError::WrongResourceType { prefix: R::id_prefix(), id: id.to_owned() })
        }
    }

    /// Get this resource as a string.
    pub fn as_str(&self) -> (r: &str)
        ensures
            r@ == self@,
    {
        self.id.as_str()
    }
}

/// A strongly-typed resource ID in its short form: the text that follows
/// the prefix of the type, without that prefix. [`Id`] holds the long form.
#[derive(Debug)]
pub struct ResourceId<R: Resource> {
    /// The ID of the resource.
    id: String,
    /// Mentions the type `R` inside the struct; holds nothing.
    _phantom: PhantomData<R>,
}

impl<R: Resource> View for ResourceId<R> {
    type V = Seq<char>;

    closed spec fn view(&self) -> Seq<char> {
        self.id@
    }
}

impl<R: Resource> Clone for ResourceId<R> {
    fn clone(&self) -> (r: ResourceId<R>)
        ensures
            r@ == self@,
    {
        ResourceId { id: self.id.clone(), _phantom: PhantomData }
    }
}

impl<R: Resource> ResourceId<R> {
    /// Wrap `id`. Text that begins with the prefix of `R` is in the long
    /// form and is refused with `WrongResourceType`; any other text is
    /// accepted as it stands.
    pub fn from_str(id: &str) -> (r: Result<ResourceId<R>, IdError>)
        ensures
            match r {
                Ok(parsed) => !has_prefix(id@, R::spec_id_prefix()) && parsed@ == id@,
                Err(IdError::WrongResourceType { prefix, id: refused }) => has_prefix(
                    id@,
                    R::spec_id_prefix(),
                ) && prefix@ == R::spec_id_prefix() && refused@ == id@,
            },
    {
        if !starts_with(id, R::id_prefix()) {
            Ok(ResourceId { id: id.to_owned(), _phantom: PhantomData })
        } else {
            Err(IdError::WrongResourceType { prefix: R::id_prefix(), id: id.to_owned() })
        }
    }

    /// Get this resource as a string.
    pub fn as_str(&self) -> (r: &str)
        ensures
            r@ == self@,
    {
        self.id.as_str()
    }
}

} // verus!
