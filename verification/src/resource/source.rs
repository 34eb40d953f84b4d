//! A data source used by BigML.

use vstd::prelude::*;
use std::collections::HashMap;
use crate::text::same_text;
use super::id::Id;
use super::kind;
use super::status::GenericResourceStatus;
use super::ResourceCommon;

verus! {

/// A data source used by BigML.
#[derive(Debug, Clone)]
pub struct Source {
    /// Common resource information.
    pub common: ResourceCommon,
    /// The ID of this resource.
    pub resource: Id<kind::Source>,
    /// The status of this source.
    pub status: GenericResourceStatus,
    /// The name of the file uploaded.
    pub file_name: Option<String>,
    /// An MD5 hash of the uploaded file.
    pub md5: String,
    /// The number of bytes of the source.
    pub size: u64,
    /// Whether BigML should automatically expand dates into year, day of week, etc.
    pub disable_datetime: Option<bool>,
    /// The fields in this source, keyed by BigML internal ID.
    pub fields: Option<HashMap<String, Field>>,
}

/// Arguments used to create a data source.
#[derive(Debug, Clone)]
pub struct Args {
    /// The URL of the data source.
    pub remote: Option<String>,
    /// The raw data to use.
    pub data: Option<String>,
    /// Set to true if you want to avoid date expansion into year, day of week, etc.
    pub disable_datetime: Option<bool>,
    /// The name of this source.
    pub name: Option<String>,
    /// User-defined tags.
    pub tags: Vec<String>,
}

impl Args {
    /// Create a new `Args` from a remote data source.
    pub fn remote(remote: &str) -> (r: Args)
        ensures
            r.remote matches Some(url) && url@ == remote@,
            r.data is None,
            r.disable_datetime is None,
            r.name is None,
            r.tags@.len() == 0,
    {
        Args {
            remote: Some(remote.to_owned()),
            data: None,
            disable_datetime: None,
            name: None,
            tags: Vec::new(),
        }
    }

    /// Create a new `Args` from a small amount of inline data.
    pub fn data(data: &str) -> (r: Args)
        ensures
            r.data matches Some(text) && text@ == data@,
            r.remote is None,
            r.disable_datetime is None,
            r.name is None,
            r.tags@.len() == 0,
    {
        Args {
            remote: None,
            data: Some(data.to_owned()),
            disable_datetime: None,
            name: None,
            tags: Vec::new(),
        }
    }
}

/// Information about a field in a data source.
#[derive(Debug, Clone)]
pub struct Field {
    /// The name of this field.
    pub name: String,
    /// The type of data stored in this field.
    pub optype: Optype,
    /// Date formats to use when parsing this field.
    pub time_formats: Vec<String>,
}

/// The type of a data field.
#[derive(Debug, Clone, Copy, PartialEq, Eq, Structural)]
pub enum Optype {
    /// Treat this as a date value.
    DateTime,
    /// Treat this as a numeric value.
    Numeric,
    /// Treat this as a category with multiple possible values, but not
    /// arbitrary strings.
    Categorical,
    /// Treat this as text. This uses different machine learning
    /// algorithms than `Categorical`.
    Text,
    /// Treat this as a list of multiple items separated by an auto-detected
    /// separator.
    Items,
}

impl Optype {
    /// The name of this type on the wire.
    pub open spec fn spec_name(self) -> Seq<char> {
        match self {
            Optype::DateTime => "datetime"@,
            Optype::Numeric => "numeric"@,
            Optype::Categorical => "categorical"@,
            Optype::Text => "text"@,
            Optype::Items => "items"@,
        }
    }

    /// The type that `name` stands for on the wire, if any.
    pub open spec fn spec_from_name(name: Seq<char>) -> Option<Optype> {
        if name == "datetime"@ {
            Some(Optype::DateTime)
        } else if name == "numeric"@ {
            Some(Optype::Numeric)
        } else if name == "categorical"@ {
            Some(Optype::Categorical)
        } else if name == "text"@ {
            Some(Optype::Text)
        } else if name == "items"@ {
            Some(Optype::Items)
        } else {
            None
        }
    }

    /// The name of this type on the wire.
    pub fn name(self) -> (r: &'static str)
        ensures
            r@ == self.spec_name(),
    {
        match self {
            Optype::DateTime => "datetime",
            Optype::Numeric => "numeric",
            Optype::Categorical => "categorical",
            Optype::Text => "text",
            Optype::Items => "items",
        }
    }

    /// Decode a name received on the wire.
    pub fn from_name(name: &str) -> (r: Option<Optype>)
        ensures
            r == Self::spec_from_name(name@),
    {
        if same_text(name, "datetime") {
            Some(Optype::DateTime)
        } else if same_text(name, "numeric") {
            Some(Optype::Numeric)
        } else if same_text(name, "categorical") {
            Some(Optype::Categorical)
        } else if same_text(name, "text") {
            Some(Optype::Text)
        } else if same_text(name, "items") {
            Some(Optype::Items)
        } else {
            None
        }
    }
}

/// Every type is decoded from its own name.
pub proof fn optype_name_round_trip(optype: Optype)
    ensures
        Optype::spec_from_name(optype.spec_name()) == Some(optype),
{
    reveal_strlit("datetime");
    reveal_strlit("numeric");
    reveal_strlit("categorical");
    reveal_strlit("text");
    reveal_strlit("items");
    assert("datetime"@.len() == 8);
    assert("numeric"@.len() == 7);
    assert("categorical"@.len() == 11);
    assert("text"@.len() == 4);
    assert("items"@.len() == 5);
}

} // verus!
