//! The rules behind `#[derive(Updatable)]`: which fields of a resource go
//! into its update type, and with which attributes.
//!
//! The derive sees a struct as syntax. What it reads of that syntax is
//! held here as plain values, and what it writes is returned as text, so
//! that the rules can be stated and checked apart from any parser.

use vstd::prelude::*;
use vstd::string::StringExecFns;
use crate::text::same_text;

verus! {

/// The form of a meta item.
#[derive(Debug, Clone, Copy, PartialEq, Eq, Structural)]
pub enum MetaForm {
    /// A bare name, as in `flatten`.
    Word,
    /// A name with a list in parentheses, as in `attr(..)`.
    List,
    /// A name with a value, as in `name = "value"`.
    NameValue,
}

/// One item between the parentheses of `#[updatable(..)]`.
#[derive(Debug, Clone, PartialEq, Eq)]
pub enum NestedOption {
    /// A meta item. `values` holds the text of each item of its list, and
    /// is read only where `form` is `List`.
    Meta { name: String, form: MetaForm, values: Vec<String> },
    /// A literal.
    Literal,
}

/// An attribute of a field.
#[derive(Debug, Clone, PartialEq, Eq)]
pub enum Attribute {
    /// An attribute that is no meta item.
    Unparseable,
    /// A meta item. `nested` holds the items of its list, and is read only
    /// where `form` is `List`.
    Meta { name: String, form: MetaForm, nested: Vec<NestedOption> },
}

/// Why no update type can be derived.
#[derive(Debug, Clone, Copy, PartialEq, Eq, Structural)]
pub enum DeriveError {
    /// A field carries an attribute that is no meta item.
    UnparseableAttribute,
    /// `#[updatable(flatten)]` was given arguments.
    FlattenWithArguments,
    /// `#[updatable(attr(..))]` was written without its list.
    MalformedAttr,
    /// `#[updatable(..)]` holds an option other than `flatten` and `attr`.
    UnexpectedOption,
    /// `updatable` was written as `updatable = ..`.
    ExpectedWordOrList,
    /// An updatable field has no name.
    TupleStruct,
    /// The type is an enum or a union.
    NotAStruct,
}

/// Options specified by the `#[updatable(..)]` attributes of one field.
#[derive(Debug, Clone, PartialEq, Eq)]
pub struct UpdatableFieldOptions {
    /// Whether the field is flattened into the containing struct.
    pub flatten: bool,
    /// The attributes of the generated field, each written out in full.
    pub attrs: Vec<String>,
}

/// What has been read of a field's attributes so far.
pub struct Scan {
    /// An `updatable` attribute was seen.
    pub updatable: bool,
    /// A `flatten` option was seen.
    pub flatten: bool,
    /// The attributes passed through by `attr(..)` options, in order.
    pub attrs: Seq<Seq<char>>,
}

/// An attribute written out in full around its content.
pub open spec fn bracketed(content: Seq<char>) -> Seq<char> {
    "#["@ + content + "]"@
}

/// Each of `values` as an attribute.
pub open spec fn bracketed_all(values: Seq<String>) -> Seq<Seq<char>> {
    Seq::new(values.len(), |k: int| bracketed(values[k]@))
}

/// The attribute that tells serde how to treat the generated field.
pub open spec fn serde_attr(flatten: bool) -> Seq<char> {
    if flatten {
        "#[serde(flatten)]"@
    } else {
        "#[serde(skip_serializing_if = \"Option::is_none\")]"@
    }
}

/// Reading one option: `flatten` must be a bare word and sets the flag;
/// `attr` must have a list and passes each of its items through as an
/// attribute; anything else is an error.
pub open spec fn scan_option(acc: Scan, option: NestedOption) -> Result<Scan, DeriveError> {
    match option {
        NestedOption::Meta { name, form, values } => if name@ == "flatten"@ {
            if form is Word {
                Ok(Scan { flatten: true, ..acc })
            } else {
                Err(DeriveError::FlattenWithArguments)
            }
        } else if name@ == "attr"@ {
            if form is List {
                Ok(Scan { attrs: acc.attrs + bracketed_all(values@), ..acc })
            } else {
                Err(DeriveError::MalformedAttr)
            }
        } else {
            Err(DeriveError::UnexpectedOption)
        },
        NestedOption::Literal => Err(DeriveError::UnexpectedOption),
    }
}

/// Reading options from left to right, up to the first error.
pub open spec fn scan_options(acc: Scan, options: Seq<NestedOption>) -> Result<Scan, DeriveError>
    decreases options.len(),
{
    if options.len() == 0 {
        Ok(acc)
    } else {
        match scan_options(acc, options.drop_last()) {
            Ok(read) => scan_option(read, options.last()),
            Err(e) => Err(e),
        }
    }
}

/// Reading one attribute: every attribute must be a meta item; one that
/// is not called `updatable` is passed over; `updatable` marks the field
/// and may carry options.
pub open spec fn scan_attribute(acc: Scan, attribute: Attribute) -> Result<Scan, DeriveError> {
    match attribute {
        Attribute::Unparseable => Err(DeriveError::UnparseableAttribute),
        Attribute::Meta { name, form, nested } => if name@ == "updatable"@ {
            match form {
                MetaForm::Word => Ok(Scan { updatable: true, ..acc }),
                MetaForm::List => scan_options(Scan { updatable: true, ..acc }, nested@),
                MetaForm::NameValue => Err(DeriveError::ExpectedWordOrList),
            }
        } else {
            Ok(acc)
        },
    }
}

/// Reading attributes from left to right, up to the first error.
pub open spec fn scan_attributes(attributes: Seq<Attribute>) -> Result<Scan, DeriveError>
    decreases attributes.len(),
{
    if attributes.len() == 0 {
        Ok(Scan { updatable: false, flatten: false, attrs: Seq::empty() })
    } else {
        match scan_attributes(attributes.drop_last()) {
            Ok(read) => scan_attribute(read, attributes.last()),
            Err(e) => Err(e),
        }
    }
}

/// Three pieces of text in a row.
fn join3(a: &str, b: &str, c: &str) -> (r: String)
    ensures
        r@ == a@ + b@ + c@,
{
    String::from_str(a).concat(b).concat(c)
}

/// The state of a scan in executable form.
struct Scanned {
    updatable: bool,
    flatten: bool,
    attrs: Vec<String>,
}

impl Scanned {
    spec fn scan(self) -> Scan {
        Scan { updatable: self.updatable, flatten: self.flatten, attrs: self.attrs.deep_view() }
    }
}

fn read_option(acc: Scanned, option: &NestedOption) -> (r: Result<Scanned, DeriveError>)
    ensures
        match r {
            Ok(read) => scan_option(acc.scan(), *option) == Ok::<Scan, DeriveError>(read.scan()),
            Err(e) => scan_option(acc.scan(), *option) == Err::<Scan, DeriveError>(e),
        },
{
    match option {
        NestedOption::Meta { name, form, values } => {
            if same_text(name.as_str(), "flatten") {
                match form {
                    MetaForm::Word => Ok(
                        Scanned { updatable: acc.updatable, flatten: true, attrs: acc.attrs },
                    ),
                    _ => Err(DeriveError::FlattenWithArguments),
                }
            } else if same_text(name.as_str(), "attr") {
                match form {
                    MetaForm::List => {
                        let ghost start = acc.attrs.deep_view();
                        let mut attrs = acc.attrs;
                        let mut k: usize = 0;
                        while k < values.len()
                            invariant
                                k <= values.len(),
                                attrs.deep_view() == start + bracketed_all(values@.take(k as int)),
                            decreases values.len() - k,
                        {
                            let ghost before = attrs.deep_view();
                            attrs.push(join3("#[", values[k].as_str(), "]"));
                            assert(attrs.deep_view() =~= before.push(bracketed(values@[k as int]@)));
                            assert(bracketed_all(values@.take(k + 1)) =~= bracketed_all(
                                values@.take(k as int),
                            ).push(bracketed(values@[k as int]@)));
                            k = k + 1;
                        }
                        assert(values@.take(values.len() as int) == values@);
                        Ok(Scanned { updatable: acc.updatable, flatten: acc.flatten, attrs })
                    },
                    _ => Err(DeriveError::MalformedAttr),
                }
            } else {
                Err(DeriveError::UnexpectedOption)
            }
        },
        NestedOption::Literal => Err(DeriveError::UnexpectedOption),
    }
}

fn read_attribute(acc: Scanned, attribute: &Attribute) -> (r: Result<Scanned, DeriveError>)
    ensures
        match r {
            Ok(read) => scan_attribute(acc.scan(), *attribute) == Ok::<Scan, DeriveError>(
                read.scan(),
            ),
            Err(e) => scan_attribute(acc.scan(), *attribute) == Err::<Scan, DeriveError>(e),
        },
{
    match attribute {
        Attribute::Unparseable => Err(DeriveError::UnparseableAttribute),
        Attribute::Meta { name, form, nested } => {
            if same_text(name.as_str(), "updatable") {
                match form {
                    MetaForm::Word => Ok(
                        Scanned { updatable: true, flatten: acc.flatten, attrs: acc.attrs },
                    ),
                    MetaForm::NameValue => Err(DeriveError::ExpectedWordOrList),
                    MetaForm::List => {
                        let ghost goal = scan_attribute(acc.scan(), *attribute);
                        let mut read = Scanned {
                            updatable: true,
                            flatten: acc.flatten,
                            attrs: acc.attrs,
                        };
                        let ghost start = read.scan();
                        assert(goal == scan_options(start, nested@));
                        let mut j: usize = 0;
                        while j < nested.len()
                            invariant
                                j <= nested.len(),
                                goal == scan_attribute(acc.scan(), *attribute),
                                goal == scan_options(start, nested@),
                                scan_options(start, nested@.take(j as int)) == Ok::<
                                    Scan,
                                    DeriveError,
                                >(read.scan()),
                            decreases nested.len() - j,
                        {
                            assert(nested@.take(j + 1).drop_last() == nested@.take(j as int));
                            match read_option(read, &nested[j]) {
                                Ok(next) => {
                                    read = next;
                                },
                                Err(e) => {
                                    proof {
                                        scan_stops_at_first_error(
                                            start,
                                            nested@,
                                            j + 1,
                                        );
                                    }
                                    return Err(e);
                                },
                            }
                            j = j + 1;
                        }
                        assert(nested@.take(nested.len() as int) == nested@);
                        Ok(read)
                    },
                }
            } else {
                Ok(acc)
            }
        },
    }
}

/// Once reading a list of options has failed, the rest of the list is
/// never looked at.
proof fn scan_stops_at_first_error(acc: Scan, options: Seq<NestedOption>, n: int)
    requires
        0 <= n <= options.len(),
        scan_options(acc, options.take(n)) is Err,
    ensures
        scan_options(acc, options) == scan_options(acc, options.take(n)),
    decreases options.len() - n,
{
    if n < options.len() {
        assert(options.take(n + 1).drop_last() == options.take(n));
        scan_stops_at_first_error(acc, options, n + 1);
    } else {
        assert(options.take(n) == options);
    }
}

/// Once reading a list of attributes has failed, the rest of the list is
/// never looked at.
proof fn attributes_stop_at_first_error(attributes: Seq<Attribute>, n: int)
    requires
        0 <= n <= attributes.len(),
        scan_attributes(attributes.take(n)) is Err,
    ensures
        scan_attributes(attributes) == scan_attributes(attributes.take(n)),
    decreases attributes.len() - n,
{
    if n < attributes.len() {
        assert(attributes.take(n + 1).drop_last() == attributes.take(n));
        attributes_stop_at_first_error(attributes, n + 1);
    } else {
        assert(attributes.take(n) == attributes);
    }
}

/// The options of a field as a mathematical value.
pub struct FieldOptionsView {
    pub flatten: bool,
    pub attrs: Seq<Seq<char>>,
}

impl DeepView for UpdatableFieldOptions {
    type V = FieldOptionsView;

    open spec fn deep_view(&self) -> FieldOptionsView {
        FieldOptionsView { flatten: self.flatten, attrs: self.attrs.deep_view() }
    }
}

/// What the attributes of a field say about it: nothing, if none of them
/// is `updatable`; otherwise whether it is flattened, and its attributes,
/// namely those passed through by `attr(..)` followed by the one for
/// serde. The first attribute or option that breaks a rule decides the
/// error.
pub open spec fn spec_field_options(attributes: Seq<Attribute>) -> Result<
    Option<FieldOptionsView>,
    DeriveError,
> {
    match scan_attributes(attributes) {
        Err(e) => Err(e),
        Ok(scan) => if scan.updatable {
            Ok(
                Some(
                    FieldOptionsView {
                        flatten: scan.flatten,
                        attrs: scan.attrs.push(serde_attr(scan.flatten)),
                    },
                ),
            )
        } else {
            Ok(None)
        },
    }
}

/// If the field that carries `attributes` is marked with `#[updatable]`
/// or `#[updatable(..)]`, return all relevant information.
pub fn updatable_field_options(attributes: &Vec<Attribute>) -> (r: Result<
    Option<UpdatableFieldOptions>,
    DeriveError,
>)
    ensures
        match r {
            Ok(Some(options)) => spec_field_options(attributes@) == Ok::<
                Option<FieldOptionsView>,
                DeriveError,
            >(Some(options.deep_view())),
            Ok(None) => spec_field_options(attributes@) == Ok::<
                Option<FieldOptionsView>,
                DeriveError,
            >(None),
            Err(e) => spec_field_options(attributes@) == Err::<
                Option<FieldOptionsView>,
                DeriveError,
            >(e),
        },
{
    let mut read = Scanned { updatable: false, flatten: false, attrs: Vec::new() };
    assert(read.attrs.deep_view() =~= Seq::<Seq<char>>::empty());
    let mut i: usize = 0;
    while i < attributes.len()
        invariant
            i <= attributes.len(),
            scan_attributes(attributes@.take(i as int)) == Ok::<Scan, DeriveError>(read.scan()),
        decreases attributes.len() - i,
    {
        assert(attributes@.take(i + 1).drop_last() == attributes@.take(i as int));
        match read_attribute(read, &attributes[i]) {
            Ok(next) => {
                read = next;
            },
            Err(e) => {
                proof {
                    attributes_stop_at_first_error(attributes@, i + 1);
                }
                return Err(e);
            },
        }
        i = i + 1;
    }
    assert(attributes@.take(attributes.len() as int) == attributes@);
    if read.updatable {
        let flatten = read.flatten;
        let mut attrs = read.attrs;
        let ghost before = attrs.deep_view();
        if flatten {
            attrs.push(String::from_str("#[serde(flatten)]"));
        } else {
            attrs.push(String::from_str("#[serde(skip_serializing_if = \"Option::is_none\")]"));
        }
        assert(attrs.deep_view() =~= before.push(serde_attr(flatten)));
        Ok(Some(UpdatableFieldOptions { flatten, attrs }))
    } else {
        Ok(None)
    }
}

/// A field of the struct that the derive is applied to.
#[derive(Debug, Clone, PartialEq, Eq)]
pub struct Field {
    /// The attributes of the field, in order.
    pub attrs: Vec<Attribute>,
    /// The visibility of the field, as written.
    pub vis: String,
    /// The name of the field; a field of a tuple struct has none.
    pub ident: Option<String>,
    /// The type of the field, as written.
    pub ty: String,
}

/// The body of the type that the derive is applied to.
#[derive(Debug, Clone, PartialEq, Eq)]
pub enum Data {
    /// A struct with these fields.
    Struct(Vec<Field>),
    /// An enum.
    Enum,
    /// A union.
    Union,
}

/// The type that the derive is applied to.
#[derive(Debug, Clone, PartialEq, Eq)]
pub struct DeriveInput {
    /// The name of the type.
    pub ident: String,
    /// The visibility of the type, as written.
    pub vis: String,
    /// Its body.
    pub data: Data,
}

/// A field of the generated update type.
#[derive(Debug, Clone, PartialEq, Eq)]
pub struct UpdateField {
    /// The documentation of the field.
    pub comment: String,
    /// The attributes of the field, each written out in full.
    pub attrs: Vec<String>,
    /// The visibility of the field.
    pub vis: String,
    /// The name of the field.
    pub name: String,
    /// The type of the field.
    pub ty: String,
}

/// A generated field as a mathematical value.
pub struct UpdateFieldView {
    pub comment: Seq<char>,
    pub attrs: Seq<Seq<char>>,
    pub vis: Seq<char>,
    pub name: Seq<char>,
    pub ty: Seq<char>,
}

impl DeepView for UpdateField {
    type V = UpdateFieldView;

    open spec fn deep_view(&self) -> UpdateFieldView {
        UpdateFieldView {
            comment: self.comment@,
            attrs: self.attrs.deep_view(),
            vis: self.vis@,
            name: self.name@,
            ty: self.ty@,
        }
    }
}

/// The generated update type.
#[derive(Debug, Clone, PartialEq, Eq)]
pub struct UpdateType {
    /// The name of the type: that of the resource, followed by `Update`.
    pub name: String,
    /// The documentation of the type.
    pub comment: String,
    /// The visibility of the type: that of the resource.
    pub vis: String,
    /// The fields of the type.
    pub fields: Vec<UpdateField>,
}

/// The field generated for `field`, if it is updatable: an optional value
/// of the field's own update type, under the same name and visibility. An
/// updatable field without a name is an error.
pub open spec fn spec_update_field(field: Field) -> Result<Option<UpdateFieldView>, DeriveError> {
    match spec_field_options(field.attrs@) {
        Err(e) => Err(e),
        Ok(None) => Ok(None),
        Ok(Some(options)) => match field.ident {
            None => Err(DeriveError::TupleStruct),
            Some(name) => Ok(
                Some(
                    UpdateFieldView {
                        comment: "New value for `"@ + name@ + "` (optional)."@,
                        attrs: options.attrs,
                        vis: field.vis@,
                        name: name@,
                        ty: "Option<<"@ + field.ty@ + " as Updatable>::Update>"@,
                    },
                ),
            ),
        },
    }
}

/// The generated fields for `fields`, in their order, up to the first
/// error.
pub open spec fn spec_update_fields(fields: Seq<Field>) -> Result<
    Seq<UpdateFieldView>,
    DeriveError,
>
    decreases fields.len(),
{
    if fields.len() == 0 {
        Ok(Seq::empty())
    } else {
        match spec_update_fields(fields.drop_last()) {
            Err(e) => Err(e),
            Ok(generated) => match spec_update_field(fields.last()) {
                Err(e) => Err(e),
                Ok(None) => Ok(generated),
                Ok(Some(field)) => Ok(generated.push(field)),
            },
        }
    }
}

/// The fields of the update type for `ast`.
pub open spec fn spec_fields_for_update_type(ast: DeriveInput) -> Result<
    Seq<UpdateFieldView>,
    DeriveError,
> {
    match ast.data {
        Data::Struct(fields) => spec_update_fields(fields@),
        _ => Err(DeriveError::NotAStruct),
    }
}

proof fn fields_stop_at_first_error(fields: Seq<Field>, n: int)
    requires
        0 <= n <= fields.len(),
        spec_update_fields(fields.take(n)) is Err,
    ensures
        spec_update_fields(fields) == spec_update_fields(fields.take(n)),
    decreases fields.len() - n,
{
    if n < fields.len() {
        assert(fields.take(n + 1).drop_last() == fields.take(n));
        fields_stop_at_first_error(fields, n + 1);
    } else {
        assert(fields.take(n) == fields);
    }
}

/// The field generated for `field`, if it is updatable.
pub fn update_field(field: &Field) -> (r: Result<Option<UpdateField>, DeriveError>)
    ensures
        match r {
            Ok(Some(generated)) => spec_update_field(*field) == Ok::<
                Option<UpdateFieldView>,
                DeriveError,
            >(Some(generated.deep_view())),
            Ok(None) => spec_update_field(*field) == Ok::<Option<UpdateFieldView>, DeriveError>(
                None,
            ),
            Err(e) => spec_update_field(*field) == Err::<Option<UpdateFieldView>, DeriveError>(e),
        },
{
    match updatable_field_options(&field.attrs) {
        Err(e) => Err(e),
        Ok(None) => Ok(None),
        Ok(Some(options)) => match &field.ident {
            None => Err(DeriveError::TupleStruct),
            Some(name) => Ok(
                Some(
                    UpdateField {
                        comment: join3("New value for `", name.as_str(), "` (optional)."),
                        attrs: options.attrs,
                        vis: field.vis.clone(),
                        name: name.clone(),
                        ty: join3("Option<<", field.ty.as_str(), " as Updatable>::Update>"),
                    },
                ),
            ),
        },
    }
}

/// Find all `#[updatable]` fields of the resource, and return the list of
/// fields for its update type.
pub fn fields_for_update_type(ast: &DeriveInput) -> (r: Result<Vec<UpdateField>, DeriveError>)
    ensures
        match r {
            Ok(generated) => spec_fields_for_update_type(*ast) == Ok::<
                Seq<UpdateFieldView>,
                DeriveError,
            >(generated.deep_view()),
            Err(e) => spec_fields_for_update_type(*ast) == Err::<
                Seq<UpdateFieldView>,
                DeriveError,
            >(e),
        },
{
    match &ast.data {
        Data::Struct(fields) => {
            let mut generated: Vec<UpdateField> = Vec::new();
            assert(generated.deep_view() =~= Seq::<UpdateFieldView>::empty());
            let mut i: usize = 0;
            while i < fields.len()
                invariant
                    i <= fields.len(),
                    spec_fields_for_update_type(*ast) == spec_update_fields(fields@),
                    spec_update_fields(fields@.take(i as int)) == Ok::<
                        Seq<UpdateFieldView>,
                        DeriveError,
                    >(generated.deep_view()),
                decreases fields.len() - i,
            {
                assert(fields@.take(i + 1).drop_last() == fields@.take(i as int));
                match update_field(&fields[i]) {
                    Err(e) => {
                        proof {
                            fields_stop_at_first_error(fields@, i + 1);
                        }
                        return Err(e);
                    },
                    Ok(None) => {},
                    Ok(Some(field)) => {
                        let ghost before = generated.deep_view();
                        generated.push(field);
                        assert(generated.deep_view() =~= before.push(field.deep_view()));
                    },
                }
                i = i + 1;
            }
            assert(fields@.take(fields.len() as int) == fields@);
            Ok(generated)
        },
        _ => Err(DeriveError::NotAStruct),
    }
}

/// Describe the update type of the resource `ast`: it is called like the
/// resource with `Update` appended, is as visible as the resource, and
/// holds one optional field for each updatable field of the resource.
pub fn derive(ast: &DeriveInput) -> (r: Result<UpdateType, DeriveError>)
    ensures
        match r {
            Ok(update) => spec_fields_for_update_type(*ast) == Ok::<
                Seq<UpdateFieldView>,
                DeriveError,
            >(update.fields.deep_view()) && update.name@ == ast.ident@ + "Update"@
                && update.comment@ == "An update to `"@ + ast.ident@ + "`."@ && update.vis@
                == ast.vis@,
            Err(e) => spec_fields_for_update_type(*ast) == Err::<
                Seq<UpdateFieldView>,
                DeriveError,
            >(e),
        },
{
    match fields_for_update_type(ast) {
        Err(e) => Err(e),
        Ok(fields) => Ok(
            UpdateType {
                name: ast.ident.clone().concat("Update"),
                comment: join3("An update to `", ast.ident.as_str(), "`."),
                vis: ast.vis.clone(),
                fields,
            },
        ),
    }
}

/// Attributes other than `updatable` say nothing about updates: a field
/// whose attributes are all meta items, none of them called `updatable`,
/// is left out of the update type.
pub proof fn other_attributes_are_passed_over(attributes: Seq<Attribute>)
    requires
        forall|i: int|
            0 <= i < attributes.len() ==> (#[trigger] attributes[i] matches Attribute::Meta {
                name,
                ..
            } && name@ != "updatable"@),
    ensures
        spec_field_options(attributes) == Ok::<Option<FieldOptionsView>, DeriveError>(None),
        scan_attributes(attributes) == Ok::<Scan, DeriveError>(
            Scan { updatable: false, flatten: false, attrs: Seq::empty() },
        ),
    decreases attributes.len(),
{
    if attributes.len() > 0 {
        let front = attributes.drop_last();
        assert forall|i: int| 0 <= i < front.len() implies (#[trigger] front[i] matches Attribute::Meta {
            name,
            ..
        } && name@ != "updatable"@) by {
            assert(front[i] == attributes[i]);
        }
        other_attributes_are_passed_over(front);
        assert(attributes.last() == attributes[attributes.len() - 1]);
    }
}

/// The attribute for serde always comes last, and it is the one for
/// flattening exactly when the field is flattened.
pub proof fn serde_attribute_comes_last(attributes: Seq<Attribute>)
    ensures
        spec_field_options(attributes) matches Ok(Some(options)) ==> options.attrs.len() >= 1
            && options.attrs.last() == serde_attr(options.flatten),
{
}

/// Only fields marked `updatable` reach the update type, so it never has
/// more fields than the resource; and a resource none of whose fields
/// carries an attribute has an update type without fields.
pub proof fn update_type_is_no_larger(fields: Seq<Field>)
    ensures
        spec_update_fields(fields) matches Ok(generated) ==> generated.len() <= fields.len(),
        (forall|i: int| 0 <= i < fields.len() ==> fields[i].attrs@.len() == 0)
            ==> spec_update_fields(fields) == Ok::<Seq<UpdateFieldView>, DeriveError>(
            Seq::empty(),
        ),
    decreases fields.len(),
{
    if fields.len() > 0 {
        update_type_is_no_larger(fields.drop_last());
        if forall|i: int| 0 <= i < fields.len() ==> fields[i].attrs@.len() == 0 {
            assert forall|i: int| 0 <= i < fields.drop_last().len() implies fields.drop_last()[i].attrs@.len()
                == 0 by {
                assert(fields.drop_last()[i] == fields[i]);
            }
            assert(fields.last().attrs@.len() == 0);
        }
    }
}

} // verus!
