//! Building the operation that writes a bookmark.

use crate::error::BuildError;
use p2panda_rs::operation::error::OperationBuilderError;
use p2panda_rs::operation::plain::PlainOperation;
use p2panda_rs::operation::{OperationBuilder, OperationValue};
use p2panda_rs::schema::error::SchemaIdError;
use p2panda_rs::schema::SchemaId;
use vstd::prelude::*;
use vstd::string::StringExecFns;

verus! {

/// The value that an operation gives to a field.
#[derive(Debug, PartialEq, Eq)]
pub enum FieldValue {
    Text(String),
    Integer(i64),
}

/// One field assignment of an operation.
#[derive(Debug, PartialEq, Eq)]
pub struct Field {
    pub name: String,
    pub value: FieldValue,
}

/// Mathematical value of a [`FieldValue`].
pub enum FieldValueView {
    Text(Seq<char>),
    Integer(i64),
}

/// Mathematical value of a [`Field`].
pub struct FieldView {
    pub name: Seq<char>,
    pub value: FieldValueView,
}

impl View for FieldValue {
    type V = FieldValueView;

    open spec fn view(&self) -> FieldValueView {
        match self {
            FieldValue::Text(t) => FieldValueView::Text(t@),
            FieldValue::Integer(n) => FieldValueView::Integer(*n),
        }
    }
}

impl View for Field {
    type V = FieldView;

    open spec fn view(&self) -> FieldView {
        FieldView { name: self.name@, value: self.value@ }
    }
}

impl Clone for FieldValue {
    fn clone(&self) -> (copy: Self)
        ensures
            copy == *self,
    {
        match self {
            FieldValue::Text(t) => FieldValue::Text(t.clone()),
            FieldValue::Integer(n) => FieldValue::Integer(*n),
        }
    }
}

impl Clone for Field {
    fn clone(&self) -> (copy: Self)
        ensures
            copy == *self,
    {
        Field { name: self.name.clone(), value: self.value.clone() }
    }
}

/// The values of a list of fields, in the same order.
pub open spec fn field_views(fields: Seq<Field>) -> Seq<FieldView> {
    fields.map_values(|f: Field| f@)
}

/// The value that the list gives to the field `name`: that of the first
/// assignment under that name, as later ones are not taken up.
pub open spec fn assigned(fields: Seq<FieldView>, name: Seq<char>) -> Option<FieldValueView>
    decreases fields.len(),
{
    if fields.len() == 0 {
        None
    } else if fields[0].name == name {
        Some(fields[0].value)
    } else {
        assigned(fields.drop_first(), name)
    }
}

/// The list assigns what a bookmark needs: a `url` that is a text and not
/// empty, a `description` that is a text, and a `timestamp` that is an
/// integer.
pub open spec fn shape_is_complete(fields: Seq<FieldView>) -> bool {
    &&& assigned(fields, "url"@) matches Some(FieldValueView::Text(url)) && url.len() > 0
    &&& assigned(fields, "description"@) matches Some(FieldValueView::Text(_))
    &&& assigned(fields, "timestamp"@) matches Some(FieldValueView::Integer(_))
}

/// Whether `text` is a schema identifier: a schema's name, `_`, and the view
/// identifier of the document that defines it; or the name and version of a
/// system schema.
pub uninterp spec fn schema_id_is_valid(text: Seq<char>) -> bool;

/// A parsed schema identifier of `p2panda_rs`; nothing of its inside is
/// visible here.
#[verifier::external_type_specification]
#[verifier::external_body]
pub struct ExSchemaId(SchemaId);

/// The error with which `p2panda_rs` refuses a schema identifier.
#[verifier::external_type_specification]
#[verifier::external_body]
pub struct ExSchemaIdError(SchemaIdError);

/// The error with which the operation builder of `p2panda_rs` refuses to
/// build.
#[verifier::external_type_specification]
#[verifier::external_body]
pub struct ExOperationBuilderError(OperationBuilderError);

/// An operation of `p2panda_rs` in the form in which it is encoded and
/// sent; nothing of its inside is visible here.
#[verifier::external_type_specification]
#[verifier::external_body]
pub struct ExPlainOperation(PlainOperation);

/// The schema identifier that `text` is parsed to, where it is one.
pub uninterp spec fn parsed_schema_id(text: Seq<char>) -> SchemaId;

/// Calls `p2panda_rs::schema::SchemaId::new`. Whether it accepts `text`, and
/// what it makes of it, are functions of the text alone:
/// [`schema_id_is_valid`] and [`parsed_schema_id`] are their names.
#[verifier::external_body]
fn parse_schema_id(text: &str) -> (parsed: Result<SchemaId, SchemaIdError>)
    ensures
        parsed is Ok <==> schema_id_is_valid(text@),
        parsed is Ok ==> parsed->Ok_0 == parsed_schema_id(text@),
{
    SchemaId::new(text)
}

/// A field's value in the form in which `p2panda_rs` takes it; nothing of
/// its inside is visible here.
#[verifier::external_type_specification]
#[verifier::external_body]
pub struct ExOperationValue(OperationValue);

/// The `OperationValue::String` of `p2panda_rs` that holds `text`.
pub uninterp spec fn text_value_of(text: Seq<char>) -> OperationValue;

/// The `OperationValue::Integer` of `p2panda_rs` that holds `number`.
pub uninterp spec fn integer_value_of(number: i64) -> OperationValue;

/// The plain form of the operation that creates a document under `schema`
/// with these assignments, each a field's name and its value.
pub uninterp spec fn created_operation(
    schema: SchemaId,
    assignments: Seq<(Seq<char>, OperationValue)>,
) -> PlainOperation;

/// Makes the `OperationValue::String` of `p2panda_rs` that holds `text`,
/// which [`text_value_of`] names.
#[verifier::external_body]
fn text_value(text: &String) -> (value: OperationValue)
    ensures
        value == text_value_of(text@),
{
    OperationValue::String(text.clone())
}

/// Makes the `OperationValue::Integer` of `p2panda_rs` that holds `number`,
/// which [`integer_value_of`] names.
#[verifier::external_body]
fn integer_value(number: i64) -> (value: OperationValue)
    ensures
        value == integer_value_of(number),
{
    OperationValue::Integer(number)
}

/// The value of a field in the form in which the builder takes it.
pub open spec fn builder_value(value: FieldValueView) -> OperationValue {
    match value {
        FieldValueView::Text(text) => text_value_of(text),
        FieldValueView::Integer(number) => integer_value_of(number),
    }
}

/// The assignments in the form in which the builder takes them, in the same
/// order.
pub open spec fn builder_pairs(fields: Seq<FieldView>) -> Seq<(Seq<char>, OperationValue)> {
    fields.map_values(|f: FieldView| (f.name, builder_value(f.value)))
}

/// The names and values of a list of pairs, in the same order.
pub open spec fn pair_views(pairs: Seq<(String, OperationValue)>) -> Seq<
    (Seq<char>, OperationValue),
> {
    pairs.map_values(|pair: (String, OperationValue)| (pair.0@, pair.1))
}

/// Calls `p2panda_rs::operation::OperationBuilder`: `new` with the schema,
/// `fields` with the assignments, then `build`, and hands the operation on
/// in its plain form. The builder starts out as one for a document's first
/// operation, with nothing that came before, and `build` refuses such an
/// operation only where no fields were set, so with `fields` called it gives
/// `Ok`. Of assignments under one name `fields` takes up the first. What is
/// built is a function of the schema and the assignments alone, and
/// [`created_operation`] is the name of that function.
#[verifier::external_body]
fn create_operation(schema: &SchemaId, fields: &Vec<(String, OperationValue)>) -> (built: Result<
    PlainOperation,
    OperationBuilderError,
>)
    ensures
        built is Ok,
        built->Ok_0 == created_operation(*schema, pair_views(fields@)),
{
    let built = OperationBuilder::new(schema).fields(fields).build()?;
    Ok(PlainOperation::from(&built))
}

/// The plain form of the operation that creates a document under the schema
/// with the identifier `schema_id` and with the assignments `fields`: what
/// the builder makes of the parsed identifier and of each field's name and
/// value.
pub open spec fn plain_operation_of(
    schema_id: Seq<char>,
    fields: Seq<FieldView>,
) -> PlainOperation {
    created_operation(parsed_schema_id(schema_id), builder_pairs(fields))
}

/// An unsigned operation that creates a bookmark document: the schema it is
/// written under, its field assignments, and the form of it that is encoded
/// and sent.
#[derive(Debug)]
pub struct Operation {
    schema_id: String,
    fields: Vec<Field>,
    plain: PlainOperation,
}

impl Operation {
    /// The schema identifier that the operation is tagged with.
    pub closed spec fn schema_id_text(&self) -> Seq<char> {
        self.schema_id@
    }

    /// The field assignments of the operation.
    pub closed spec fn assignments(&self) -> Seq<FieldView> {
        field_views(self.fields@)
    }

    /// The form of the operation that the builder made.
    pub closed spec fn plain_form(&self) -> PlainOperation {
        self.plain
    }

    /// The schema identifier that the operation is tagged with.
    pub fn schema_id(&self) -> (text: &String)
        ensures
            text@ == self.schema_id_text(),
    {
        &self.schema_id
    }

    /// The field assignments of the operation.
    pub fn fields(&self) -> (fields: &Vec<Field>)
        ensures
            field_views(fields@) == self.assignments(),
    {
        &self.fields
    }

    /// The form of the operation that is encoded, signed and sent: the one
    /// that the builder made when this operation was built.
    pub fn plain(&self) -> (plain: &PlainOperation)
        ensures
            *plain == self.plain_form(),
    {
        &self.plain
    }
}

/// The value that `fields` gives to the field `name`.
fn lookup<'a>(fields: &'a Vec<Field>, name: &String) -> (found: Option<&'a FieldValue>)
    ensures
        match found {
            Some(value) => assigned(field_views(fields@), name@) == Some(value@),
            None => assigned(field_views(fields@), name@) is None,
        },
{
    let ghost all = field_views(fields@);
    let mut i: usize = 0;
    assert(all.skip(0) =~= all);
    while i < fields.len()
        invariant
            i <= fields@.len(),
            all == field_views(fields@),
            assigned(all, name@) == assigned(all.skip(i as int), name@),
        decreases fields@.len() - i,
    {
        if fields[i].name == *name {
            assert(all.skip(i as int)[0] == fields@[i as int]@);
            return Some(&fields[i].value);
        }
        assert(all.skip(i as int)[0] == fields@[i as int]@);
        assert(all.skip(i as int).drop_first() =~= all.skip(i + 1));
        i = i + 1;
    }
    assert(all.skip(i as int).len() == 0);
    None
}

/// The assignments in the form in which the operation builder takes them:
/// one pair for each field, in the same order.
fn as_pairs(fields: &Vec<Field>) -> (pairs: Vec<(String, OperationValue)>)
    ensures
        pair_views(pairs@) == builder_pairs(field_views(fields@)),
{
    let mut pairs: Vec<(String, OperationValue)> = Vec::new();
    let mut i: usize = 0;
    while i < fields.len()
        invariant
            i <= fields@.len(),
            pairs@.len() == i,
            forall|j: int|
                0 <= j < i ==> (#[trigger] pairs@[j]).0@ == fields@[j].name@ && pairs@[j].1
                    == builder_value(fields@[j].value@),
        decreases fields@.len() - i,
    {
        let value = match &fields[i].value {
            FieldValue::Text(text) => text_value(text),
            FieldValue::Integer(number) => integer_value(*number),
        };
        pairs.push((fields[i].name.clone(), value));
        i = i + 1;
    }
    assert(pair_views(pairs@) =~= builder_pairs(field_views(fields@)));
    pairs
}

/// Whether `fields` assigns what a bookmark needs.
fn is_complete(fields: &Vec<Field>) -> (complete: bool)
    ensures
        complete == shape_is_complete(field_views(fields@)),
{
    let url = String::from_str("url");
    let description = String::from_str("description");
    let timestamp = String::from_str("timestamp");
    let url_ok = match lookup(fields, &url) {
        Some(FieldValue::Text(text)) => !text.as_str().is_empty(),
        _ => false,
    };
    let description_ok = match lookup(fields, &description) {
        Some(FieldValue::Text(_)) => true,
        _ => false,
    };
    let timestamp_ok = match lookup(fields, &timestamp) {
        Some(FieldValue::Integer(_)) => true,
        _ => false,
    };
    url_ok && description_ok && timestamp_ok
}

/// Builds the operation that creates a bookmark document under the schema
/// `schema_id` with the assignments `fields`.
///
/// A malformed schema identifier gives `InvalidSchema`. Under a well-formed
/// one, a list that does not assign what a bookmark needs gives
/// `MissingField`. Nothing is sent, and nothing is signed yet.
pub fn build(schema_id: &str, fields: Vec<Field>) -> (built: Result<Operation, BuildError>)
    ensures
        match built {
            Ok(operation) => {
                &&& schema_id_is_valid(schema_id@)
                &&& shape_is_complete(field_views(fields@))
                &&& operation.schema_id_text() == schema_id@
                &&& operation.assignments() == field_views(fields@)
                &&& operation.plain_form() == plain_operation_of(
                    schema_id@,
                    field_views(fields@),
                )
            },
            Err(BuildError::InvalidSchema) => !schema_id_is_valid(schema_id@),
            Err(BuildError::MissingField) => schema_id_is_valid(schema_id@) && !shape_is_complete(
                field_views(fields@),
            ),
        },
{
    build_under(schema_id, parse_schema_id(schema_id), fields)
}

/// Builds the operation, given what the parser made of `schema_id`: where
/// it refused the identifier, `InvalidSchema`; where it took it and the
/// list does not assign what a bookmark needs, `MissingField`; otherwise the
/// operation under that schema with these assignments.
pub fn build_under(
    schema_id: &str,
    parsed: Result<SchemaId, SchemaIdError>,
    fields: Vec<Field>,
) -> (built: Result<Operation, BuildError>)
    ensures
        match built {
            Ok(operation) => {
                &&& parsed is Ok
                &&& shape_is_complete(field_views(fields@))
                &&& operation.schema_id_text() == schema_id@
                &&& operation.assignments() == field_views(fields@)
                &&& operation.plain_form() == created_operation(
                    parsed->Ok_0,
                    builder_pairs(field_views(fields@)),
                )
            },
            Err(BuildError::InvalidSchema) => parsed is Err,
            Err(BuildError::MissingField) => parsed is Ok && !shape_is_complete(
                field_views(fields@),
            ),
        },
{
    let schema = match parsed {
        Ok(schema) => schema,
        Err(_) => {
            return Err(BuildError::InvalidSchema);
        },
    };
    if !is_complete(&fields) {
        return Err(BuildError::MissingField);
    }
    let pairs = as_pairs(&fields);
    match create_operation(&schema, &pairs) {
        Ok(plain) => Ok(Operation { schema_id: String::from_str(schema_id), fields, plain }),
        Err(_) => Err(BuildError::MissingField),
    }
}

} // verus!
