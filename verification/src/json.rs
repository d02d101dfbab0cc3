//! Conversion of JSON data into typed values, directed by the kind that
//! the data is to have.

use vstd::prelude::*;
use crate::error::{error, fail, Error, ErrorKind, ErrorV};
use crate::kind::{Kind, KindData, KindDataV, KindV};
use crate::lookup::record_named;
use crate::semantics::DocV;
use crate::tdoc::{lifted, TDoc};
use crate::text::str_eq;
use crate::thing::{find_key, views, Field, FieldV};
use crate::value::{fields_model, items_model, PropertyValue, PropertyValueV, Value, ValueV};

verus! {

/// A JSON datum. A number carries the integer that it is, if it is one
/// that fits 64 bits, and the bit pattern of the IEEE 754 binary64 number
/// nearest to it.
#[derive(Debug, PartialEq, Eq)]
pub enum Json {
    Null,
    Bool(bool),
    Number { integer: Option<i64>, decimal_bits: u64 },
    String(String),
    Array(Vec<Json>),
    Object(Vec<(String, Json)>),
}

/// Specification-level JSON datum.
pub enum JsonV {
    Null,
    Bool(bool),
    Number { integer: Option<i64>, decimal_bits: u64 },
    String(Seq<char>),
    Array(Seq<JsonV>),
    Object(Seq<(Seq<char>, JsonV)>),
}

/// The specification-level items of a list of JSON data.
pub open spec fn json_items(v: Vec<Json>) -> Seq<JsonV>
    decreases v,
{
    Seq::new(
        v.len() as nat,
        |i: int|
            if 0 <= i < v.len() {
                v[i].model()
            } else {
                arbitrary()
            },
    )
}

/// The specification-level members of a JSON object.
pub open spec fn json_members(v: Vec<(String, Json)>) -> Seq<(Seq<char>, JsonV)>
    decreases v,
{
    Seq::new(
        v.len() as nat,
        |i: int|
            if 0 <= i < v.len() {
                (v[i].0@, v[i].1.model())
            } else {
                arbitrary()
            },
    )
}

impl Json {
    /// The specification-level datum that this datum stands for.
    pub open spec fn model(self) -> JsonV
        decreases self,
    {
        match self {
            Json::Null => JsonV::Null,
            Json::Bool(b) => JsonV::Bool(b),
            Json::Number { integer, decimal_bits } => JsonV::Number { integer, decimal_bits },
            Json::String(s) => JsonV::String(s@),
            Json::Array(v) => JsonV::Array(json_items(v)),
            Json::Object(v) => JsonV::Object(json_members(v)),
        }
    }
}

impl View for Json {
    type V = JsonV;

    open spec fn view(&self) -> JsonV {
        self.model()
    }
}

/// The error of data that are not of the shape that the kind asks for.
pub open spec fn cannot_parse(doc: DocV, line_number: usize) -> ErrorV {
    error(ErrorKind::ParseError, "Can't parse"@, doc.name, line_number)
}

/// The error of a kind that data are not converted to.
pub open spec fn no_conversion(doc: DocV, line_number: usize) -> ErrorV {
    error(ErrorKind::InvalidKind, "no conversion to this kind"@, doc.name, line_number)
}

/// The error of a field of a record for which the data hold nothing.
pub open spec fn key_not_found(doc: DocV, key: Seq<char>, line_number: usize) -> ErrorV {
    error(ErrorKind::FieldNotFound, key, doc.name, line_number)
}

/// The literal property value that a converted value is kept as.
pub open spec fn converted(value: ValueV, line_number: usize) -> PropertyValueV {
    PropertyValueV::Value { value, is_mutable: false, line_number }
}

/// The value of a primitive kind that a JSON datum is; `None` for a kind
/// that is not primitive.
pub open spec fn json_primitive(json: JsonV, kind: KindV) -> Option<Option<ValueV>> {
    match kind {
        KindV::String => Some(
            match json {
                JsonV::String(text) => Some(ValueV::String { text }),
                _ => None,
            },
        ),
        KindV::Integer => Some(
            match json {
                JsonV::Number { integer: Some(value), .. } => Some(ValueV::Integer { value }),
                _ => None,
            },
        ),
        KindV::Decimal => Some(
            match json {
                JsonV::Number { decimal_bits, .. } => Some(ValueV::Decimal { bits: decimal_bits }),
                _ => None,
            },
        ),
        KindV::Boolean => Some(
            match json {
                JsonV::Bool(value) => Some(ValueV::Boolean { value }),
                _ => None,
            },
        ),
        _ => None,
    }
}

/// The value of kind `kind` that the JSON datum `json` stands for. A
/// string, an integer, a decimal and a boolean take the datum of their
/// sort; a record takes an object with a member for each of its fields; a
/// list takes an array; an optional takes `null` for an unset value and
/// any other datum as the kind inside would.
pub open spec fn json_value(doc: DocV, json: JsonV, kind: KindV, line_number: usize) -> Result<
    ValueV,
    ErrorV,
>
    decreases json, 0int, kind,
{
    match kind {
        KindV::Record { name } => match record_named(doc, name, line_number) {
            Err(e) => Err(e),
            Ok(record) => match json {
                JsonV::Object(members) => match json_fields(
                    doc,
                    members,
                    record.fields,
                    0,
                    Seq::empty(),
                    line_number,
                ) {
                    Err(e) => Err(e),
                    Ok(fields) => Ok(ValueV::Record { name, fields }),
                },
                _ => Err(cannot_parse(doc, line_number)),
            },
        },
        KindV::List { kind: item } => match json {
            JsonV::Array(list) => match json_list(doc, list, *item, 0, Seq::empty(), line_number) {
                Err(e) => Err(e),
                Ok(data) => Ok(
                    ValueV::List {
                        data,
                        kind: KindDataV { kind: *item, caption: false, body: false },
                    },
                ),
            },
            _ => Err(cannot_parse(doc, line_number)),
        },
        KindV::Optional { kind: inner } => match json {
            JsonV::Null => Ok(
                ValueV::Optional {
                    data: None,
                    kind: KindDataV { kind: *inner, caption: false, body: false },
                },
            ),
            _ => json_value(doc, json, *inner, line_number),
        },
        _ => match json_primitive(json, kind) {
            Some(Some(v)) => Ok(v),
            Some(None) => Err(cannot_parse(doc, line_number)),
            None => Err(no_conversion(doc, line_number)),
        },
    }
}

/// The fields of a record from position `from` on, each converted from the
/// member of its name, after those in `done`.
pub open spec fn json_fields(
    doc: DocV,
    members: Seq<(Seq<char>, JsonV)>,
    fields: Seq<FieldV>,
    from: int,
    done: Seq<(Seq<char>, PropertyValueV)>,
    line_number: usize,
) -> Result<Seq<(Seq<char>, PropertyValueV)>, ErrorV>
    decreases members, fields.len() - from,
{
    if from < 0 || from >= fields.len() {
        Ok(done)
    } else {
        let i = find_key(members, fields[from].name, 0);
        if i < 0 || i >= members.len() {
            Err(key_not_found(doc, fields[from].name, line_number))
        } else {
            match json_value(doc, members[i].1, fields[from].kind.kind, line_number) {
                Err(e) => Err(e),
                Ok(v) => json_fields(
                    doc,
                    members,
                    fields,
                    from + 1,
                    done.push((fields[from].name, converted(v, line_number))),
                    line_number,
                ),
            }
        }
    }
}

/// The items of a list from position `from` on, each converted to the kind
/// `kind`, after those in `done`.
pub open spec fn json_list(
    doc: DocV,
    list: Seq<JsonV>,
    kind: KindV,
    from: int,
    done: Seq<PropertyValueV>,
    line_number: usize,
) -> Result<Seq<PropertyValueV>, ErrorV>
    decreases list, list.len() - from,
{
    if from < 0 || from >= list.len() {
        Ok(done)
    } else {
        match json_value(doc, list[from], kind, line_number) {
            Err(e) => Err(e),
            Ok(v) => json_list(
                doc,
                list,
                kind,
                from + 1,
                done.push(converted(v, line_number)),
                line_number,
            ),
        }
    }
}

/// The fields of a record from position `from` on, each converted from the
/// datum at its position in the row, after those in `done`.
pub open spec fn row_fields(
    doc: DocV,
    row: Seq<JsonV>,
    fields: Seq<FieldV>,
    from: int,
    done: Seq<(Seq<char>, PropertyValueV)>,
    line_number: usize,
) -> Result<Seq<(Seq<char>, PropertyValueV)>, ErrorV>
    decreases fields.len() - from,
{
    if from < 0 || from >= fields.len() {
        Ok(done)
    } else if from >= row.len() {
        Err(key_not_found(doc, fields[from].name, line_number))
    } else {
        match json_value(doc, row[from], fields[from].kind.kind, line_number) {
            Err(e) => Err(e),
            Ok(v) => row_fields(
                doc,
                row,
                fields,
                from + 1,
                done.push((fields[from].name, converted(v, line_number))),
                line_number,
            ),
        }
    }
}

/// The value of kind `kind` that a row of data stands for: a record takes
/// the data in the order of its fields, a primitive kind the first datum.
#[verifier::opaque]
pub open spec fn row_value(doc: DocV, row: Seq<JsonV>, kind: KindV, line_number: usize) -> Result<
    ValueV,
    ErrorV,
> {
    match kind {
        KindV::Record { name } => match record_named(doc, name, line_number) {
            Err(e) => Err(e),
            Ok(record) => match row_fields(
                doc,
                row,
                record.fields,
                0,
                Seq::empty(),
                line_number,
            ) {
                Err(e) => Err(e),
                Ok(fields) => Ok(ValueV::Record { name, fields }),
            },
        },
        _ => if row.len() == 0 {
            Err(no_conversion(doc, line_number))
        } else {
            match json_primitive(row[0], kind) {
                Some(Some(v)) => Ok(v),
                Some(None) => Err(cannot_parse(doc, line_number)),
                None => Err(no_conversion(doc, line_number)),
            }
        },
    }
}

/// The rows from position `from` on, each converted to the kind `kind`,
/// after those in `done`.
pub open spec fn rows_list(
    doc: DocV,
    rows: Seq<Seq<JsonV>>,
    kind: KindV,
    from: int,
    done: Seq<PropertyValueV>,
    line_number: usize,
) -> Result<Seq<PropertyValueV>, ErrorV>
    decreases rows.len() - from,
{
    if from < 0 || from >= rows.len() {
        Ok(done)
    } else {
        match row_value(doc, rows[from], kind, line_number) {
            Err(e) => Err(e),
            Ok(v) => rows_list(
                doc,
                rows,
                kind,
                from + 1,
                done.push(converted(v, line_number)),
                line_number,
            ),
        }
    }
}

/// The list that rows of data stand for; the kind has to be a list kind.
pub open spec fn rows_value(doc: DocV, rows: Seq<Seq<JsonV>>, kind: KindV, line_number: usize)
    -> Result<ValueV, ErrorV> {
    match kind {
        KindV::List { kind: item } => match rows_list(
            doc,
            rows,
            *item,
            0,
            Seq::empty(),
            line_number,
        ) {
            Err(e) => Err(e),
            Ok(data) => Ok(
                ValueV::List { data, kind: KindDataV { kind: *item, caption: false, body: false } },
            ),
        },
        _ => Err(no_conversion(doc, line_number)),
    }
}

/// The views of the data of a list of rows.
pub open spec fn rows_view(rows: Seq<Vec<Json>>) -> Seq<Seq<JsonV>> {
    Seq::new(rows.len(), |i: int| json_items(rows[i]))
}

/// The specification-level form of converted fields or an error.
pub open spec fn fields_result(r: Result<Vec<(String, PropertyValue)>, Error>) -> Result<
    Seq<(Seq<char>, PropertyValueV)>,
    ErrorV,
> {
    match r {
        Ok(v) => Ok(fields_model(v)),
        Err(e) => Err(e@),
    }
}

/// The specification-level form of converted items or an error.
pub open spec fn items_result(r: Result<Vec<PropertyValue>, Error>) -> Result<
    Seq<PropertyValueV>,
    ErrorV,
> {
    match r {
        Ok(v) => Ok(items_model(v)),
        Err(e) => Err(e@),
    }
}

fn member_position(members: &Vec<(String, Json)>, key: &str) -> (r: Option<usize>)
    ensures
        match r {
            Some(i) => i < members.len() && i as int == find_key(json_members(*members), key@, 0),
            None => find_key(json_members(*members), key@, 0) == -1,
        },
{
    let mut i: usize = 0;
    while i < members.len()
        invariant
            i <= members.len(),
            find_key(json_members(*members), key@, 0) == find_key(
                json_members(*members),
                key@,
                i as int,
            ),
        decreases members.len() - i,
    {
        if str_eq(members[i].0.as_str(), key) {
            return Some(i);
        }
        i += 1;
    }
    None
}

/// The value of a primitive kind that a JSON datum is.
fn primitive_of(json: &Json, kind: &Kind) -> (r: Option<Option<Value>>)
    ensures
        match r {
            Some(Some(v)) => json_primitive(json@, kind@) == Some(Some(v@)),
            Some(None) => json_primitive(json@, kind@) == Some(None::<ValueV>),
            None => json_primitive(json@, kind@).is_none(),
        },
{
    match kind {
        Kind::String => Some(
            match json {
                Json::String(text) => Some(Value::String { text: text.clone() }),
                _ => None,
            },
        ),
        Kind::Integer => Some(
            match json {
                Json::Number { integer: Some(value), .. } => Some(Value::Integer { value: *value }),
                _ => None,
            },
        ),
        Kind::Decimal => Some(
            match json {
                Json::Number { decimal_bits, .. } => Some(Value::Decimal { bits: *decimal_bits }),
                _ => None,
            },
        ),
        Kind::Boolean => Some(
            match json {
                Json::Bool(value) => Some(Value::Boolean { value: *value }),
                _ => None,
            },
        ),
        _ => None,
    }
}

fn primitive_or_error(doc: &TDoc, json: &Json, kind: &Kind, line_number: usize) -> (r: Result<
    Value,
    Error,
>)
    ensures
        lifted(r) == match json_primitive(json@, kind@) {
            Some(Some(v)) => Ok::<ValueV, ErrorV>(v),
            Some(None) => Err(cannot_parse(doc@, line_number)),
            None => Err(no_conversion(doc@, line_number)),
        },
{
    match primitive_of(json, kind) {
        Some(Some(v)) => Ok(v),
        Some(None) => fail(ErrorKind::ParseError, "Can't parse", doc.name, line_number),
        None => fail(ErrorKind::InvalidKind, "no conversion to this kind", doc.name, line_number),
    }
}

fn as_json_at(doc: &TDoc, line_number: usize, json: &Json, kind: &Kind) -> (r: Result<Value, Error>)
    ensures
        lifted(r) == json_value(doc@, json@, kind@, line_number),
    decreases json, 0int, kind,
{
    match kind {
        Kind::Record { name } => {
            let record = match doc.get_record(name.as_str(), line_number) {
                Err(e) => {
                    return Err(e);
                },
                Ok(r) => r,
            };
            match json {
                Json::Object(members) => {
                    match fields_from(doc, line_number, members, &record.fields) {
                        Err(e) => Err(e),
                        Ok(fields) => Ok(Value::Record { name: name.clone(), fields }),
                    }
                },
                _ => fail(ErrorKind::ParseError, "Can't parse", doc.name, line_number),
            }
        },
        Kind::List { kind: item } => match json {
            Json::Array(list) => match list_from(doc, line_number, list, item) {
                Err(e) => Err(e),
                Ok(data) => Ok(Value::List { data, kind: KindData::new((**item).clone()) }),
            },
            _ => fail(ErrorKind::ParseError, "Can't parse", doc.name, line_number),
        },
        Kind::Optional { kind: inner } => match json {
            Json::Null => Ok(
                Value::Optional { data: Box::new(None), kind: KindData::new((**inner).clone()) },
            ),
            _ => as_json_at(doc, line_number, json, inner),
        },
        _ => primitive_or_error(doc, json, kind, line_number),
    }
}

fn fields_from(
    doc: &TDoc,
    line_number: usize,
    members: &Vec<(String, Json)>,
    fields: &Vec<Field>,
) -> (r: Result<Vec<(String, PropertyValue)>, Error>)
    ensures
        fields_result(r) == json_fields(
            doc@,
            json_members(*members),
            views(fields@),
            0,
            Seq::empty(),
            line_number,
        ),
    decreases members, 0int,
{
    let mut out: Vec<(String, PropertyValue)> = Vec::new();
    let mut k: usize = 0;
    assert(fields_model(out) =~= Seq::empty());
    while k < fields.len()
        invariant
            k <= fields.len(),
            json_fields(doc@, json_members(*members), views(fields@), 0, Seq::empty(), line_number)
                == json_fields(
                doc@,
                json_members(*members),
                views(fields@),
                k as int,
                fields_model(out),
                line_number,
            ),
        decreases fields.len() - k,
    {
        let field = &fields[k];
        let i = match member_position(members, field.name.as_str()) {
            None => {
                return fail(
                    ErrorKind::FieldNotFound,
                    field.name.as_str(),
                    doc.name,
                    line_number,
                );
            },
            Some(i) => i,
        };
        assert(decreases_to!(members => members[i as int]));
        assert(json_members(*members)[i as int].1 == members[i as int].1@);
        match as_json_at(doc, line_number, &members[i].1, &field.kind.kind) {
            Err(e) => {
                return Err(e);
            },
            Ok(v) => {
                let ghost before = fields_model(out);
                out.push(
                    (
                        field.name.clone(),
                        PropertyValue::Value { value: v, is_mutable: false, line_number },
                    ),
                );
                assert(fields_model(out) =~= before.push(
                    (field@.name, converted(v@, line_number)),
                ));
            },
        }
        k += 1;
    }
    Ok(out)
}

fn list_from(doc: &TDoc, line_number: usize, list: &Vec<Json>, kind: &Kind) -> (r: Result<
    Vec<PropertyValue>,
    Error,
>)
    ensures
        items_result(r) == json_list(doc@, json_items(*list), kind@, 0, Seq::empty(), line_number),
    decreases list, 0int,
{
    let mut out: Vec<PropertyValue> = Vec::new();
    let mut k: usize = 0;
    assert(items_model(out) =~= Seq::empty());
    while k < list.len()
        invariant
            k <= list.len(),
            json_list(doc@, json_items(*list), kind@, 0, Seq::empty(), line_number) == json_list(
                doc@,
                json_items(*list),
                kind@,
                k as int,
                items_model(out),
                line_number,
            ),
        decreases list.len() - k,
    {
        assert(decreases_to!(list => list[k as int]));
        assert(json_items(*list)[k as int] == list[k as int]@);
        match as_json_at(doc, line_number, &list[k], kind) {
            Err(e) => {
                return Err(e);
            },
            Ok(v) => {
                let ghost before = items_model(out);
                out.push(PropertyValue::Value { value: v, is_mutable: false, line_number });
                assert(items_model(out) =~= before.push(converted(v@, line_number)));
            },
        }
        k += 1;
    }
    Ok(out)
}

fn row_fields_from(doc: &TDoc, line_number: usize, row: &Vec<Json>, fields: &Vec<Field>) -> (r:
    Result<Vec<(String, PropertyValue)>, Error>)
    ensures
        fields_result(r) == row_fields(
            doc@,
            json_items(*row),
            views(fields@),
            0,
            Seq::empty(),
            line_number,
        ),
{
    let mut out: Vec<(String, PropertyValue)> = Vec::new();
    let mut k: usize = 0;
    assert(fields_model(out) =~= Seq::empty());
    while k < fields.len()
        invariant
            k <= fields.len(),
            row_fields(doc@, json_items(*row), views(fields@), 0, Seq::empty(), line_number)
                == row_fields(
                doc@,
                json_items(*row),
                views(fields@),
                k as int,
                fields_model(out),
                line_number,
            ),
        decreases fields.len() - k,
    {
        let field = &fields[k];
        if k >= row.len() {
            return fail(ErrorKind::FieldNotFound, field.name.as_str(), doc.name, line_number);
        }
        assert(json_items(*row)[k as int] == row[k as int]@);
        match as_json_at(doc, line_number, &row[k], &field.kind.kind) {
            Err(e) => {
                return Err(e);
            },
            Ok(v) => {
                let ghost before = fields_model(out);
                out.push(
                    (
                        field.name.clone(),
                        PropertyValue::Value { value: v, is_mutable: false, line_number },
                    ),
                );
                assert(fields_model(out) =~= before.push(
                    (field@.name, converted(v@, line_number)),
                ));
            },
        }
        k += 1;
    }
    Ok(out)
}

impl<'a> TDoc<'a> {
    /// The value of kind `kind` that the JSON datum stands for.
    pub fn from_json(&self, json: &Json, kind: &Kind, line_number: usize) -> (r: Result<
        Value,
        Error,
    >)
        ensures
            lifted(r) == json_value(self@, json@, kind@, line_number),
    {
        as_json_at(self, line_number, json, kind)
    }

    /// The value of kind `kind` that a row of data stands for.
    pub fn from_json_row(&self, row: &Vec<Json>, kind: &Kind, line_number: usize) -> (r: Result<
        Value,
        Error,
    >)
        ensures
            lifted(r) == row_value(self@, json_items(*row), kind@, line_number),
    {
        reveal(row_value);
        match kind {
            Kind::Record { name } => {
                let record = match self.get_record(name.as_str(), line_number) {
                    Err(e) => {
                        return Err(e);
                    },
                    Ok(r) => r,
                };
                match row_fields_from(self, line_number, row, &record.fields) {
                    Err(e) => Err(e),
                    Ok(fields) => Ok(Value::Record { name: name.clone(), fields }),
                }
            },
            _ => {
                if row.len() == 0 {
                    return fail(
                        ErrorKind::InvalidKind,
                        "no conversion to this kind",
                        self.name,
                        line_number,
                    );
                }
                assert(json_items(*row)[0] == row[0]@);
                primitive_or_error(self, &row[0], kind, line_number)
            },
        }
    }

    /// The list that rows of data stand for.
    pub fn from_json_rows(&self, rows: &Vec<Vec<Json>>, kind: &Kind, line_number: usize) -> (r:
        Result<Value, Error>)
        ensures
            lifted(r) == rows_value(self@, rows_view(rows@), kind@, line_number),
    {
        match kind {
            Kind::List { kind: item } => match rows_from(self, rows, item, line_number) {
                Err(e) => Err(e),
                Ok(data) => Ok(Value::List { data, kind: KindData::new((**item).clone()) }),
            },
            _ => fail(
                ErrorKind::InvalidKind,
                "no conversion to this kind",
                self.name,
                line_number,
            ),
        }
    }
}

fn rows_from(doc: &TDoc, rows: &Vec<Vec<Json>>, item: &Kind, line_number: usize) -> (r: Result<
    Vec<PropertyValue>,
    Error,
>)
    ensures
        items_result(r) == rows_list(doc@, rows_view(rows@), item@, 0, Seq::empty(), line_number),
{
    let mut out: Vec<PropertyValue> = Vec::new();
    let mut k: usize = 0;
    assert(items_model(out) =~= Seq::empty());
    while k < rows.len()
        invariant
            k <= rows.len(),
            rows_list(doc@, rows_view(rows@), item@, 0, Seq::empty(), line_number) == rows_list(
                doc@,
                rows_view(rows@),
                item@,
                k as int,
                items_model(out),
                line_number,
            ),
        decreases rows.len() - k,
    {
        assert(rows_view(rows@)[k as int] == json_items(rows[k as int]));
        let converted_row = doc.from_json_row(&rows[k], item, line_number);
        match converted_row {
            Err(e) => {
                return Err(e);
            },
            Ok(v) => {
                let ghost before = items_model(out);
                out.push(PropertyValue::Value { value: v, is_mutable: false, line_number });
                assert(items_model(out) =~= before.push(converted(v@, line_number)));
            },
        }
        k += 1;
    }
    Ok(out)
}

} // verus!
