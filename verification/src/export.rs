//! The texts that structured data is exported as.

use crate::text::{same_text, table_view, texts};
use vstd::prelude::*;

verus! {

/// A JSON value, as far as the export reads it.
#[derive(Debug)]
pub enum JsonValue {
    Null,
    Bool(bool),
    /// A number, as the text that JSON writes it as.
    Number(String),
    Text(String),
    Array(Vec<JsonValue>),
    /// An object: its members in order, and the object as compact JSON text.
    Object(Vec<JsonMember>, String),
}

/// A member of a JSON object.
#[derive(Debug)]
pub struct JsonMember {
    pub key: String,
    pub value: JsonValue,
}

/// The text of a truth value.
pub open spec fn bool_text(b: bool) -> Seq<char> {
    if b {
        "true"@
    } else {
        "false"@
    }
}

/// The text of a value in a cell of a table: a text or a number as it is,
/// nothing for null, the items of an array with `; ` between them, an object
/// as its JSON text.
pub open spec fn cell_text(value: JsonValue) -> Seq<char>
    decreases value, 0nat,
{
    match value {
        JsonValue::Null => Seq::<char>::empty(),
        JsonValue::Bool(b) => bool_text(b),
        JsonValue::Number(n) => n@,
        JsonValue::Text(s) => s@,
        JsonValue::Array(items) => cells_joined(items@, items@.len()),
        JsonValue::Object(_, json) => json@,
    }
}

/// The cell texts of the first `count` of `items`, with `; ` between them.
pub open spec fn cells_joined(items: Seq<JsonValue>, count: nat) -> Seq<char>
    decreases items, count,
{
    if count == 0 || count > items.len() {
        Seq::<char>::empty()
    } else if count == 1 {
        cell_text(items[0])
    } else {
        cells_joined(items, (count - 1) as nat) + "; "@ + cell_text(items[count - 1])
    }
}

/// The text of a value on a printed page: a text or a number as it is, `null`
/// for null, an array in square brackets and an object in braces, with `, `
/// between what they hold.
pub open spec fn page_text(value: JsonValue) -> Seq<char>
    decreases value, 0nat,
{
    match value {
        JsonValue::Null => "null"@,
        JsonValue::Bool(b) => bool_text(b),
        JsonValue::Number(n) => n@,
        JsonValue::Text(s) => s@,
        JsonValue::Array(items) => "["@ + items_joined(items@, items@.len()) + "]"@,
        JsonValue::Object(members, _) => "{"@ + members_joined(members@, members@.len()) + "}"@,
    }
}

/// The page texts of the first `count` of `items`, with `, ` between them.
pub open spec fn items_joined(items: Seq<JsonValue>, count: nat) -> Seq<char>
    decreases items, count,
{
    if count == 0 || count > items.len() {
        Seq::<char>::empty()
    } else if count == 1 {
        page_text(items[0])
    } else {
        items_joined(items, (count - 1) as nat) + ", "@ + page_text(items[count - 1])
    }
}

/// The first `count` of `members`, each as its key, `: ` and the page text of
/// its value, with `, ` between them.
pub open spec fn members_joined(members: Seq<JsonMember>, count: nat) -> Seq<char>
    decreases members, count,
{
    if count == 0 || count > members.len() {
        Seq::<char>::empty()
    } else if count == 1 {
        members[0].key@ + ": "@ + page_text(members[0].value)
    } else {
        members_joined(members, (count - 1) as nat) + ", "@ + members[count - 1].key@ + ": "@
            + page_text(members[count - 1].value)
    }
}

fn bool_string(b: bool) -> (text: String)
    ensures
        text@ == bool_text(b),
{
    if b {
        String::from_str("true")
    } else {
        String::from_str("false")
    }
}

/// Writes a value as the text of a cell of a table.
pub fn format_json_value_for_csv(value: &JsonValue) -> (text: String)
    ensures
        text@ == cell_text(*value),
    decreases value,
{
    match value {
        JsonValue::Null => String::new(),
        JsonValue::Bool(b) => bool_string(*b),
        JsonValue::Number(n) => n.clone(),
        JsonValue::Text(s) => s.clone(),
        JsonValue::Array(items) => {
            let mut text = String::new();
            let mut i: usize = 0;
            while i < items.len()
                invariant
                    i <= items.len(),
                    value is Array,
                    value->Array_0 == *items,
                    text@ == cells_joined(items@, i as nat),
                decreases items.len() - i,
            {
                if i > 0 {
                    text.append("; ");
                }
                let item = format_json_value_for_csv(&items[i]);
                text.append(item.as_str());
                proof {
                    assert(text@ =~= cells_joined(items@, (i + 1) as nat));
                }
                i += 1;
            }
            text
        },
        JsonValue::Object(_, json) => json.clone(),
    }
}

/// Writes a value as text for a printed page.
pub fn format_json_value_for_pdf(value: &JsonValue) -> (text: String)
    ensures
        text@ == page_text(*value),
    decreases value,
{
    match value {
        JsonValue::Null => String::from_str("null"),
        JsonValue::Bool(b) => bool_string(*b),
        JsonValue::Number(n) => n.clone(),
        JsonValue::Text(s) => s.clone(),
        JsonValue::Array(items) => {
            let mut text = String::from_str("[");
            let mut i: usize = 0;
            while i < items.len()
                invariant
                    i <= items.len(),
                    value is Array,
                    value->Array_0 == *items,
                    text@ == "["@ + items_joined(items@, i as nat),
                decreases items.len() - i,
            {
                if i > 0 {
                    text.append(", ");
                }
                let item = format_json_value_for_pdf(&items[i]);
                text.append(item.as_str());
                proof {
                    assert(text@ =~= "["@ + items_joined(items@, (i + 1) as nat));
                }
                i += 1;
            }
            text.append("]");
            text
        },
        JsonValue::Object(members, _) => {
            let mut text = String::from_str("{");
            let mut i: usize = 0;
            while i < members.len()
                invariant
                    i <= members.len(),
                    value is Object,
                    value->Object_0 == *members,
                    text@ == "{"@ + members_joined(members@, i as nat),
                decreases members.len() - i,
            {
                if i > 0 {
                    text.append(", ");
                }
                text.append(members[i].key.as_str());
                text.append(": ");
                let item = format_json_value_for_pdf(&members[i].value);
                text.append(item.as_str());
                proof {
                    assert(text@ =~= "{"@ + members_joined(members@, (i + 1) as nat));
                }
                i += 1;
            }
            text.append("}");
            text
        },
    }
}

/// Why data could not be exported.
#[derive(Clone, Copy, Debug, PartialEq, Eq, Structural)]
pub enum ExportError {
    /// The format is none of `json`, `csv` and `pdf`.
    UnsupportedFormat,
    /// A table was asked for, and the data is not an array.
    NotAnArray,
    /// A table was asked for, and the array is empty.
    NoData,
    /// A table was asked for, and the first item is not an object.
    NotObjects,
}

/// The message of an export error.
pub open spec fn export_error_text(e: ExportError) -> Seq<char> {
    match e {
        ExportError::UnsupportedFormat => "Unsupported export format"@,
        ExportError::NotAnArray => "Data must be an array for CSV export"@,
        ExportError::NoData => "No data to export"@,
        ExportError::NotObjects => "Data items must be objects"@,
    }
}

impl ExportError {
    /// Says in words why the export failed.
    pub fn message(&self) -> (text: String)
        ensures
            text@ == export_error_text(*self),
    {
        match self {
            ExportError::UnsupportedFormat => String::from_str("Unsupported export format"),
            ExportError::NotAnArray => String::from_str("Data must be an array for CSV export"),
            ExportError::NoData => String::from_str("No data to export"),
            ExportError::NotObjects => String::from_str("Data items must be objects"),
        }
    }
}

/// The forms in which data is exported.
#[derive(Clone, Copy, Debug, PartialEq, Eq, Structural)]
pub enum DataFormat {
    Json,
    Csv,
    Pdf,
}

/// The data format that a name stands for.
pub open spec fn data_format_named(name: Seq<char>) -> Option<DataFormat> {
    if name == "json"@ {
        Some(DataFormat::Json)
    } else if name == "csv"@ {
        Some(DataFormat::Csv)
    } else if name == "pdf"@ {
        Some(DataFormat::Pdf)
    } else {
        None
    }
}

/// The data format that `name` stands for.
pub fn parse_data_format(name: &str) -> (format: Result<DataFormat, ExportError>)
    ensures
        match format {
            Ok(f) => data_format_named(name@) == Some(f),
            Err(e) => data_format_named(name@) is None && e == ExportError::UnsupportedFormat,
        },
{
    if same_text(name, "json") {
        Ok(DataFormat::Json)
    } else if same_text(name, "csv") {
        Ok(DataFormat::Csv)
    } else if same_text(name, "pdf") {
        Ok(DataFormat::Pdf)
    } else {
        Err(ExportError::UnsupportedFormat)
    }
}

/// The keys of the members of an object, in order.
pub open spec fn keys_of(members: Seq<JsonMember>) -> Seq<Seq<char>> {
    Seq::new(members.len(), |i: int| members[i].key@)
}

/// The cell of an object under the column `key`: the cell text of its first
/// member of that key, and nothing where it has none.
pub open spec fn member_cell(members: Seq<JsonMember>, key: Seq<char>) -> Seq<char>
    decreases members.len(),
{
    if members.len() == 0 {
        Seq::<char>::empty()
    } else if members[0].key@ == key {
        cell_text(members[0].value)
    } else {
        member_cell(members.drop_first(), key)
    }
}

/// The row of an object under the columns `headers`.
pub open spec fn row_for(members: Seq<JsonMember>, headers: Seq<Seq<char>>) -> Seq<Seq<char>> {
    Seq::new(headers.len(), |i: int| member_cell(members, headers[i]))
}

/// The rows of the objects among `items`, in order. What is no object has no
/// row.
pub open spec fn rows_for(items: Seq<JsonValue>, headers: Seq<Seq<char>>) -> Seq<Seq<Seq<char>>>
    decreases items.len(),
{
    if items.len() == 0 {
        Seq::empty()
    } else {
        let before = rows_for(items.drop_last(), headers);
        match items.last() {
            JsonValue::Object(members, _) => before.push(row_for(members@, headers)),
            _ => before,
        }
    }
}

/// The table that data is exported as: the data must be an array that is not
/// empty and begins with an object. The keys of that object head the columns,
/// and each object of the array gives a row.
pub open spec fn table_of(data: JsonValue) -> Result<Seq<Seq<Seq<char>>>, ExportError> {
    match data {
        JsonValue::Array(items) => if items@.len() == 0 {
            Err(ExportError::NoData)
        } else {
            match items@[0] {
                JsonValue::Object(members, _) => Ok(
                    seq![keys_of(members@)] + rows_for(items@, keys_of(members@)),
                ),
                _ => Err(ExportError::NotObjects),
            }
        },
        _ => Err(ExportError::NotAnArray),
    }
}

fn cell_of(members: &Vec<JsonMember>, key: &str) -> (cell: String)
    ensures
        cell@ == member_cell(members@, key@),
{
    let mut i: usize = 0;
    assert(members@.skip(0) =~= members@);
    while i < members.len()
        invariant
            i <= members.len(),
            member_cell(members@, key@) == member_cell(members@.skip(i as int), key@),
        decreases members.len() - i,
    {
        assert(members@.skip(i as int)[0] == members@[i as int]);
        assert(members@.skip(i as int).drop_first() =~= members@.skip(i + 1));
        if same_text(members[i].key.as_str(), key) {
            return format_json_value_for_csv(&members[i].value);
        }
        i += 1;
    }
    String::new()
}

fn row_of(members: &Vec<JsonMember>, headers: &Vec<String>) -> (row: Vec<String>)
    ensures
        texts(row@) == row_for(members@, texts(headers@)),
{
    let mut row: Vec<String> = Vec::new();
    let mut i: usize = 0;
    while i < headers.len()
        invariant
            i <= headers.len(),
            row@.len() == i,
            forall|k: int|
                0 <= k < i ==> (#[trigger] row@[k])@ == member_cell(members@, headers@[k]@),
        decreases headers.len() - i,
    {
        let cell = cell_of(members, headers[i].as_str());
        row.push(cell);
        i += 1;
    }
    assert(texts(row@) =~= row_for(members@, texts(headers@)));
    row
}

/// Lays data out as a table.
pub fn export_table(data: &JsonValue) -> (table: Result<Vec<Vec<String>>, ExportError>)
    ensures
        match table {
            Ok(rows) => table_of(*data) == Ok::<Seq<Seq<Seq<char>>>, ExportError>(
                table_view(rows@),
            ),
            Err(e) => table_of(*data) == Err::<Seq<Seq<Seq<char>>>, ExportError>(e),
        },
{
    let items = match data {
        JsonValue::Array(items) => items,
        _ => { return Err(ExportError::NotAnArray); },
    };
    if items.len() == 0 {
        return Err(ExportError::NoData);
    }
    let first = match &items[0] {
        JsonValue::Object(members, _) => members,
        _ => { return Err(ExportError::NotObjects); },
    };
    let mut headers: Vec<String> = Vec::new();
    let mut k: usize = 0;
    while k < first.len()
        invariant
            k <= first.len(),
            headers@.len() == k,
            forall|j: int| 0 <= j < k ==> (#[trigger] headers@[j])@ == first@[j].key@,
        decreases first.len() - k,
    {
        headers.push(first[k].key.clone());
        k += 1;
    }
    let ghost heads = keys_of(first@);
    assert(texts(headers@) =~= heads);
    let mut rows: Vec<Vec<String>> = Vec::new();
    let mut header_row: Vec<String> = Vec::new();
    let mut h: usize = 0;
    while h < headers.len()
        invariant
            h <= headers.len(),
            header_row@ == headers@.take(h as int),
        decreases headers.len() - h,
    {
        header_row.push(headers[h].clone());
        assert(headers@.take(h + 1) =~= headers@.take(h as int).push(headers@[h as int]));
        h += 1;
    }
    assert(headers@.take(headers.len() as int) =~= headers@);
    rows.push(header_row);
    assert(table_view(rows@) =~= seq![heads] + rows_for(items@.take(0), heads));
    let mut i: usize = 0;
    while i < items.len()
        invariant
            i <= items.len(),
            texts(headers@) == heads,
            table_view(rows@) =~= seq![heads] + rows_for(items@.take(i as int), heads),
        decreases items.len() - i,
    {
        assert(items@.take(i + 1).drop_last() =~= items@.take(i as int));
        assert(items@.take(i + 1).last() == items@[i as int]);
        match &items[i] {
            JsonValue::Object(members, _) => {
                let row = row_of(members, &headers);
                proof {
                    assert(table_view(rows@.push(row)) =~= table_view(rows@).push(texts(row@)));
                }
                rows.push(row);
            },
            _ => {},
        }
        i += 1;
    }
    assert(items@.take(items.len() as int) =~= items@);
    Ok(rows)
}

} // verus!
