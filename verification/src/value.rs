//! The values that cross the boundary, and their conversion in both
//! directions: a value of the caller into the typed parameter it is bound
//! as, and a stored cell into the value it is returned as. Both conversions
//! are total.

use rusqlite::types::Value as SqlValue;
use rusqlite::types::ValueRef;
use vstd::float::FloatBitsProperties;
use vstd::prelude::*;
use vstd::utf8::{decode_utf8, valid_utf8};

verus! {

/// The engine's owned value. Its five cases are read as they are declared.
#[verifier::external_type_specification]
pub struct ExSqlValue(rusqlite::types::Value);

/// The engine's borrowed value, as a result row hands it out. Its five cases
/// are read as they are declared.
#[verifier::external_type_specification]
pub struct ExValueRef<'a>(rusqlite::types::ValueRef<'a>);

/// Structured data of the caller. Nothing inside it is read here; it is only
/// turned into text.
#[verifier::external_type_specification]
#[verifier::external_body]
pub struct ExJsonValue(serde_json::Value);

/// The compact text that `serde_json` writes for `value`.
pub uninterp spec fn json_text_of(value: serde_json::Value) -> Seq<char>;

/// The text that `String::from_utf8_lossy` reads from `bytes`: every
/// malformed sequence is replaced by U+FFFD.
pub uninterp spec fn lossy_utf8(bytes: Seq<u8>) -> Seq<char>;

/// Calls `to_string` on a `serde_json::Value`, that is its `Display`, which
/// writes the value as compact JSON. The text depends on the value alone.
#[verifier::external_body]
fn json_text(value: &serde_json::Value) -> (text: String)
    ensures
        text@ == json_text_of(*value),
{
    value.to_string()
}

/// Calls `String::from_utf8_lossy`. Well-formed UTF-8 is read as it stands;
/// what is malformed is replaced, never refused.
#[verifier::external_body]
fn lossy_text(bytes: &[u8]) -> (text: String)
    ensures
        text@ == lossy_utf8(bytes@),
        valid_utf8(bytes@) ==> text@ == decode_utf8(bytes@),
{
    String::from_utf8_lossy(bytes).into_owned()
}

/// Calls `rusqlite::types::Value::from` on a `bool`, which is how the engine
/// binds a boolean: as the integer 1 or 0.
#[verifier::external_body]
fn truth_value(flag: bool) -> (param: SqlValue)
    ensures
        param == SqlValue::Integer(if flag { 1i64 } else { 0i64 }),
{
    SqlValue::from(flag)
}

/// A value as it crosses the boundary, in either direction.
///
/// Parameters may be of any case. Cells of a result row are `Null`,
/// `Integer`, `Real` or `Text`.
#[derive(Debug, PartialEq)]
pub enum UntypedValue {
    Null,
    Bool(bool),
    Integer(i64),
    /// A floating-point number, carried as the engine's value of the case
    /// `Real`. This library never computes on it. A `Real` that carries
    /// another case stands for null.
    Real(SqlValue),
    Text(String),
    /// Any other structured data. It is bound as its compact text.
    Other(serde_json::Value),
}

/// The mathematical value of an engine value: a real number as its bits,
/// texts and blobs as sequences.
pub enum SqlModel {
    Null,
    Integer(i64),
    /// A real number, by the bits of its IEEE 754 double.
    Real(u64),
    Text(Seq<char>),
    Blob(Seq<u8>),
}

/// The mathematical value of an [`UntypedValue`].
pub enum ValueModel {
    Null,
    Bool(bool),
    Integer(i64),
    /// A real number, by the bits of its IEEE 754 double.
    Real(u64),
    Text(Seq<char>),
    /// The compact text of the structured data.
    Other(Seq<char>),
}

/// What an owned engine value stands for.
pub open spec fn sql_model(value: SqlValue) -> SqlModel {
    match value {
        SqlValue::Null => SqlModel::Null,
        SqlValue::Integer(n) => SqlModel::Integer(n),
        SqlValue::Real(x) => SqlModel::Real(x.to_bits_spec()),
        SqlValue::Text(text) => SqlModel::Text(text@),
        SqlValue::Blob(bytes) => SqlModel::Blob(bytes@),
    }
}

/// What a stored cell stands for, by its storage class. Text is kept as
/// bytes by the engine and read lossily.
pub open spec fn cell_model(cell: ValueRef<'_>) -> SqlModel {
    match cell {
        ValueRef::Null => SqlModel::Null,
        ValueRef::Integer(n) => SqlModel::Integer(n),
        ValueRef::Real(x) => SqlModel::Real(x.to_bits_spec()),
        ValueRef::Text(bytes) => SqlModel::Text(lossy_utf8(bytes@)),
        ValueRef::Blob(bytes) => SqlModel::Blob(bytes@),
    }
}

impl View for UntypedValue {
    type V = ValueModel;

    open spec fn view(&self) -> ValueModel {
        match self {
            UntypedValue::Null => ValueModel::Null,
            UntypedValue::Bool(flag) => ValueModel::Bool(*flag),
            UntypedValue::Integer(n) => ValueModel::Integer(*n),
            UntypedValue::Real(carried) => match carried {
                SqlValue::Real(x) => ValueModel::Real(x.to_bits_spec()),
                _ => ValueModel::Null,
            },
            UntypedValue::Text(text) => ValueModel::Text(text@),
            UntypedValue::Other(data) => ValueModel::Other(json_text_of(*data)),
        }
    }
}

impl ValueModel {
    /// Whether this value can be a cell of a result row.
    pub open spec fn is_cell(self) -> bool {
        self is Null || self is Integer || self is Real || self is Text
    }

    /// The typed parameter that this value is bound as.
    ///
    /// A boolean is bound as the integer 1 or 0, structured data as its
    /// text, and every other value as itself. No value is refused.
    pub open spec fn bound(self) -> SqlModel {
        match self {
            ValueModel::Null => SqlModel::Null,
            ValueModel::Bool(flag) => SqlModel::Integer(if flag { 1i64 } else { 0i64 }),
            ValueModel::Integer(n) => SqlModel::Integer(n),
            ValueModel::Real(bits) => SqlModel::Real(bits),
            ValueModel::Text(text) => SqlModel::Text(text),
            ValueModel::Other(text) => SqlModel::Text(text),
        }
    }
}

impl SqlModel {
    /// The value that a stored cell of this content is returned as.
    ///
    /// Integers, reals and texts are returned as such. A blob is returned as
    /// `Null`, like a stored null: its bytes do not cross the boundary.
    pub open spec fn returned(self) -> ValueModel {
        match self {
            SqlModel::Null => ValueModel::Null,
            SqlModel::Integer(n) => ValueModel::Integer(n),
            SqlModel::Real(bits) => ValueModel::Real(bits),
            SqlModel::Text(text) => ValueModel::Text(text),
            SqlModel::Blob(_) => ValueModel::Null,
        }
    }
}

/// The value of a number, by what it reads as: an integer where the number
/// reads as a 64-bit integer, else a real where it reads as one, else null.
pub open spec fn number_model(as_integer: Option<i64>, as_real: Option<SqlValue>) -> ValueModel {
    match (as_integer, as_real) {
        (Some(n), _) => ValueModel::Integer(n),
        (None, Some(SqlValue::Real(x))) => ValueModel::Real(x.to_bits_spec()),
        _ => ValueModel::Null,
    }
}

impl UntypedValue {
    /// Classifies a number of the caller: `as_integer` is its reading as a
    /// 64-bit integer and `as_real` its reading as a real number, where it
    /// has them. The integer goes before the real, and a number that has
    /// neither reading is null.
    pub fn from_number(as_integer: Option<i64>, as_real: Option<SqlValue>) -> (value:
        UntypedValue)
        ensures
            value@ == number_model(as_integer, as_real),
    {
        match as_integer {
            Some(n) => UntypedValue::Integer(n),
            None => match as_real {
                Some(carried) => UntypedValue::Real(carried),
                None => UntypedValue::Null,
            },
        }
    }
}

/// The values that stored cells are returned as, cell by cell.
pub open spec fn returned_cells(stored: Seq<SqlModel>) -> Seq<ValueModel> {
    stored.map_values(|cell: SqlModel| cell.returned())
}

/// Converts a boundary value into the typed parameter it is bound as.
pub fn bind(value: &UntypedValue) -> (param: SqlValue)
    ensures
        sql_model(param) == value@.bound(),
{
    match value {
        UntypedValue::Null => SqlValue::Null,
        UntypedValue::Bool(flag) => truth_value(*flag),
        UntypedValue::Integer(n) => SqlValue::Integer(*n),
        UntypedValue::Real(carried) => match carried {
            SqlValue::Real(x) => SqlValue::Real(*x),
            _ => SqlValue::Null,
        },
        UntypedValue::Text(text) => SqlValue::Text(text.clone()),
        UntypedValue::Other(data) => SqlValue::Text(json_text(data)),
    }
}

/// Converts the parameters of a statement, in order.
pub fn bind_all(values: &Vec<UntypedValue>) -> (params: Vec<SqlValue>)
    ensures
        params@.len() == values@.len(),
        forall|i: int|
            0 <= i < values@.len() ==> sql_model(#[trigger] params@[i]) == values@[i]@.bound(),
{
    let mut params: Vec<SqlValue> = Vec::new();
    let mut i: usize = 0;
    while i < values.len()
        invariant
            i <= values@.len(),
            params@.len() == i,
            forall|k: int| 0 <= k < i ==> sql_model(#[trigger] params@[k]) == values@[k]@.bound(),
        decreases values@.len() - i,
    {
        params.push(bind(&values[i]));
        i = i + 1;
    }
    params
}

/// Converts a stored cell into the value it is returned as, by the storage
/// class that the engine reports for it.
pub fn cell_value(cell: ValueRef<'_>) -> (value: UntypedValue)
    ensures
        value@ == cell_model(cell).returned(),
        value@.is_cell(),
        cell matches ValueRef::Text(bytes) ==> (valid_utf8(bytes@) ==> value@ == ValueModel::Text(
            decode_utf8(bytes@),
        )),
{
    match cell {
        ValueRef::Null => UntypedValue::Null,
        ValueRef::Integer(n) => UntypedValue::Integer(n),
        ValueRef::Real(x) => UntypedValue::Real(SqlValue::Real(x)),
        ValueRef::Text(bytes) => UntypedValue::Text(lossy_text(bytes)),
        ValueRef::Blob(_) => UntypedValue::Null,
    }
}

/// A value that came out of a cell goes back in as it came: bound as a
/// parameter and stored, it is returned as the same value.
pub proof fn lemma_cell_round_trip(value: ValueModel)
    requires
        value.is_cell(),
    ensures
        value.bound().returned() == value,
{
}

/// Whatever the value, the parameter it is bound as is a null, an
/// integer, a real or a text, and what is returned for a parameter stored
/// as it was bound is this: for a boolean the integer 1 or 0, for
/// structured data its text, and for every other value the value itself.
pub proof fn lemma_parameter_round_trip(value: ValueModel)
    ensures
        !(value.bound() is Blob),
        value.bound().returned().is_cell(),
        value.bound().returned() == match value {
            ValueModel::Bool(flag) => ValueModel::Integer(if flag { 1i64 } else { 0i64 }),
            ValueModel::Other(text) => ValueModel::Text(text),
            other => other,
        },
{
}

/// Whatever is stored in a cell, what is returned for it is a null, an
/// integer, a real or a text.
pub proof fn lemma_returned_is_cell(stored: SqlModel)
    ensures
        stored.returned().is_cell(),
{
}

} // verus!
