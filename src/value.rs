//! Engine values and their JSON-safe form.

use vstd::prelude::*;
use crate::text::{i128_text, int_text, lemma_int_text_round_trip, nat_digits, push_decimal, text_value};

verus! {

/// One value as the engine produced it.
#[derive(Clone, Debug, PartialEq)]
pub enum ScalarValue {
    Null,
    Boolean(bool),
    TinyInt(i8),
    SmallInt(i16),
    Int(i32),
    BigInt(i64),
    /// An integer wider than 64 bits.
    HugeInt(i128),
    UTinyInt(u8),
    USmallInt(u16),
    UInt(u32),
    UBigInt(u64),
    /// A single-precision float, as its IEEE-754 bit pattern.
    Float(u32),
    /// A double-precision float, as its IEEE-754 bit pattern.
    Double(u64),
    Text(String),
    Blob(Vec<u8>),
    /// A value of any other kind, as the engine's debug rendering of it.
    Other(String),
}

/// A value that JSON can carry without loss: null, a boolean, a number or a
/// string.
#[derive(Clone, Debug, PartialEq)]
pub enum JsonValue {
    Null,
    Bool(bool),
    /// A signed integer number.
    Int(i64),
    /// An unsigned integer number.
    UInt(u64),
    /// A number from a single-precision float, as its IEEE-754 bit pattern.
    Float(u32),
    /// A number from a double-precision float, as its IEEE-754 bit pattern.
    Double(u64),
    Text(String),
}

/// The mathematical form of a `JsonValue`.
pub enum JsonView {
    Null,
    Bool(bool),
    Int(i64),
    UInt(u64),
    Float(u32),
    Double(u64),
    Text(Seq<char>),
}

impl View for JsonValue {
    type V = JsonView;

    open spec fn view(&self) -> JsonView {
        match self {
            JsonValue::Null => JsonView::Null,
            JsonValue::Bool(b) => JsonView::Bool(*b),
            JsonValue::Int(n) => JsonView::Int(*n),
            JsonValue::UInt(n) => JsonView::UInt(*n),
            JsonValue::Float(b) => JsonView::Float(*b),
            JsonValue::Double(b) => JsonView::Double(*b),
            JsonValue::Text(s) => JsonView::Text(s@),
        }
    }
}

/// The text that stands for a blob of `len` bytes.
pub open spec fn blob_text(len: nat) -> Seq<char> {
    "[blob: "@ + nat_digits(len) + " bytes]"@
}

/// The JSON-safe form of an engine value. Integers up to 64 bits stay numbers;
/// wider ones become their exact decimal text; a blob becomes a note of its
/// length; a value of another kind becomes its debug rendering.
pub open spec fn json_of(v: ScalarValue) -> JsonView {
    match v {
        ScalarValue::Null => JsonView::Null,
        ScalarValue::Boolean(b) => JsonView::Bool(b),
        ScalarValue::TinyInt(n) => JsonView::Int(n as i64),
        ScalarValue::SmallInt(n) => JsonView::Int(n as i64),
        ScalarValue::Int(n) => JsonView::Int(n as i64),
        ScalarValue::BigInt(n) => JsonView::Int(n),
        ScalarValue::HugeInt(n) => JsonView::Text(int_text(n as int)),
        ScalarValue::UTinyInt(n) => JsonView::UInt(n as u64),
        ScalarValue::USmallInt(n) => JsonView::UInt(n as u64),
        ScalarValue::UInt(n) => JsonView::UInt(n as u64),
        ScalarValue::UBigInt(n) => JsonView::UInt(n),
        ScalarValue::Float(b) => JsonView::Float(b),
        ScalarValue::Double(b) => JsonView::Double(b),
        ScalarValue::Text(s) => JsonView::Text(s@),
        ScalarValue::Blob(b) => JsonView::Text(blob_text(b@.len())),
        ScalarValue::Other(s) => JsonView::Text(s@),
    }
}

/// The type tag of an engine value.
pub open spec fn tag_of(v: ScalarValue) -> Seq<char> {
    match v {
        ScalarValue::Null => "NULL"@,
        ScalarValue::Boolean(_) => "BOOLEAN"@,
        ScalarValue::TinyInt(_) => "INTEGER"@,
        ScalarValue::SmallInt(_) => "INTEGER"@,
        ScalarValue::Int(_) => "INTEGER"@,
        ScalarValue::BigInt(_) => "INTEGER"@,
        ScalarValue::HugeInt(_) => "HUGEINT"@,
        ScalarValue::UTinyInt(_) => "UINTEGER"@,
        ScalarValue::USmallInt(_) => "UINTEGER"@,
        ScalarValue::UInt(_) => "UINTEGER"@,
        ScalarValue::UBigInt(_) => "UINTEGER"@,
        ScalarValue::Float(_) => "DOUBLE"@,
        ScalarValue::Double(_) => "DOUBLE"@,
        ScalarValue::Text(_) => "VARCHAR"@,
        ScalarValue::Blob(_) => "BLOB"@,
        ScalarValue::Other(_) => "UNKNOWN"@,
    }
}

/// Converts an engine value to its JSON-safe form.
pub fn to_json(v: &ScalarValue) -> (r: JsonValue)
    ensures
        r@ == json_of(*v),
{
    match v {
        ScalarValue::Null => JsonValue::Null,
        ScalarValue::Boolean(b) => JsonValue::Bool(*b),
        ScalarValue::TinyInt(n) => JsonValue::Int(*n as i64),
        ScalarValue::SmallInt(n) => JsonValue::Int(*n as i64),
        ScalarValue::Int(n) => JsonValue::Int(*n as i64),
        ScalarValue::BigInt(n) => JsonValue::Int(*n),
        ScalarValue::HugeInt(n) => JsonValue::Text(i128_text(*n)),
        ScalarValue::UTinyInt(n) => JsonValue::UInt(*n as u64),
        ScalarValue::USmallInt(n) => JsonValue::UInt(*n as u64),
        ScalarValue::UInt(n) => JsonValue::UInt(*n as u64),
        ScalarValue::UBigInt(n) => JsonValue::UInt(*n),
        ScalarValue::Float(b) => JsonValue::Float(*b),
        ScalarValue::Double(b) => JsonValue::Double(*b),
        ScalarValue::Text(s) => JsonValue::Text(s.clone()),
        ScalarValue::Blob(b) => {
            let mut t = String::from_str("[blob: ");
            push_decimal(&mut t, b.len() as u128);
            t.append(" bytes]");
            JsonValue::Text(t)
        },
        ScalarValue::Other(s) => JsonValue::Text(s.clone()),
    }
}

/// The type tag of an engine value.
pub fn type_tag(v: &ScalarValue) -> (r: String)
    ensures
        r@ == tag_of(*v),
{
    match v {
        ScalarValue::Null => String::from_str("NULL"),
        ScalarValue::Boolean(_) => String::from_str("BOOLEAN"),
        ScalarValue::TinyInt(_) | ScalarValue::SmallInt(_) | ScalarValue::Int(_)
        | ScalarValue::BigInt(_) => String::from_str("INTEGER"),
        ScalarValue::HugeInt(_) => String::from_str("HUGEINT"),
        ScalarValue::UTinyInt(_) | ScalarValue::USmallInt(_) | ScalarValue::UInt(_)
        | ScalarValue::UBigInt(_) => String::from_str("UINTEGER"),
        ScalarValue::Float(_) | ScalarValue::Double(_) => String::from_str("DOUBLE"),
        ScalarValue::Text(_) => String::from_str("VARCHAR"),
        ScalarValue::Blob(_) => String::from_str("BLOB"),
        ScalarValue::Other(_) => String::from_str("UNKNOWN"),
    }
}

/// Maps an engine value to its JSON-safe form and its type tag.
pub fn map_value(v: &ScalarValue) -> (r: (JsonValue, String))
    ensures
        r.0@ == json_of(*v),
        r.1@ == tag_of(*v),
{
    (to_json(v), type_tag(v))
}

/// A huge integer maps to its exact decimal text, tagged "HUGEINT", and
/// reading that text gives back the integer.
pub proof fn lemma_huge_int_fidelity(n: i128)
    ensures
        json_of(ScalarValue::HugeInt(n)) == JsonView::Text(int_text(n as int)),
        tag_of(ScalarValue::HugeInt(n)) == "HUGEINT"@,
        text_value(int_text(n as int)) == n as int,
{
    lemma_int_text_round_trip(n as int);
}

/// The name the engine gives the type of a value of each kind; empty for a
/// null and for a kind this library does not name.
pub open spec fn engine_type_name(v: ScalarValue) -> Seq<char> {
    match v {
        ScalarValue::Null => Seq::empty(),
        ScalarValue::Boolean(_) => "BOOLEAN"@,
        ScalarValue::TinyInt(_) => "TINYINT"@,
        ScalarValue::SmallInt(_) => "SMALLINT"@,
        ScalarValue::Int(_) => "INTEGER"@,
        ScalarValue::BigInt(_) => "BIGINT"@,
        ScalarValue::HugeInt(_) => "HUGEINT"@,
        ScalarValue::UTinyInt(_) => "UTINYINT"@,
        ScalarValue::USmallInt(_) => "USMALLINT"@,
        ScalarValue::UInt(_) => "UINTEGER"@,
        ScalarValue::UBigInt(_) => "UBIGINT"@,
        ScalarValue::Float(_) => "FLOAT"@,
        ScalarValue::Double(_) => "DOUBLE"@,
        ScalarValue::Text(_) => "VARCHAR"@,
        ScalarValue::Blob(_) => "BLOB"@,
        ScalarValue::Other(_) => Seq::empty(),
    }
}

/// The type tag for a column that the engine declares with type name `t`: the
/// tag that a value of that type is given.
pub open spec fn declared_tag(t: Seq<char>) -> Seq<char> {
    if t == "TINYINT"@ || t == "SMALLINT"@ || t == "INTEGER"@ || t == "BIGINT"@ {
        "INTEGER"@
    } else if t == "HUGEINT"@ {
        "HUGEINT"@
    } else if t == "UTINYINT"@ || t == "USMALLINT"@ || t == "UINTEGER"@ || t == "UBIGINT"@ {
        "UINTEGER"@
    } else if t == "FLOAT"@ || t == "DOUBLE"@ {
        "DOUBLE"@
    } else if t == "VARCHAR"@ {
        "VARCHAR"@
    } else if t == "BLOB"@ {
        "BLOB"@
    } else if t == "BOOLEAN"@ {
        "BOOLEAN"@
    } else {
        "UNKNOWN"@
    }
}

fn is_named(t: &String, name: &str) -> (r: bool)
    ensures
        r == (t@ == name@),
{
    *t == String::from_str(name)
}

/// The type tag for a column that the engine declares with type name `t`.
pub fn tag_for_declared(t: &String) -> (r: String)
    ensures
        r@ == declared_tag(t@),
{
    if is_named(t, "TINYINT") || is_named(t, "SMALLINT") || is_named(t, "INTEGER") || is_named(
        t,
        "BIGINT",
    ) {
        String::from_str("INTEGER")
    } else if is_named(t, "HUGEINT") {
        String::from_str("HUGEINT")
    } else if is_named(t, "UTINYINT") || is_named(t, "USMALLINT") || is_named(t, "UINTEGER")
        || is_named(t, "UBIGINT") {
        String::from_str("UINTEGER")
    } else if is_named(t, "FLOAT") || is_named(t, "DOUBLE") {
        String::from_str("DOUBLE")
    } else if is_named(t, "VARCHAR") {
        String::from_str("VARCHAR")
    } else if is_named(t, "BLOB") {
        String::from_str("BLOB")
    } else if is_named(t, "BOOLEAN") {
        String::from_str("BOOLEAN")
    } else {
        String::from_str("UNKNOWN")
    }
}

/// A column declared with the engine's type name for a value's kind gets the
/// same type tag as that value, for every kind but null and the unnamed ones.
pub proof fn lemma_declared_tag_agrees(v: ScalarValue)
    requires
        !(v is Null),
        !(v is Other),
    ensures
        declared_tag(engine_type_name(v)) == tag_of(v),
{
    reveal_strlit("TINYINT");
    reveal_strlit("SMALLINT");
    reveal_strlit("INTEGER");
    reveal_strlit("BIGINT");
    reveal_strlit("HUGEINT");
    reveal_strlit("UTINYINT");
    reveal_strlit("USMALLINT");
    reveal_strlit("UINTEGER");
    reveal_strlit("UBIGINT");
    reveal_strlit("FLOAT");
    reveal_strlit("DOUBLE");
    reveal_strlit("VARCHAR");
    reveal_strlit("BLOB");
    reveal_strlit("BOOLEAN");
    match v {
        ScalarValue::Boolean(_) => {
            assert("BOOLEAN"@[0] != "TINYINT"@[0]);
            assert("BOOLEAN"@[0] != "SMALLINT"@[0]);
            assert("BOOLEAN"@[0] != "INTEGER"@[0]);
            assert("BOOLEAN"@[1] != "BIGINT"@[1]);
            assert("BOOLEAN"@[0] != "HUGEINT"@[0]);
            assert("BOOLEAN"@[0] != "UTINYINT"@[0]);
            assert("BOOLEAN"@[0] != "USMALLINT"@[0]);
            assert("BOOLEAN"@[0] != "UINTEGER"@[0]);
            assert("BOOLEAN"@[0] != "UBIGINT"@[0]);
            assert("BOOLEAN"@[0] != "FLOAT"@[0]);
            assert("BOOLEAN"@[0] != "DOUBLE"@[0]);
            assert("BOOLEAN"@[0] != "VARCHAR"@[0]);
            assert("BOOLEAN"@[1] != "BLOB"@[1]);
        },
        ScalarValue::TinyInt(_) => {},
        ScalarValue::SmallInt(_) => {
            assert("SMALLINT"@[0] != "TINYINT"@[0]);
        },
        ScalarValue::Int(_) => {
            assert("INTEGER"@[0] != "TINYINT"@[0]);
            assert("INTEGER"@[0] != "SMALLINT"@[0]);
        },
        ScalarValue::BigInt(_) => {
            assert("BIGINT"@[0] != "TINYINT"@[0]);
            assert("BIGINT"@[0] != "SMALLINT"@[0]);
            assert("BIGINT"@[0] != "INTEGER"@[0]);
        },
        ScalarValue::HugeInt(_) => {
            assert("HUGEINT"@[0] != "TINYINT"@[0]);
            assert("HUGEINT"@[0] != "SMALLINT"@[0]);
            assert("HUGEINT"@[0] != "INTEGER"@[0]);
            assert("HUGEINT"@[0] != "BIGINT"@[0]);
        },
        ScalarValue::UTinyInt(_) => {
            assert("UTINYINT"@[0] != "TINYINT"@[0]);
            assert("UTINYINT"@[0] != "SMALLINT"@[0]);
            assert("UTINYINT"@[0] != "INTEGER"@[0]);
            assert("UTINYINT"@[0] != "BIGINT"@[0]);
            assert("UTINYINT"@[0] != "HUGEINT"@[0]);
        },
        ScalarValue::USmallInt(_) => {
            assert("USMALLINT"@[0] != "TINYINT"@[0]);
            assert("USMALLINT"@[0] != "SMALLINT"@[0]);
            assert("USMALLINT"@[0] != "INTEGER"@[0]);
            assert("USMALLINT"@[0] != "BIGINT"@[0]);
            assert("USMALLINT"@[0] != "HUGEINT"@[0]);
            assert("USMALLINT"@[1] != "UTINYINT"@[1]);
        },
        ScalarValue::UInt(_) => {
            assert("UINTEGER"@[0] != "TINYINT"@[0]);
            assert("UINTEGER"@[0] != "SMALLINT"@[0]);
            assert("UINTEGER"@[0] != "INTEGER"@[0]);
            assert("UINTEGER"@[0] != "BIGINT"@[0]);
            assert("UINTEGER"@[0] != "HUGEINT"@[0]);
            assert("UINTEGER"@[1] != "UTINYINT"@[1]);
            assert("UINTEGER"@[1] != "USMALLINT"@[1]);
        },
        ScalarValue::UBigInt(_) => {
            assert("UBIGINT"@[0] != "TINYINT"@[0]);
            assert("UBIGINT"@[0] != "SMALLINT"@[0]);
            assert("UBIGINT"@[0] != "INTEGER"@[0]);
            assert("UBIGINT"@[0] != "BIGINT"@[0]);
            assert("UBIGINT"@[0] != "HUGEINT"@[0]);
            assert("UBIGINT"@[1] != "UTINYINT"@[1]);
            assert("UBIGINT"@[1] != "USMALLINT"@[1]);
            assert("UBIGINT"@[1] != "UINTEGER"@[1]);
        },
        ScalarValue::Float(_) => {
            assert("FLOAT"@[0] != "TINYINT"@[0]);
            assert("FLOAT"@[0] != "SMALLINT"@[0]);
            assert("FLOAT"@[0] != "INTEGER"@[0]);
            assert("FLOAT"@[0] != "BIGINT"@[0]);
            assert("FLOAT"@[0] != "HUGEINT"@[0]);
            assert("FLOAT"@[0] != "UTINYINT"@[0]);
            assert("FLOAT"@[0] != "USMALLINT"@[0]);
            assert("FLOAT"@[0] != "UINTEGER"@[0]);
            assert("FLOAT"@[0] != "UBIGINT"@[0]);
        },
        ScalarValue::Double(_) => {
            assert("DOUBLE"@[0] != "TINYINT"@[0]);
            assert("DOUBLE"@[0] != "SMALLINT"@[0]);
            assert("DOUBLE"@[0] != "INTEGER"@[0]);
            assert("DOUBLE"@[0] != "BIGINT"@[0]);
            assert("DOUBLE"@[0] != "HUGEINT"@[0]);
            assert("DOUBLE"@[0] != "UTINYINT"@[0]);
            assert("DOUBLE"@[0] != "USMALLINT"@[0]);
            assert("DOUBLE"@[0] != "UINTEGER"@[0]);
            assert("DOUBLE"@[0] != "UBIGINT"@[0]);
            assert("DOUBLE"@[0] != "FLOAT"@[0]);
        },
        ScalarValue::Text(_) => {
            assert("VARCHAR"@[0] != "TINYINT"@[0]);
            assert("VARCHAR"@[0] != "SMALLINT"@[0]);
            assert("VARCHAR"@[0] != "INTEGER"@[0]);
            assert("VARCHAR"@[0] != "BIGINT"@[0]);
            assert("VARCHAR"@[0] != "HUGEINT"@[0]);
            assert("VARCHAR"@[0] != "UTINYINT"@[0]);
            assert("VARCHAR"@[0] != "USMALLINT"@[0]);
            assert("VARCHAR"@[0] != "UINTEGER"@[0]);
            assert("VARCHAR"@[0] != "UBIGINT"@[0]);
            assert("VARCHAR"@[0] != "FLOAT"@[0]);
            assert("VARCHAR"@[0] != "DOUBLE"@[0]);
        },
        ScalarValue::Blob(_) => {
            assert("BLOB"@[0] != "TINYINT"@[0]);
            assert("BLOB"@[0] != "SMALLINT"@[0]);
            assert("BLOB"@[0] != "INTEGER"@[0]);
            assert("BLOB"@[1] != "BIGINT"@[1]);
            assert("BLOB"@[0] != "HUGEINT"@[0]);
            assert("BLOB"@[0] != "UTINYINT"@[0]);
            assert("BLOB"@[0] != "USMALLINT"@[0]);
            assert("BLOB"@[0] != "UINTEGER"@[0]);
            assert("BLOB"@[0] != "UBIGINT"@[0]);
            assert("BLOB"@[0] != "FLOAT"@[0]);
            assert("BLOB"@[0] != "DOUBLE"@[0]);
            assert("BLOB"@[0] != "VARCHAR"@[0]);
        },
        _ => {},
    }
}

} // verus!
