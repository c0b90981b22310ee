//! The value codec: JSON scalars to relational bind values, and relational
//! column values back to JSON scalars, plus the laws that hold of the pair.

use vstd::prelude::*;
use vstd::slice::slice_to_vec;
use vstd::utf8::encode_utf8;
use vstd::utf8::encode_utf8_valid_utf8;
use vstd::utf8::encode_utf8_decode_utf8;
use crate::value::JsonSpec;
use crate::value::JsonValue;
use crate::value::NumberRepr;
use crate::relational::RelSpec;
use crate::relational::RelationalValue;
use crate::encoding::date_chars;
use crate::encoding::decode_bytes_lossy;
use crate::encoding::format_temporal;
use crate::encoding::lossy_chars;

verus! {

/// The relational value a JSON scalar is bound as: booleans become the 0/1
/// integer the store uses, strings become byte strings, numbers keep their
/// kind, and every other shape degrades to null rather than being rejected.
pub open spec fn encode_spec(p: JsonValue) -> RelSpec {
    match p {
        JsonValue::Bool(b) => RelSpec::Int(if b { 1 } else { 0 }),
        JsonValue::Text(s) => RelSpec::Bytes(encode_utf8(s@)),
        JsonValue::Num(n) => match n {
            NumberRepr::UInt(u) => RelSpec::UInt(u),
            NumberRepr::Int(i) => RelSpec::Int(i),
            NumberRepr::Double(bits) => RelSpec::Double(bits),
            NumberRepr::Single(bits) => RelSpec::Single(bits),
        },
        _ => RelSpec::Null,
    }
}

/// The JSON scalar a relational column value decodes to: byte strings are
/// decoded leniently, temporal values are formatted without padding, numeric
/// kinds are kept, and every other kind degrades to null. Decoding is total.
pub open spec fn decode_spec(v: RelSpec) -> JsonSpec {
    match v {
        RelSpec::Bytes(b) => JsonSpec::Text(lossy_chars(b)),
        RelSpec::Int(i) => JsonSpec::Num(NumberRepr::Int(i)),
        RelSpec::UInt(u) => JsonSpec::Num(NumberRepr::UInt(u)),
        RelSpec::Double(bits) => JsonSpec::Num(NumberRepr::Double(bits)),
        RelSpec::Single(bits) => JsonSpec::Num(NumberRepr::Single(bits)),
        RelSpec::Date { year, month, day, hour, minute, second, micro } => JsonSpec::Text(
            date_chars(
                year as nat,
                month as nat,
                day as nat,
                hour as nat,
                minute as nat,
                second as nat,
                micro as nat,
            ),
        ),
        _ => JsonSpec::Null,
    }
}

/// Encodes one JSON scalar as a relational bind value. Never fails.
pub fn encode_value(p: &JsonValue) -> (r: RelationalValue)
    ensures
        r@ == encode_spec(*p),
{
    match p {
        JsonValue::Bool(b) => if *b {
            RelationalValue::Int(1)
        } else {
            RelationalValue::Int(0)
        },
        JsonValue::Text(s) => RelationalValue::Bytes(slice_to_vec(s.as_str().as_bytes())),
        JsonValue::Num(n) => match n {
            NumberRepr::UInt(u) => RelationalValue::UInt(*u),
            NumberRepr::Int(i) => RelationalValue::Int(*i),
            NumberRepr::Double(bits) => RelationalValue::Double(*bits),
            NumberRepr::Single(bits) => RelationalValue::Single(*bits),
        },
        _ => RelationalValue::Null,
    }
}

/// Encodes a parameter list positionally and in order.
pub fn convert_params(params: Vec<JsonValue>) -> (r: Vec<RelationalValue>)
    ensures
        r@.len() == params@.len(),
        forall|i: int| 0 <= i < params@.len() ==> r@[i]@ == encode_spec(params@[i]),
{
    let mut r: Vec<RelationalValue> = Vec::new();
    let mut i: usize = 0;
    while i < params.len()
        invariant
            i <= params@.len(),
            r@.len() == i,
            forall|k: int| 0 <= k < i ==> r@[k]@ == encode_spec(params@[k]),
        decreases params@.len() - i,
    {
        r.push(encode_value(&params[i]));
        i = i + 1;
    }
    r
}

/// Decodes one relational column value to a JSON scalar. Never fails.
pub fn decode_value(v: &RelationalValue) -> (r: JsonValue)
    ensures
        r@ == decode_spec(v@),
{
    match v {
        RelationalValue::Bytes(b) => JsonValue::Text(decode_bytes_lossy(b)),
        RelationalValue::Int(i) => JsonValue::Num(NumberRepr::Int(*i)),
        RelationalValue::UInt(u) => JsonValue::Num(NumberRepr::UInt(*u)),
        RelationalValue::Double(bits) => JsonValue::Num(NumberRepr::Double(*bits)),
        RelationalValue::Single(bits) => JsonValue::Num(NumberRepr::Single(*bits)),
        RelationalValue::Date { year, month, day, hour, minute, second, micro } => (
            JsonValue::Text(
                format_temporal(*year, *month, *day, *hour, *minute, *second, *micro),
            )
        ),
        _ => JsonValue::Null,
    }
}

/// A decoded row: an ordered mapping from column name to JSON scalar, with
/// the keys in the executed statement's column order. Names need not be
/// unique; a lookup takes the entry written last.
pub struct RowMap {
    pub entries: Vec<(String, JsonValue)>,
}

impl View for RowMap {
    type V = Seq<(Seq<char>, JsonSpec)>;

    open spec fn view(&self) -> Seq<(Seq<char>, JsonSpec)> {
        self.entries@.map_values(|p: (String, JsonValue)| (p.0@, p.1@))
    }
}

/// The decoded shape of one source row: each column name paired with the
/// decoded scalar, in column order.
pub open spec fn decode_row_spec(row: Seq<(String, RelationalValue)>) -> Seq<
    (Seq<char>, JsonSpec),
> {
    row.map_values(|p: (String, RelationalValue)| (p.0@, decode_spec(p.1@)))
}

/// The entry a lookup takes when a name occurs more than once: the one
/// written last.
pub open spec fn lookup_spec(m: Seq<(Seq<char>, JsonSpec)>, k: Seq<char>) -> Option<JsonSpec>
    decreases m.len(),
{
    if m.len() == 0 {
        None
    } else if m.last().0 == k {
        Some(m.last().1)
    } else {
        lookup_spec(m.drop_last(), k)
    }
}

impl RowMap {
    /// The value under `name`: the last entry with that key, if any.
    pub fn get(&self, name: &String) -> (r: Option<&JsonValue>)
        ensures
            match r {
                Some(v) => lookup_spec(self@, name@) == Some(v@),
                None => lookup_spec(self@, name@) is None,
            },
    {
        let mut j: usize = self.entries.len();
        proof {
            assert(self@.take(self.entries@.len() as int) =~= self@);
        }
        while j > 0
            invariant
                j <= self.entries@.len(),
                lookup_spec(self@, name@) == lookup_spec(self@.take(j as int), name@),
            decreases j,
        {
            proof {
                assert(self@.take(j as int).drop_last() =~= self@.take(j - 1));
                assert(self@.take(j as int).last() == self@[j - 1]);
            }
            j = j - 1;
            if self.entries[j].0 == *name {
                return Some(&self.entries[j].1);
            }
        }
        proof {
            assert(self@.take(0) =~= Seq::<(Seq<char>, JsonSpec)>::empty());
        }
        None
    }
}

/// Decodes one source row into a `RowMap`, in column order.
pub fn decode_row(row: &Vec<(String, RelationalValue)>) -> (r: RowMap)
    ensures
        r@ == decode_row_spec(row@),
{
    let mut entries: Vec<(String, JsonValue)> = Vec::new();
    let mut i: usize = 0;
    while i < row.len()
        invariant
            i <= row@.len(),
            entries@.len() == i,
            forall|k: int| 0 <= k < i ==> #[trigger] entries@[k].0@ == row@[k].0@
                && entries@[k].1@ == decode_spec(row@[k].1@),
        decreases row@.len() - i,
    {
        let name = row[i].0.clone();
        let value = decode_value(&row[i].1);
        entries.push((name, value));
        i = i + 1;
    }
    let r = RowMap { entries };
    proof {
        assert(r@ =~= decode_row_spec(row@));
    }
    r
}

/// Decodes every returned row, in row order.
pub fn decode_rows(rows: &Vec<Vec<(String, RelationalValue)>>) -> (r: Vec<RowMap>)
    ensures
        r@.len() == rows@.len(),
        forall|i: int| 0 <= i < rows@.len() ==> #[trigger] r@[i]@ == decode_row_spec(rows@[i]@),
{
    let mut r: Vec<RowMap> = Vec::new();
    let mut i: usize = 0;
    while i < rows.len()
        invariant
            i <= rows@.len(),
            r@.len() == i,
            forall|k: int| 0 <= k < i ==> #[trigger] r@[k]@ == decode_row_spec(rows@[k]@),
        decreases rows@.len() - i,
    {
        r.push(decode_row(&rows[i]));
        i = i + 1;
    }
    r
}

/// Law: a JSON string encoded as a bind parameter and re-read through a
/// byte-string column decodes to the same string.
pub proof fn lemma_text_round_trip(s: String)
    ensures
        decode_spec(encode_spec(JsonValue::Text(s))) == JsonSpec::Text(s@),
{
    broadcast use encode_utf8_valid_utf8, encode_utf8_decode_utf8;

}

/// Law: a JSON boolean encoded as a bind parameter and re-read through a
/// boolean column decodes to the 0/1 integer the store represents it by,
/// so the boolean's value is preserved.
pub proof fn lemma_bool_round_trip(b: bool)
    ensures
        decode_spec(encode_spec(JsonValue::Bool(b))) == JsonSpec::Num(
            NumberRepr::Int(if b { 1 } else { 0 }),
        ),
{
}

/// Law: every finite JSON number re-decodes to an equal number: integers
/// exactly, floating-point bit patterns unchanged.
pub proof fn lemma_number_round_trip(n: NumberRepr)
    ensures
        decode_spec(encode_spec(JsonValue::Num(n))) == JsonSpec::Num(n),
{
}

/// Law: decoding is total: every relational value kind maps to some JSON
/// scalar, never an array or an object, and never a missing value.
pub proof fn lemma_decode_total(v: RelSpec)
    ensures
        !(decode_spec(v) is Arr),
        !(decode_spec(v) is Obj),
{
}

/// Law: a decoded row's key sequence equals the source row's column names,
/// in column order, for every row.
pub proof fn lemma_row_key_order(row: Seq<(String, RelationalValue)>)
    ensures
        decode_row_spec(row).len() == row.len(),
        forall|i: int| 0 <= i < row.len() ==> #[trigger] decode_row_spec(row)[i].0 == row[i].0@,
{
}

} // verus!
