//! The JSON text of a record, as it travels in the body of a write.

use vstd::prelude::*;
use crate::record::{DnsRecord, DnsRecordView};

verus! {

/// The JSON string literal that stands for the text `s`: `s` between double
/// quotes, with the escapes that JSON asks for.
pub uninterp spec fn json_string(s: Seq<char>) -> Seq<char>;

/// The character of the decimal digit `d`.
pub open spec fn digit(d: nat) -> char
    recommends
        d < 10,
{
    if d == 0 {
        '0'
    } else if d == 1 {
        '1'
    } else if d == 2 {
        '2'
    } else if d == 3 {
        '3'
    } else if d == 4 {
        '4'
    } else if d == 5 {
        '5'
    } else if d == 6 {
        '6'
    } else if d == 7 {
        '7'
    } else if d == 8 {
        '8'
    } else {
        '9'
    }
}

/// `n` in decimal digits, without sign and without leading zeros.
pub open spec fn decimal(n: nat) -> Seq<char>
    decreases n,
{
    if n < 10 {
        seq![digit(n)]
    } else {
        decimal(n / 10).push(digit(n % 10))
    }
}

/// The JSON object of a record from the JSON texts of its five fields, in
/// the order content, id, type, name, ttl, without white space.
pub open spec fn record_object(
    content: Seq<char>,
    id: Seq<char>,
    record_type: Seq<char>,
    name: Seq<char>,
    ttl: Seq<char>,
) -> Seq<char> {
    "{\"content\":"@ + content + ",\"id\":"@ + id + ",\"type\":"@ + record_type + ",\"name\":"@
        + name + ",\"ttl\":"@ + ttl + "}"@
}

/// The JSON text of the record `r`.
pub open spec fn json_of(r: DnsRecordView) -> Seq<char> {
    record_object(
        json_string(r.content),
        json_string(r.id),
        json_string(r.record_type),
        json_string(r.name),
        decimal(r.ttl as nat),
    )
}

/// `serde_json`'s compact text of a string value (`Display` of
/// `serde_json::Value`): the JSON string literal for `s`. The text depends
/// on `s` alone.
#[verifier::external_body]
fn quote(s: &String) -> (res: String)
    ensures
        res@ == json_string(s@),
{
    serde_json::Value::String(s.clone()).to_string()
}

/// `serde_json`'s text of an unsigned number (`Display` of
/// `serde_json::Number`): its decimal digits.
#[verifier::external_body]
fn number(n: u32) -> (res: String)
    ensures
        res@ == decimal(n as nat),
{
    serde_json::Number::from(n).to_string()
}

/// Puts the JSON texts of a record's five fields together as one object.
pub fn frame_record(
    content: &String,
    id: &String,
    record_type: &String,
    name: &String,
    ttl: &String,
) -> (res: String)
    ensures
        res@ == record_object(content@, id@, record_type@, name@, ttl@),
{
    let mut body = "{\"content\":".to_owned();
    body.push_str(content.as_str());
    body.push_str(",\"id\":");
    body.push_str(id.as_str());
    body.push_str(",\"type\":");
    body.push_str(record_type.as_str());
    body.push_str(",\"name\":");
    body.push_str(name.as_str());
    body.push_str(",\"ttl\":");
    body.push_str(ttl.as_str());
    body.push_str("}");
    body
}

impl DnsRecord {
    /// The JSON text of this record: the body of a write.
    pub fn to_json(&self) -> (res: String)
        ensures
            res@ == json_of(self@),
    {
        let content = quote(&self.content);
        let id = quote(&self.id);
        let record_type = quote(&self.record_type);
        let name = quote(&self.name);
        let ttl = number(self.ttl);
        frame_record(&content, &id, &record_type, &name, &ttl)
    }
}

} // verus!
