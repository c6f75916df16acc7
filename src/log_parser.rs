use vstd::prelude::*;
use crate::attributes::{Attribute, attrs_view};
use crate::json::{
    decode_json_string, json_string_content, leading_json_object, parsed_view,
    read_leading_json_object,
};

verus! {

pub open spec fn is_first_brace(s: Seq<char>, i: int) -> bool {
    &&& 0 <= i < s.len()
    &&& s[i] == '{'
    &&& forall|j: int| 0 <= j < i ==> s[j] != '{'
}

pub open spec fn has_brace(s: Seq<char>) -> bool {
    exists|i: int| 0 <= i < s.len() && s[i] == '{'
}

/// The text an attribute holds for a JSON value given as its compact JSON text:
/// a string's content verbatim, any other value its JSON text.
pub open spec fn field_text(t: Seq<char>) -> Seq<char> {
    match json_string_content(t) {
        Some(c) => c,
        None => t,
    }
}

/// The attributes of a log line, given what reading the JSON object at its first
/// brace produced.
pub open spec fn attrs_from_parse(
    record: Seq<char>,
    parsed: Result<Seq<(Seq<char>, Seq<char>)>, Seq<char>>,
) -> Seq<(Seq<char>, Seq<char>)> {
    match parsed {
        Ok(entries) => entries.map_values(|e: (Seq<char>, Seq<char>)| (e.0, field_text(e.1))),
        Err(msg) => seq![("error"@, msg), ("raw_log"@, record)],
    }
}

/// The attributes extracted from one free-form log line.
pub open spec fn log_attributes(s: Seq<char>) -> Seq<(Seq<char>, Seq<char>)> {
    if has_brace(s) {
        let i = choose|i: int| is_first_brace(s, i);
        attrs_from_parse(s, leading_json_object(s.subrange(i, s.len() as int)))
    } else {
        seq![("raw_log"@, s)]
    }
}

/// The position of the first `{` in `s`, counted in characters.
pub fn first_brace(s: &str) -> (r: Option<usize>)
    ensures
        r matches Some(i) ==> is_first_brace(s@, i as int),
        r is None <==> !has_brace(s@),
{
    let n = s.unicode_len();
    let mut i: usize = 0;
    while i < n
        invariant
            n == s@.len(),
            i <= n,
            forall|j: int| 0 <= j < i ==> s@[j] != '{',
        decreases n - i,
    {
        if s.get_char(i) == '{' {
            return Some(i);
        }
        i = i + 1;
    }
    None
}

/// Builds the attributes of `record` from the result of reading the JSON object
/// at its first brace.
pub fn attributes_from_parse(record: &str, parsed: Result<Vec<(String, String)>, String>) -> (r: Vec<Attribute>)
    ensures
        attrs_view(r@) == attrs_from_parse(record@, parsed_view(parsed)),
{
    match parsed {
        Ok(entries) => {
            let mut out: Vec<Attribute> = Vec::new();
            let mut k: usize = 0;
            while k < entries.len()
                invariant
                    k <= entries@.len(),
                    out@.len() == k,
                    forall|j: int| 0 <= j < k ==> #[trigger] out@[j]@ == (entries@[j].0@, field_text(entries@[j].1@)),
                decreases entries@.len() - k,
            {
                let key = entries[k].0.clone();
                let text = &entries[k].1;
                let value = match decode_json_string(text.as_str()) {
                    Some(c) => c,
                    None => text.clone(),
                };
                out.push(Attribute { key, value });
                k = k + 1;
            }
            assert(attrs_view(out@) =~= attrs_from_parse(record@, parsed_view(Ok(entries))));
            out
        },
        Err(msg) => {
            let r = vec![Attribute::new("error", msg), Attribute::new("raw_log", record.to_string())];
            assert(attrs_view(r@) =~= seq![("error"@, msg@), ("raw_log"@, record@)]);
            r
        },
    }
}

/// Extracts the attributes of one free-form log line: the fields of the JSON
/// object that starts at its first brace, or a fallback that keeps the raw text.
pub fn parse_function_log(record: &str) -> (r: Vec<Attribute>)
    ensures
        attrs_view(r@) == log_attributes(record@),
        !has_brace(record@) ==> attrs_view(r@) == seq![("raw_log"@, record@)],
{
    match first_brace(record) {
        None => {
            let r = vec![Attribute::new("raw_log", record.to_string())];
            assert(attrs_view(r@) =~= seq![("raw_log"@, record@)]);
            r
        },
        Some(i) => {
            let n = record.unicode_len();
            let tail = record.substring_char(i, n);
            let parsed = read_leading_json_object(tail);
            proof {
                let j = choose|j: int| is_first_brace(record@, j);
                assert(j == i as int) by {
                    if j < i { assert(record@[j] != '{'); }
                    if j > i { assert(record@[i as int] != '{'); }
                }
            }
            attributes_from_parse(record, parsed)
        },
    }
}

} // verus!
