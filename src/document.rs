//! The catalog document in JSON: which members it has, under which keys, and
//! how a JSON value is read as a document and a document written as one.
//!
//! Required members are `title` and `dateReleased`. An optional member that
//! is missing or `null` reads as `None`; one present with an empty string
//! reads as `Some` of it. Members of another kind make the value no document.

use vstd::prelude::*;

use serde_json::{Map as JsonMap, Value};

use crate::json::{
    array_value, empty_object, int_value, json_int, json_is_null, json_items, json_member,
    json_parse, json_pretty, json_text, member, null_value, object_entries, object_value, parse_json,
    pretty_json, put_member, text_value,
};
use crate::model::{entries_view, Kev, KevView, Vulnerability, VulnerabilityView, opt_str_view};

verus! {

/// Why bytes could not be read as a catalog document.
#[derive(Debug, Clone, Copy, PartialEq, Eq, Structural)]
pub enum ParseError {
    /// The bytes are not well-formed JSON.
    NotJson,
    /// The JSON lacks a required member, or a member is of the wrong kind.
    NotCatalog,
}

/// The text under `key`, if that member is a string.
pub open spec fn text_member(v: Value, key: Seq<char>) -> Option<Seq<char>> {
    match json_member(v, key) {
        Some(x) => json_text(x),
        None => None,
    }
}

/// An optional string member: `Some(None)` when missing or null, `None` when
/// of another kind.
pub open spec fn opt_text_member(v: Value, key: Seq<char>) -> Option<Option<Seq<char>>> {
    match json_member(v, key) {
        None => Some(None),
        Some(x) => if json_is_null(x) {
            Some(None)
        } else {
            match json_text(x) {
                Some(s) => Some(Some(s)),
                None => None,
            }
        },
    }
}

/// An optional integer member, read as `opt_text_member` reads a string.
pub open spec fn opt_int_member(v: Value, key: Seq<char>) -> Option<Option<i64>> {
    match json_member(v, key) {
        None => Some(None),
        Some(x) => if json_is_null(x) {
            Some(None)
        } else {
            match json_int(x) {
                Some(n) => Some(Some(n)),
                None => None,
            }
        },
    }
}

/// A catalog entry: an object with the nine string members.
pub open spec fn decode_entry(v: Value) -> Option<VulnerabilityView> {
    if text_member(v, "cveID"@) is Some && text_member(v, "vendorProject"@) is Some
        && text_member(v, "product"@) is Some && text_member(v, "vulnerabilityName"@) is Some
        && text_member(v, "dateAdded"@) is Some && text_member(v, "shortDescription"@) is Some
        && text_member(v, "requiredAction"@) is Some && text_member(v, "dueDate"@) is Some
        && text_member(v, "notes"@) is Some {
        Some(
            VulnerabilityView {
                cve_id: text_member(v, "cveID"@)->0,
                vendor_project: text_member(v, "vendorProject"@)->0,
                product: text_member(v, "product"@)->0,
                vulnerability_name: text_member(v, "vulnerabilityName"@)->0,
                date_added: text_member(v, "dateAdded"@)->0,
                short_description: text_member(v, "shortDescription"@)->0,
                required_action: text_member(v, "requiredAction"@)->0,
                due_date: text_member(v, "dueDate"@)->0,
                notes: text_member(v, "notes"@)->0,
            },
        )
    } else {
        None
    }
}

/// A list of entries, each of which must read as one.
pub open spec fn decode_entries(items: Seq<Value>) -> Option<Seq<VulnerabilityView>> {
    if forall|i: int| 0 <= i < items.len() ==> (#[trigger] decode_entry(items[i])) is Some {
        Some(Seq::new(items.len(), |i: int| decode_entry(items[i])->0))
    } else {
        None
    }
}

/// The optional list of entries under `key`.
pub open spec fn opt_entries_member(v: Value, key: Seq<char>) -> Option<
    Option<Seq<VulnerabilityView>>,
> {
    match json_member(v, key) {
        None => Some(None),
        Some(x) => if json_is_null(x) {
            Some(None)
        } else {
            match json_items(x) {
                Some(items) => match decode_entries(items) {
                    Some(es) => Some(Some(es)),
                    None => None,
                },
                None => None,
            }
        },
    }
}

/// The catalog document that a JSON value holds, if it holds one.
pub open spec fn decode_doc(v: Value) -> Option<KevView> {
    let title = text_member(v, "title"@);
    let version = opt_text_member(v, "catalogVersion"@);
    let released = text_member(v, "dateReleased"@);
    let count = opt_int_member(v, "count"@);
    let entries = opt_entries_member(v, "vulnerabilities"@);
    if title is Some && version is Some && released is Some && count is Some && entries is Some {
        Some(
            KevView {
                title: title->0,
                catalog_version: version->0,
                date_released: released->0,
                count: count->0,
                vulnerabilities: entries->0,
            },
        )
    } else {
        None
    }
}

fn text_field(v: &Value, key: &str) -> (r: Option<String>)
    ensures
        opt_str_view(r) == text_member(*v, key@),
{
    match member(v, key) {
        Some(x) => match x.as_str() {
            Some(s) => Some(s.to_owned()),
            None => None,
        },
        None => None,
    }
}

fn opt_text_field(v: &Value, key: &str) -> (r: Option<Option<String>>)
    ensures
        match r {
            Some(o) => opt_text_member(*v, key@) == Some(opt_str_view(o)),
            None => opt_text_member(*v, key@) is None,
        },
{
    match member(v, key) {
        None => Some(None),
        Some(x) => if x.is_null() {
            Some(None)
        } else {
            match x.as_str() {
                Some(s) => Some(Some(s.to_owned())),
                None => None,
            }
        },
    }
}

fn opt_int_field(v: &Value, key: &str) -> (r: Option<Option<i64>>)
    ensures
        r == opt_int_member(*v, key@),
{
    match member(v, key) {
        None => Some(None),
        Some(x) => if x.is_null() {
            Some(None)
        } else {
            match x.as_i64() {
                Some(n) => Some(Some(n)),
                None => None,
            }
        },
    }
}

impl Vulnerability {
    /// Reads a catalog entry from a JSON value.
    pub fn from_value(v: &Value) -> (r: Option<Vulnerability>)
        ensures
            match r {
                Some(e) => decode_entry(*v) == Some(e@),
                None => decode_entry(*v) is None,
            },
    {
        let cve_id = match text_field(v, "cveID") {
            Some(s) => s,
            None => return None,
        };
        let vendor_project = match text_field(v, "vendorProject") {
            Some(s) => s,
            None => return None,
        };
        let product = match text_field(v, "product") {
            Some(s) => s,
            None => return None,
        };
        let vulnerability_name = match text_field(v, "vulnerabilityName") {
            Some(s) => s,
            None => return None,
        };
        let date_added = match text_field(v, "dateAdded") {
            Some(s) => s,
            None => return None,
        };
        let short_description = match text_field(v, "shortDescription") {
            Some(s) => s,
            None => return None,
        };
        let required_action = match text_field(v, "requiredAction") {
            Some(s) => s,
            None => return None,
        };
        let due_date = match text_field(v, "dueDate") {
            Some(s) => s,
            None => return None,
        };
        let notes = match text_field(v, "notes") {
            Some(s) => s,
            None => return None,
        };
        Some(
            Vulnerability {
                cve_id,
                vendor_project,
                product,
                vulnerability_name,
                date_added,
                short_description,
                required_action,
                due_date,
                notes,
            },
        )
    }
}

fn entries_from(items: &Vec<Value>) -> (r: Option<Vec<Vulnerability>>)
    ensures
        match r {
            Some(es) => decode_entries(items@) == Some(entries_view(es@)),
            None => decode_entries(items@) is None,
        },
{
    let mut out: Vec<Vulnerability> = Vec::new();
    let mut i: usize = 0;
    while i < items.len()
        invariant
            i <= items.len(),
            out@.len() == i,
            forall|j: int| 0 <= j < i ==> decode_entry(items@[j]) == Some(#[trigger] out@[j]@),
        decreases items.len() - i,
    {
        match Vulnerability::from_value(&items[i]) {
            Some(e) => out.push(e),
            None => return None,
        }
        i += 1;
    }
    proof {
        assert(decode_entries(items@) == Some(entries_view(out@))) by {
            assert forall|j: int| 0 <= j < items@.len() implies (#[trigger] decode_entry(
                items@[j],
            )) is Some by {
                assert(decode_entry(items@[j]) == Some(out@[j]@));
            }
            assert(Seq::new(items@.len(), |j: int| decode_entry(items@[j])->0) =~= entries_view(
                out@,
            ));
        }
    }
    Some(out)
}

fn opt_entries_field(v: &Value, key: &str) -> (r: Option<Option<Vec<Vulnerability>>>)
    ensures
        match r {
            Some(Some(es)) => opt_entries_member(*v, key@) == Some(Some(entries_view(es@))),
            Some(None) => opt_entries_member(*v, key@) == Some(None::<Seq<VulnerabilityView>>),
            None => opt_entries_member(*v, key@) is None,
        },
{
    match member(v, key) {
        None => Some(None),
        Some(x) => if x.is_null() {
            Some(None)
        } else {
            match x.as_array() {
                Some(items) => match entries_from(items) {
                    Some(es) => Some(Some(es)),
                    None => None,
                },
                None => None,
            }
        },
    }
}

impl Kev {
    /// Reads a catalog document from a JSON value: exactly when the value
    /// holds one, and then the document it holds.
    pub fn from_value(v: &Value) -> (r: Result<Kev, ParseError>)
        ensures
            match r {
                Ok(k) => decode_doc(*v) == Some(k@),
                Err(e) => decode_doc(*v) is None && e == ParseError::NotCatalog,
            },
    {
        let title = match text_field(v, "title") {
            Some(s) => s,
            None => return Err(ParseError::NotCatalog),
        };
        let catalog_version = match opt_text_field(v, "catalogVersion") {
            Some(o) => o,
            None => return Err(ParseError::NotCatalog),
        };
        let date_released = match text_field(v, "dateReleased") {
            Some(s) => s,
            None => return Err(ParseError::NotCatalog),
        };
        let count = match opt_int_field(v, "count") {
            Some(o) => o,
            None => return Err(ParseError::NotCatalog),
        };
        let vulnerabilities = match opt_entries_field(v, "vulnerabilities") {
            Some(o) => o,
            None => return Err(ParseError::NotCatalog),
        };
        Ok(Kev { title, catalog_version, date_released, count, vulnerabilities })
    }

    /// Reads a catalog document from JSON bytes.
    pub fn parse(bytes: &[u8]) -> (r: Result<Kev, ParseError>)
        ensures
            match json_parse(bytes@) {
                None => r == Err::<Kev, ParseError>(ParseError::NotJson),
                Some(v) => match decode_doc(v) {
                    Some(d) => r matches Ok(k) && k@ == d,
                    None => r == Err::<Kev, ParseError>(ParseError::NotCatalog),
                },
            },
    {
        match parse_json(bytes) {
            None => Err(ParseError::NotJson),
            Some(v) => Kev::from_value(&v),
        }
    }
}

/// The member keys of documents and entries are told apart by their first
/// two characters.
proof fn member_keys_differ()
    ensures
        "cveID"@[0] == 'c' && "cveID"@[1] == 'v',
        "vendorProject"@[0] == 'v' && "vendorProject"@[1] == 'e',
        "product"@[0] == 'p' && "product"@[1] == 'r',
        "vulnerabilityName"@[0] == 'v' && "vulnerabilityName"@[1] == 'u',
        "dateAdded"@[0] == 'd' && "dateAdded"@[1] == 'a',
        "shortDescription"@[0] == 's' && "shortDescription"@[1] == 'h',
        "requiredAction"@[0] == 'r' && "requiredAction"@[1] == 'e',
        "dueDate"@[0] == 'd' && "dueDate"@[1] == 'u',
        "notes"@[0] == 'n' && "notes"@[1] == 'o',
        "title"@[0] == 't' && "title"@[1] == 'i',
        "catalogVersion"@[0] == 'c' && "catalogVersion"@[1] == 'a',
        "dateReleased"@[0] == 'd' && "dateReleased"@[1] == 'a',
        "count"@[0] == 'c' && "count"@[1] == 'o',
        "vulnerabilities"@[0] == 'v' && "vulnerabilities"@[1] == 'u',
{
    reveal_strlit("cveID");
    reveal_strlit("vendorProject");
    reveal_strlit("product");
    reveal_strlit("vulnerabilityName");
    reveal_strlit("dateAdded");
    reveal_strlit("shortDescription");
    reveal_strlit("requiredAction");
    reveal_strlit("dueDate");
    reveal_strlit("notes");
    reveal_strlit("title");
    reveal_strlit("catalogVersion");
    reveal_strlit("dateReleased");
    reveal_strlit("count");
    reveal_strlit("vulnerabilities");
}

fn entries_value(es: &Vec<Vulnerability>) -> (r: Value)
    ensures
        !json_is_null(r),
        json_items(r) matches Some(items) && decode_entries(items) == Some(entries_view(es@)),
{
    let mut items: Vec<Value> = Vec::new();
    let mut i: usize = 0;
    while i < es.len()
        invariant
            i <= es.len(),
            items@.len() == i,
            forall|j: int| 0 <= j < i ==> decode_entry(#[trigger] items@[j]) == Some(es@[j]@),
        decreases es.len() - i,
    {
        items.push(es[i].to_value());
        i += 1;
    }
    proof {
        assert forall|j: int| 0 <= j < items@.len() implies (#[trigger] decode_entry(
            items@[j],
        )) is Some by {}
        assert(Seq::new(items@.len(), |j: int| decode_entry(items@[j])->0) =~= entries_view(es@));
    }
    array_value(items)
}

fn opt_text_value(s: &Option<String>) -> (r: Value)
    ensures
        json_is_null(r) <==> s is None,
        s matches Some(t) ==> json_text(r) == Some(t@),
{
    match s {
        Some(t) => text_value(t.clone()),
        None => null_value(),
    }
}

impl Vulnerability {
    /// Writes a catalog entry as a JSON object; it reads back as the entry.
    pub fn to_value(&self) -> (r: Value)
        ensures
            decode_entry(r) == Some(self@),
    {
        let mut m: JsonMap<String, Value> = empty_object();
        put_member(&mut m, "cveID".to_owned(), text_value(self.cve_id.clone()));
        put_member(&mut m, "vendorProject".to_owned(), text_value(self.vendor_project.clone()));
        put_member(&mut m, "product".to_owned(), text_value(self.product.clone()));
        put_member(&mut m, "vulnerabilityName".to_owned(), text_value(self.vulnerability_name.clone()));
        put_member(&mut m, "dateAdded".to_owned(), text_value(self.date_added.clone()));
        put_member(&mut m, "shortDescription".to_owned(), text_value(self.short_description.clone()));
        put_member(&mut m, "requiredAction".to_owned(), text_value(self.required_action.clone()));
        put_member(&mut m, "dueDate".to_owned(), text_value(self.due_date.clone()));
        put_member(&mut m, "notes".to_owned(), text_value(self.notes.clone()));
        proof {
            member_keys_differ();
        }
        object_value(m)
    }
}

impl Kev {
    /// Writes the document as a JSON object; absent optional members are
    /// written as `null`. The object reads back as the document.
    pub fn to_value(&self) -> (r: Value)
        ensures
            decode_doc(r) == Some(self@),
    {
        let mut m: JsonMap<String, Value> = empty_object();
        put_member(&mut m, "title".to_owned(), text_value(self.title.clone()));
        put_member(&mut m, "catalogVersion".to_owned(), opt_text_value(&self.catalog_version));
        put_member(&mut m, "dateReleased".to_owned(), text_value(self.date_released.clone()));
        let count = match self.count {
            Some(n) => int_value(n),
            None => null_value(),
        };
        put_member(&mut m, "count".to_owned(), count);
        let entries = match &self.vulnerabilities {
            Some(es) => entries_value(es),
            None => null_value(),
        };
        put_member(&mut m, "vulnerabilities".to_owned(), entries);
        proof {
            member_keys_differ();
        }
        object_value(m)
    }

    /// The document as indented JSON: serde_json's writing of a value that
    /// reads back as the document; `None` where serde_json fails to write it.
    pub fn serialize(&self) -> (r: Option<Vec<u8>>)
        ensures
            exists|v: Value|
                decode_doc(v) == Some(self@) && match r {
                    Some(b) => json_pretty(v) == Some(b@),
                    None => json_pretty(v) is None,
                },
    {
        let v = self.to_value();
        pretty_json(&v)
    }
}

} // verus!
