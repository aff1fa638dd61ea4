//! The fixed configuration the index is provisioned with: its name,
//! primary key, displayed and searchable attributes, ranking rules,
//! and synonym table.

use vstd::prelude::*;

verus! {

/// The name the index is created, queried and deleted under.
pub fn index_name() -> (r: String)
    ensures
        r@ == "clothes"@,
{
    let mut s = String::new();
    s.append("clothes");
    s
}

/// The record field that keys documents in the index.
pub fn primary_key() -> (r: String)
    ensures
        r@ == "id"@,
{
    let mut s = String::new();
    s.append("id");
    s
}

/// The attributes the index returns with each hit.
pub fn displayed_attributes() -> (r: Vec<String>)
    ensures
        r@.len() == 4,
        r@[0]@ == "article"@,
        r@[1]@ == "cost"@,
        r@[2]@ == "size"@,
        r@[3]@ == "pattern"@,
{
    let mut v: Vec<String> = Vec::new();
    v.push(make("article"));
    v.push(make("cost"));
    v.push(make("size"));
    v.push(make("pattern"));
    v
}

/// The attributes free-text queries are matched against; `seaon`
/// keeps the misspelled field name the catalog file uses.
pub fn searchable_attributes() -> (r: Vec<String>)
    ensures
        r@.len() == 4,
        r@[0]@ == "seaon"@,
        r@[1]@ == "article"@,
        r@[2]@ == "size"@,
        r@[3]@ == "pattern"@,
{
    let mut v: Vec<String> = Vec::new();
    v.push(make("seaon"));
    v.push(make("article"));
    v.push(make("size"));
    v.push(make("pattern"));
    v
}

/// The ranking rules, in tie-break order: word match, typo distance,
/// attribute match, exactness, then ascending cost.
pub fn ranking_rules() -> (r: Vec<String>)
    ensures
        r@.len() == 5,
        r@[0]@ == "words"@,
        r@[1]@ == "typo"@,
        r@[2]@ == "attribute"@,
        r@[3]@ == "exactness"@,
        r@[4]@ == "cost:asc"@,
{
    let mut v: Vec<String> = Vec::new();
    v.push(make("words"));
    v.push(make("typo"));
    v.push(make("attribute"));
    v.push(make("exactness"));
    v.push(make("cost:asc"));
    v
}

/// The synonym table: each canonical term with the terms the index
/// treats as equivalent to it.
pub fn synonym_table() -> (r: Vec<(String, Vec<String>)>)
    ensures
        r@.len() == 3,
        r@[0].0@ == "sweater"@,
        r@[0].1@.len() == 2,
        r@[0].1@[0]@ == "sweatshirt"@,
        r@[0].1@[1]@ == "long-sleeve"@,
        r@[1].0@ == "sweat pants"@,
        r@[1].1@.len() == 1,
        r@[1].1@[0]@ == "joggers"@,
        r@[2].0@ == "t-shirt"@,
        r@[2].1@.len() == 2,
        r@[2].1@[0]@ == "tees"@,
        r@[2].1@[1]@ == "tshirt"@,
{
    let mut sweater: Vec<String> = Vec::new();
    sweater.push(make("sweatshirt"));
    sweater.push(make("long-sleeve"));
    let mut pants: Vec<String> = Vec::new();
    pants.push(make("joggers"));
    let mut tshirt: Vec<String> = Vec::new();
    tshirt.push(make("tees"));
    tshirt.push(make("tshirt"));
    let mut v: Vec<(String, Vec<String>)> = Vec::new();
    v.push((make("sweater"), sweater));
    v.push((make("sweat pants"), pants));
    v.push((make("t-shirt"), tshirt));
    v
}

fn make(text: &str) -> (r: String)
    ensures
        r@ == text@,
{
    let mut s = String::new();
    s.append(text);
    s
}

} // verus!
