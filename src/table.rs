//! The shape of the CSV files that the converter reads.
use vstd::prelude::*;

use convert_case::{Case, Casing};

use crate::formats::same_text;
use crate::path::views;

verus! {

/// One row of a squad list.
pub struct Record {
    pub name: String,
    pub position: String,
    pub dob: String,
    pub nationality: String,
    pub kit: u8,
}

/// The header row of a squad list.
pub open spec fn record_header() -> Seq<Seq<char>> {
    seq!["Name"@, "Position"@, "DOB"@, "Nationality"@, "Kit Number"@]
}

/// The text that convert_case makes of `s` in Pascal case.
pub uninterp spec fn pascal_case_of(s: Seq<char>) -> Seq<char>;

/// Relies on convert_case's `Casing::to_case` with `Case::Pascal`.
#[verifier::external_body]
fn to_pascal_case(s: &str) -> (r: String)
    ensures
        r@ == pascal_case_of(s@),
{
    s.to_case(Case::Pascal)
}

/// Whether `headers` is the header row of a squad list, so that its rows
/// read as records.
pub fn is_record_header(headers: &Vec<String>) -> (r: bool)
    ensures
        r == (views(headers@) == record_header()),
{
    let ghost want = record_header();
    if headers.len() != 5 {
        assert(views(headers@).len() != want.len());
        return false;
    }
    let a = same_text(headers[0].as_str(), "Name");
    let b = same_text(headers[1].as_str(), "Position");
    let c = same_text(headers[2].as_str(), "DOB");
    let d = same_text(headers[3].as_str(), "Nationality");
    let e = same_text(headers[4].as_str(), "Kit Number");
    let r = a && b && c && d && e;
    proof {
        let v = views(headers@);
        if r {
            assert(v =~= want);
        } else {
            assert(!a ==> v[0] != want[0]);
            assert(!b ==> v[1] != want[1]);
            assert(!c ==> v[2] != want[2]);
            assert(!d ==> v[3] != want[3]);
            assert(!e ==> v[4] != want[4]);
        }
    }
    r
}

/// Each header in Pascal case, in the same order.
pub fn pascal_headers(headers: &Vec<String>) -> (r: Vec<String>)
    ensures
        r@.len() == headers@.len(),
        forall|i: int| 0 <= i < r@.len() ==> #[trigger] r@[i]@ == pascal_case_of(headers@[i]@),
{
    let mut r: Vec<String> = Vec::new();
    let mut i: usize = 0;
    while i < headers.len()
        invariant
            i <= headers@.len(),
            r@.len() == i,
            forall|k: int| 0 <= k < i ==> #[trigger] r@[k]@ == pascal_case_of(headers@[k]@),
        decreases headers@.len() - i,
    {
        r.push(to_pascal_case(headers[i].as_str()));
        i = i + 1;
    }
    r
}

} // verus!
