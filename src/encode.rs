use vstd::prelude::*;
use crate::error::GatewayError;

verus! {

/// serde_json's error type, which serde_json::to_string returns on failure;
/// carried through opaque and turned into text by its `Display`.
#[verifier::external_type_specification]
#[verifier::external_body]
pub struct ExJsonError(serde_json::Error);

/// The JSON text that serde_json writes for an array of arrays of strings.
pub uninterp spec fn json_of_rows(rows: Seq<Seq<Seq<char>>>) -> Seq<char>;

/// Relies on serde_json::to_string: the compact JSON text of the rows, which
/// depends on the rows alone. Strings and sequences fail only on a write
/// error, and writing into the in-memory buffer never gives one. No rows
/// give an opened and closed array, `[]`.
#[verifier::external_body]
fn rows_to_json(rows: &Vec<Vec<String>>) -> (r: Result<String, serde_json::Error>)
    ensures
        r is Ok,
        r->Ok_0@ == json_of_rows(rows.deep_view()),
        rows@.len() == 0 ==> r->Ok_0@ == "[]"@,
{
    serde_json::to_string(rows)
}

/// The rows that a read returns: those the service reported, or none where it
/// reported no values.
pub open spec fn reported_rows(fetched: Option<Vec<Vec<String>>>) -> Seq<Seq<Seq<char>>> {
    match fetched {
        Some(rows) => rows.deep_view(),
        None => Seq::empty(),
    }
}

/// The outcome of encoding, with the encoder's error turned into
/// `Serialization`.
pub fn encoded_or_error(encoded: Result<String, serde_json::Error>) -> (r: Result<String, GatewayError>)
    ensures
        r is Ok <==> encoded is Ok,
        r is Ok ==> r->Ok_0 == encoded->Ok_0,
        r is Err ==> r->Err_0 is Serialization,
{
    match encoded {
        Ok(s) => Ok(s),
        Err(e) => Err(GatewayError::Serialization(e.to_string())),
    }
}

/// The JSON text of the rows a read fetched (`None`: the service reported no
/// values, which reads as no rows).
pub fn encode_rows(fetched: Option<Vec<Vec<String>>>) -> (r: Result<String, GatewayError>)
    ensures
        r is Ok,
        r->Ok_0@ == json_of_rows(reported_rows(fetched)),
        reported_rows(fetched).len() == 0 ==> r->Ok_0@ == "[]"@,
{
    let rows = match fetched {
        Some(v) => v,
        None => Vec::new(),
    };
    proof {
        if fetched is None {
            assert(rows.deep_view() =~= Seq::<Seq<Seq<char>>>::empty());
        }
    }
    encoded_or_error(rows_to_json(&rows))
}

} // verus!
