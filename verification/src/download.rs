//! `alberto download`: where the content goes and what is reported.
use vstd::prelude::*;

use crate::client::{error_text, error_text_of};
use crate::text::{concat2, concat3, decimal, decimal_text, push_str};

verus! {

/// Where the content of node `id` is written: the destination given, else `<id>.bin`.
pub fn download_target(id: &str, dest: Option<String>) -> (r: String)
    ensures
        r@ == match dest {
            Some(d) => d@,
            None => id@ + ".bin"@,
        },
{
    match dest {
        Some(d) => d,
        None => concat2(id, ".bin"),
    }
}

/// The reply of `NodeContent`: the content when `ok`, else the business
/// error `{:error, reason}`.
pub fn content_or_error(ok: bool, content: Vec<u8>, error: &str) -> (r: Result<Vec<u8>, String>)
    ensures
        ok ==> r == Ok::<Vec<u8>, String>(content),
        !ok ==> (r matches Err(e) && e@ == error_text_of(error@)),
{
    if ok {
        Ok(content)
    } else {
        Err(error_text(error))
    }
}

/// The line reported once the content is written: `descargado: <path> (<n> bytes)`.
pub fn downloaded_message(path: &str, size: usize) -> (r: String)
    ensures
        r@ == "descargado: "@ + path@ + " ("@ + decimal(size as nat) + " bytes)"@,
{
    let mut r = concat3("descargado: ", path, " (");
    let n = decimal_text(size);
    push_str(&mut r, n.as_str());
    push_str(&mut r, " bytes)");
    r
}

} // verus!
