//! How replies of NodeService are shown, and what the API key must be to
//! travel as `x-api-key` metadata.
use vstd::prelude::*;

use crate::cli::Output;
use crate::json::{
    json_accepts, json_array_items, json_array_items_of, json_compact, json_compact_of, json_pretty,
    json_pretty_of,
};
use crate::table::{format_table, table_text};
use crate::text::{concat3, owned};

verus! {

/// The characters that `tonic` (through `http::HeaderValue`) accepts in an
/// ASCII metadata value: a tab, or any character from the space upward
/// except DEL (every byte of a non-ASCII character is above 127).
pub open spec fn metadata_value_ok(s: Seq<char>) -> bool {
    forall|i: int| 0 <= i < s.len() ==> (#[trigger] s[i] == '\t' || (' ' <= s[i] && s[i] != '\u{7f}'))
}

/// Calls `MetadataValue::<Ascii>::from_str` and reports whether it succeeded.
#[verifier::external_body]
fn metadata_value_accepts(key: &str) -> (b: bool)
    ensures
        b == metadata_value_ok(key@),
{
    key.parse::<tonic::metadata::MetadataValue<tonic::metadata::Ascii>>().is_ok()
}

/// Why a request cannot be sent.
pub enum ClientError {
    /// The API key holds characters that metadata cannot carry.
    InvalidApiKey,
}

impl ClientError {
    /// The message shown to the user.
    pub fn describe(&self) -> (r: String)
        ensures
            r@ == "api key con caracteres invalidos"@,
    {
        owned("api key con caracteres invalidos")
    }
}

/// Checks that the API key can travel as `x-api-key` metadata.
pub fn check_api_key(api_key: &str) -> (r: Result<(), ClientError>)
    ensures
        r is Ok == metadata_value_ok(api_key@),
{
    if metadata_value_accepts(api_key) {
        Ok(())
    } else {
        Err(ClientError::InvalidApiKey)
    }
}

/// The text of a business error `{:error, reason}`.
pub open spec fn error_text_of(error: Seq<char>) -> Seq<char> {
    "{:error, "@ + error + "}"@
}

/// Writes a business error as `{:error, reason}`.
pub fn error_text(error: &str) -> (r: String)
    ensures
        r@ == error_text_of(error@),
{
    concat3("{:error, ", error, "}")
}

/// What a successful reply prints in each output format: `raw` the text as
/// it came; `json` compact JSON; `table` the columns of a JSON array of
/// nodes; `pretty`, and `table` for anything but an array, indented JSON; a
/// text that is not JSON is printed as it came.
pub open spec fn rendered(output: Output, result_json: Seq<char>) -> Seq<char> {
    match output {
        Output::Raw => result_json,
        Output::Json => if json_accepts(result_json) {
            json_compact_of(result_json)
        } else {
            result_json
        },
        Output::Table if json_array_items_of(result_json) is Some => table_text(
            json_array_items_of(result_json)->0,
        ),
        _ => if json_accepts(result_json) {
            json_pretty_of(result_json)
        } else {
            result_json
        },
    }
}

/// Indented JSON, or the text as it came when it is not JSON.
fn pretty_or_raw(result_json: &str) -> (r: String)
    ensures
        r@ == if json_accepts(result_json@) {
            json_pretty_of(result_json@)
        } else {
            result_json@
        },
{
    match json_pretty(result_json) {
        Some(s) => s,
        None => owned(result_json),
    }
}

/// A monadic reply: `ok` gives the text for stdout, otherwise the error text
/// `{:error, reason}` for stderr.
pub fn monadic_text(ok: bool, result_json: &str, error: &str, output: Output) -> (r: Result<
    String,
    String,
>)
    ensures
        ok ==> (r matches Ok(s) && s@ == rendered(output, result_json@)),
        !ok ==> (r matches Err(e) && e@ == error_text_of(error@)),
{
    if !ok {
        return Err(error_text(error));
    }
    match output {
        Output::Raw => Ok(owned(result_json)),
        Output::Json => match json_compact(result_json) {
            Some(s) => Ok(s),
            None => Ok(owned(result_json)),
        },
        Output::Table => match json_array_items(result_json) {
            Some(items) => Ok(format_table(&items)),
            None => Ok(pretty_or_raw(result_json)),
        },
        Output::Pretty => Ok(pretty_or_raw(result_json)),
    }
}

} // verus!
