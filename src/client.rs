use vstd::prelude::*;
use vstd::string::StringExecFns;

use crate::apdu::{decode_apdu_data, hex_bytes, is_hex_text};
use crate::error::SpeculosError;
use crate::launch::{decimal, decimal_text, LaunchState};

verus! {

/// The base URL of the emulator's HTTP API on `port`.
pub open spec fn base_url(port: u16) -> Seq<char> {
    "http://localhost:"@ + decimal(port as nat)
}

/// `http://localhost:{port}` followed by `path`.
fn endpoint_url(port: u16, path: &str) -> (r: String)
    ensures
        r@ == base_url(port) + path@,
{
    let mut url = "http://localhost:".to_owned();
    url.append(decimal_text(port).as_str());
    url.append(path);
    url
}

/// The URL of the APDU endpoint.
pub fn apdu_url(port: u16) -> (r: String)
    ensures
        r@ == base_url(port) + "/apdu"@,
{
    endpoint_url(port, "/apdu")
}

/// The URL of the automation endpoint.
pub fn automation_url(port: u16) -> (r: String)
    ensures
        r@ == base_url(port) + "/automation"@,
{
    endpoint_url(port, "/automation")
}

/// A success status: in the range 200 to 299.
pub open spec fn is_success_status(status: u16) -> bool {
    200 <= status <= 299
}

/// Judges the automation endpoint's answer by its status: any status outside the success
/// range is an error carrying that status.
pub fn check_automation_status(status: u16) -> (r: Result<(), SpeculosError>)
    ensures
        r is Ok <==> is_success_status(status),
        !is_success_status(status) ==> (r matches Err(SpeculosError::Status(s)) && s == status),
{
    if 200 <= status && status <= 299 {
        Ok(())
    } else {
        Err(SpeculosError::Status(status))
    }
}

/// Turns the `data` text of an APDU response into the response bytes; text that is not
/// valid hex is an error, never a truncated or empty buffer.
pub fn apdu_response_bytes(data: &str) -> (r: Result<Vec<u8>, SpeculosError>)
    ensures
        r is Ok <==> is_hex_text(data@),
        r matches Ok(v) ==> v@ == hex_bytes(data@),
        !is_hex_text(data@) ==> r matches Err(SpeculosError::Decode(_)),
{
    match decode_apdu_data(data) {
        Ok(v) => Ok(v),
        Err(e) => Err(SpeculosError::Decode(e)),
    }
}

/// The outcome of the start-up handshake once the diagnostic stream has been read: only a
/// ready emulator yields a usable client.
pub fn launch_outcome(state: LaunchState) -> (r: Result<(), SpeculosError>)
    ensures
        r is Ok <==> state == LaunchState::Ready,
        state != LaunchState::Ready ==> r matches Err(SpeculosError::NotReady),
{
    match state {
        LaunchState::Ready => Ok(()),
        _ => Err(SpeculosError::NotReady),
    }
}

} // verus!
