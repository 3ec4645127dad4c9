//! The node's own measured state: where it is read from, and what the outcome
//! of a read means.
use vstd::prelude::*;
use vstd::string::*;
use vstd::utf8::*;

use crate::text::opt_bytes;

verus! {

/// Where the firmware keeps its measured-boot log.
pub const FIRMWARE_EVENT_LOG: &'static str = "/sys/kernel/security/tpm0/binary_bios_measurements";

/// Where the kernel keeps its runtime measurement list.
pub const IMA_RUNTIME_LIST: &'static str = "/sys/kernel/security/ima/ascii_runtime_measurements";

/// The environment variable that names another firmware log.
pub const ENV_FIRMWARE_EVENT_LOG: &'static str = "CITADEL_FIRMWARE_EVENT_LOG";

/// The environment variable that names another runtime list.
pub const ENV_IMA_RUNTIME_LIST: &'static str = "CITADEL_IMA_RUNTIME_LIST";

/// Why a file could not be read.
#[derive(Debug)]
pub enum ReadFailure {
    /// There is no such file.
    NotFound,
    /// Anything else, in words.
    Other(String),
}

/// Text from bytes, with a stand-in for what is no text.
pub uninterp spec fn lossy_text(bytes: Seq<u8>) -> Seq<char>;

/// `String::from_utf8_lossy`: bytes that are UTF-8 give their text. In others,
/// what is no text is replaced; of that nothing more is stated than that it
/// depends on the bytes alone.
#[verifier::external_body]
fn text_lossy(bytes: Vec<u8>) -> (s: String)
    ensures
        s@ == lossy_text(bytes@),
        valid_utf8(bytes@) ==> s@ == decode_utf8(bytes@),
{
    String::from_utf8_lossy(&bytes).into_owned()
}

/// What a read amounts to: a file that is absent or empty holds nothing, which
/// is no failure.
pub open spec fn read_means(read: Result<Vec<u8>, ReadFailure>) -> Result<
    Option<Seq<u8>>,
    Seq<char>,
> {
    match read {
        Ok(b) => Ok(
            if b@.len() == 0 {
                None
            } else {
                Some(b@)
            },
        ),
        Err(ReadFailure::NotFound) => Ok(None),
        Err(ReadFailure::Other(e)) => Err(e@),
    }
}

/// The firmware log, given the outcome of reading its file. A node without
/// measured boot has none.
pub fn firmware_event_log_at(read: Result<Vec<u8>, ReadFailure>) -> (r: Result<
    Option<Vec<u8>>,
    ReadFailure,
>)
    ensures
        match r {
            Ok(log) => read_means(read) == Ok::<Option<Seq<u8>>, Seq<char>>(opt_bytes(log)),
            Err(ReadFailure::Other(e)) => read_means(read) == Err::<Option<Seq<u8>>, Seq<char>>(
                e@,
            ),
            Err(ReadFailure::NotFound) => false,
        },
{
    match read {
        Ok(b) => if b.len() == 0 {
            Ok(None)
        } else {
            Ok(Some(b))
        },
        Err(ReadFailure::NotFound) => Ok(None),
        Err(ReadFailure::Other(e)) => Err(ReadFailure::Other(e)),
    }
}

/// The runtime measurement list, given the outcome of reading its file. A node
/// whose kernel does not measure has none.
pub fn ima_runtime_list_at(read: Result<Vec<u8>, ReadFailure>) -> (r: Result<
    Option<String>,
    ReadFailure,
>)
    ensures
        match read_means(read) {
            Ok(None) => r matches Ok(None),
            Ok(Some(b)) => r matches Ok(Some(s)) && s@ == lossy_text(b) && (valid_utf8(b) ==> s@
                == decode_utf8(b)),
            Err(e) => r matches Err(ReadFailure::Other(m)) && m@ == e,
        },
{
    match firmware_event_log_at(read) {
        Ok(None) => Ok(None),
        Ok(Some(b)) => Ok(Some(text_lossy(b))),
        Err(e) => Err(e),
    }
}

fn resolve(chosen: Option<&str>, usual: &str) -> (path: String)
    ensures
        path@ == match chosen {
            Some(c) => c@,
            None => usual@,
        },
{
    match chosen {
        Some(c) => c.to_owned(),
        None => usual.to_owned(),
    }
}

/// Where this node's firmware log is to be read, given what the environment says.
pub fn read_firmware_event_log(chosen: Option<&str>) -> (path: String)
    ensures
        path@ == match chosen {
            Some(c) => c@,
            None => FIRMWARE_EVENT_LOG@,
        },
{
    resolve(chosen, FIRMWARE_EVENT_LOG)
}

/// Where this node's runtime measurement list is to be read, given what the
/// environment says.
pub fn read_ima_runtime_list(chosen: Option<&str>) -> (path: String)
    ensures
        path@ == match chosen {
            Some(c) => c@,
            None => IMA_RUNTIME_LIST@,
        },
{
    resolve(chosen, IMA_RUNTIME_LIST)
}

} // verus!
