use vstd::prelude::*;

verus! {

#[verifier::external_type_specification]
#[verifier::external_body]
pub struct ExDecodeError(base64::DecodeError);

/// The bytes that standard base64 (RFC 4648 alphabet, padding required)
/// decodes `text` to, or `None` where `text` is not such base64.
pub uninterp spec fn base64_decoded(text: Seq<char>) -> Option<Seq<u8>>;

/// Relies on base64's `Engine::decode` with the `general_purpose::STANDARD` engine:
/// it either fails or returns the decoded bytes, and that outcome depends on the text alone.
#[verifier::external_body]
fn decode_standard_base64(text: &str) -> (r: Result<Vec<u8>, base64::DecodeError>)
    ensures
        r is Ok <==> base64_decoded(text@) is Some,
        r matches Ok(bytes) ==> base64_decoded(text@) == Some(bytes@),
{
    base64::Engine::decode(&base64::engine::general_purpose::STANDARD, text)
}

/// Why a file could not be staged.
#[derive(Debug, PartialEq, Eq, Structural)]
pub enum StageError {
    /// The buffer is not standard base64.
    InvalidBase64,
}

/// A file ready to be written into the temporary directory.
pub struct StagedFile {
    pub path: String,
    pub contents: Vec<u8>,
}

/// Where the helper program `sm` is staged inside the temporary directory `dir`.
pub open spec fn helper_program_path(dir: Seq<char>) -> Seq<char> {
    dir + "sm"@
}

/// The path of the staged helper program, for the temporary directory `dir`
/// (given with its trailing separator).
pub fn helper_path(dir: &str) -> (r: String)
    ensures
        r@ == helper_program_path(dir@),
{
    let mut r = String::from_str(dir);
    r.append("sm");
    r
}

/// The path of the file `filename` in the temporary directory `dir`
/// (given with its trailing separator).
pub fn temp_path(dir: &str, filename: &str) -> (r: String)
    ensures
        r@ == dir@ + filename@,
{
    let mut r = String::from_str(dir);
    r.append(filename);
    r
}

/// Decodes a base64 buffer and places it, as `filename`, in the temporary directory `dir`.
pub fn stage_temp_file(buffer_data: &str, dir: &str, filename: &str) -> (r: Result<
    StagedFile,
    StageError,
>)
    ensures
        r is Ok <==> base64_decoded(buffer_data@) is Some,
        r matches Ok(f) ==> f.path@ == dir@ + filename@ && base64_decoded(buffer_data@) == Some(
            f.contents@,
        ),
        r matches Err(e) ==> e == StageError::InvalidBase64,
{
    match decode_standard_base64(buffer_data) {
        Ok(contents) => Ok(StagedFile { path: temp_path(dir, filename), contents }),
        Err(_) => Err(StageError::InvalidBase64),
    }
}

/// The reply to a request to stage a file: its path where it was decoded and
/// written, else the empty text.
pub fn temp_file_reply(staged: &Result<StagedFile, StageError>, written: bool) -> (r: String)
    ensures
        r@ == (if staged is Ok && written {
            staged->Ok_0.path@
        } else {
            Seq::empty()
        }),
{
    match staged {
        Ok(f) => {
            if written {
                f.path.clone()
            } else {
                String::new()
            }
        },
        Err(_) => String::new(),
    }
}

} // verus!
