use vstd::prelude::*;

verus! {

#[verifier::external_type_specification]
#[verifier::external_body]
pub struct ExStdIoError(std::io::Error);

#[verifier::external_type_specification]
#[verifier::external_body]
pub struct ExWriteNpyError(ndarray_npy::WriteNpyError);

#[verifier::external_type_specification]
#[verifier::external_body]
pub struct ExReadNpyError(ndarray_npy::ReadNpyError);

#[verifier::external_type_specification]
#[verifier::external_body]
pub struct ExJsonError(serde_json::Error);

/// Failure while saving or loading a wind grid: a file-system error, an
/// `.npy` write or read error, a JSON error on the metadata sidecar, or
/// velocity components whose shapes disagree (found shape, reference shape).
pub enum IoError {
    Io(std::io::Error),
    NpyWrite(ndarray_npy::WriteNpyError),
    NpyRead(ndarray_npy::ReadNpyError),
    Json(serde_json::Error),
    ShapeMismatch([usize; 3], [usize; 3]),
}

/// A velocity component read after the first must have the same shape as
/// the first one; otherwise the load fails with `ShapeMismatch(found,
/// reference)`.
pub fn check_component_shape(reference: [usize; 3], found: [usize; 3]) -> (r: Result<(), IoError>)
    ensures
        r is Ok <==> found@ == reference@,
        r matches Err(e) ==> (e matches IoError::ShapeMismatch(a, b) && a@ == found@ && b@
            == reference@),
{
    if found[0] == reference[0] && found[1] == reference[1] && found[2] == reference[2] {
        assert(found@ =~= reference@);
        Ok(())
    } else {
        Err(IoError::ShapeMismatch(found, reference))
    }
}

} // verus!
