use vstd::prelude::*;

verus! {

/// A failure reported by the foreign runtime, carrying its raw status code.
#[derive(Clone, Copy, Debug, PartialEq, Eq, Structural)]
pub struct XrError(pub i32);

/// The typed outcome of a raw status code: zero is success, anything else a
/// failure that keeps the exact code.
pub open spec fn status_of(raw: i32) -> Result<(), XrError> {
    if raw == 0 {
        Ok(())
    } else {
        Err(XrError(raw))
    }
}

/// The raw status code that a typed outcome stands for.
pub open spec fn code_of(r: Result<(), XrError>) -> i32 {
    match r {
        Ok(()) => 0,
        Err(e) => e.0,
    }
}

/// Turns a raw status code into a typed result.
pub fn convert_result(raw: i32) -> (r: Result<(), XrError>)
    ensures
        r == status_of(raw),
{
    if raw == 0 {
        Ok(())
    } else {
        Err(XrError(raw))
    }
}

/// Turns a typed result back into the raw status code it stands for.
pub fn result_code(r: &Result<(), XrError>) -> (c: i32)
    ensures
        c == code_of(*r),
{
    match r {
        Ok(()) => 0,
        Err(e) => e.0,
    }
}

/// Converting a raw status code and converting the outcome back yields the
/// code that went in; zero is the only code that converts to success.
pub proof fn lemma_status_round_trip(raw: i32)
    ensures
        code_of(status_of(raw)) == raw,
        status_of(raw) is Ok <==> raw == 0,
        status_of(raw) is Err ==> status_of(raw)->Err_0.0 == raw,
{
}

} // verus!
