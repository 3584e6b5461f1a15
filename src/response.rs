use crate::error::RequestError;
use vstd::prelude::*;

verus! {

/// The outcome of a typed dispatch: a fault, or an answer that is either the
/// success value or the status code with the decoded error value.
pub type ResponseResult<T, E> = Result<Result<T, (u16, E)>, RequestError>;

/// Whether a response is read as success: only when a success status code was
/// set and the response carries exactly that code. With none set, every
/// response is read as an error answer.
pub open spec fn takes_success_path(expected: Option<u16>, statuscode: u16) -> bool {
    expected == Some(statuscode)
}

/// The outcome once the body was decoded, or failed to decode, as the success type.
pub open spec fn success_outcome<T, E>(statuscode: u16, body: String, decoded: Option<T>) -> ResponseResult<T, E> {
    match decoded {
        Some(v) => Ok(Ok(v)),
        None => Err(RequestError::Unparsable { statuscode, body }),
    }
}

/// The outcome once the body was decoded, or failed to decode, as the error type.
pub open spec fn failure_outcome<T, E>(statuscode: u16, body: String, decoded: Option<E>) -> ResponseResult<T, E> {
    match decoded {
        Some(v) => Ok(Err((statuscode, v))),
        None => Err(RequestError::Unparsable { statuscode, body }),
    }
}

/// Sorts a drained response by its status code: the body as success when the
/// code is the expected one, else the code and the body as an error answer.
pub fn settle_text(expected: Option<u16>, statuscode: u16, body: String) -> (r: Result<String, (u16, String)>)
    ensures
        takes_success_path(expected, statuscode) ==> r == Ok::<String, (u16, String)>(body),
        !takes_success_path(expected, statuscode) ==> r == Err::<String, (u16, String)>((statuscode, body)),
{
    match expected {
        Some(code) => {
            if code == statuscode {
                Ok(body)
            } else {
                Err((statuscode, body))
            }
        },
        None => Err((statuscode, body)),
    }
}

/// Decodes a drained response: the body is decoded once, as the success type when
/// the status code is the expected one, else as the error type. A body that does
/// not decode as the type its status calls for is a fault that keeps the status
/// and the body; the other type is then not tried.
pub fn decode_typed<T, E, FS, FE>(
    expected: Option<u16>,
    statuscode: u16,
    body: String,
    decode_success: FS,
    decode_error: FE,
) -> (r: ResponseResult<T, E>) where FS: FnOnce(&String) -> Option<T>, FE: FnOnce(&String) -> Option<E>
    requires
        forall|s: &String| decode_success.requires((s,)),
        forall|s: &String| decode_error.requires((s,)),
    ensures
        takes_success_path(expected, statuscode) ==> exists|d: Option<T>|
            #[trigger] decode_success.ensures((&body,), d) && r == success_outcome::<T, E>(
                statuscode,
                body,
                d,
            ),
        !takes_success_path(expected, statuscode) ==> exists|d: Option<E>|
            #[trigger] decode_error.ensures((&body,), d) && r == failure_outcome::<T, E>(
                statuscode,
                body,
                d,
            ),
{
    let success = match expected {
        Some(code) => code == statuscode,
        None => false,
    };
    if success {
        let parsed = decode_success(&body);
        match parsed {
            Some(v) => Ok(Ok(v)),
            None => Err(RequestError::Unparsable { statuscode, body }),
        }
    } else {
        let parsed = decode_error(&body);
        match parsed {
            Some(v) => Ok(Err((statuscode, v))),
            None => Err(RequestError::Unparsable { statuscode, body }),
        }
    }
}

/// With no success status code set, no response is read as success, whatever
/// its status code: the body is always decoded as the error type.
pub proof fn law_unset_expectation_reads_error(statuscode: u16)
    ensures
        !takes_success_path(None, statuscode),
{
}

/// With a success status code set, a response of any other code is read as an
/// error answer, and one of that code as success.
pub proof fn law_expected_status_decides(expected: u16, statuscode: u16)
    ensures
        takes_success_path(Some(expected), statuscode) <==> statuscode == expected,
{
}

} // verus!
