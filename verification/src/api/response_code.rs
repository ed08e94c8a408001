//! The codes that the web API puts in its response bodies.
use vstd::prelude::*;

verus! {

/// The outcome classes of an API call.
#[derive(Debug, Clone, Copy, PartialEq, Eq, Structural)]
pub enum CodeEnum {
    Success,
    NotFound,
    FileInvaild,
    ServiceError,
    Other,
    Ban,
    Unauthorized,
    BadRequest,
    Forbidden,
    MethodNotAllowed,
}

/// The number that stands for each outcome class.
pub open spec fn code_number(code: CodeEnum) -> u16 {
    match code {
        CodeEnum::Success => 0,
        CodeEnum::Other => 1,
        CodeEnum::ServiceError => 2,
        CodeEnum::NotFound => 3,
        CodeEnum::FileInvaild => 1000,
        CodeEnum::Ban => 2000,
        CodeEnum::Unauthorized => 2001,
        CodeEnum::BadRequest => 400,
        CodeEnum::Forbidden => 403,
        CodeEnum::MethodNotAllowed => 405,
    }
}

/// The number of an outcome class.
pub fn get_code(code: CodeEnum) -> (r: u16)
    ensures
        r == code_number(code),
{
    match code {
        CodeEnum::Success => 0,
        CodeEnum::Other => 1,
        CodeEnum::ServiceError => 2,
        CodeEnum::NotFound => 3,
        CodeEnum::FileInvaild => 1000,
        CodeEnum::Ban => 2000,
        CodeEnum::Unauthorized => 2001,
        CodeEnum::BadRequest => 400,
        CodeEnum::Forbidden => 403,
        CodeEnum::MethodNotAllowed => 405,
    }
}

/// Distinct outcome classes have distinct numbers, so a client can tell
/// them apart by the number alone.
pub proof fn lemma_codes_are_distinct(a: CodeEnum, b: CodeEnum)
    requires
        a != b,
    ensures
        code_number(a) != code_number(b),
{
}

} // verus!
