//! The verification endpoint: tells a caller whether its token was accepted.

use vstd::prelude::*;

use crate::controllers::auth::verify::models::{VerificationResponse, VerifyAuthRoles};
use crate::controllers::flow::{error_response, ErrorResponse};

verus! {

/// Answers 200 "verification successfull" for a request whose JWT was valid,
/// and 401 "Invalid JWT" otherwise.
pub fn verify(auth: VerifyAuthRoles) -> (answer: Result<VerificationResponse, ErrorResponse>)
    ensures
        auth.is_jwt_valid ==> (answer matches Ok(r) && r.message@ == "verification successfull"@
            && r.status == 200),
        !auth.is_jwt_valid ==> (answer matches Err(e) && e.status == 401 && e.message@
            == "Invalid JWT"@),
{
    if auth.is_jwt_valid {
        Ok(VerificationResponse { message: "verification successfull".to_owned(), status: 200 })
    } else {
        Err(error_response(401, "Invalid JWT"))
    }
}

} // verus!
