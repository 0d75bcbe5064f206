use vstd::prelude::*;

verus! {

/// The errors that store operations report to their callers.
#[derive(Debug)]
pub enum ApiError {
    /// The requested identifier has no live product.
    NotFound,
    /// A field rule or a uniqueness rule was broken; the detail names the rule.
    BadRequest(String),
    /// A fault unrelated to the caller's input.
    Internal,
}

impl ApiError {
    /// The HTTP status code that reports this error.
    pub fn status_code(&self) -> (r: u16)
        ensures
            r == match self {
                ApiError::NotFound => 404u16,
                ApiError::BadRequest(_) => 400u16,
                ApiError::Internal => 500u16,
            },
    {
        match self {
            ApiError::NotFound => 404,
            ApiError::BadRequest(_) => 400,
            ApiError::Internal => 500,
        }
    }

    /// The body of the response that reports this error: the detail of a
    /// `BadRequest`, a fixed text otherwise.
    pub fn body(&self) -> (r: String)
        ensures
            self is BadRequest ==> r@ == self->BadRequest_0@,
            self is NotFound ==> r@ == "Not found"@,
            self is Internal ==> r@ == "Internal server error"@,
    {
        proof {
            reveal_strlit("Not found");
            reveal_strlit("Internal server error");
        }
        match self {
            ApiError::NotFound => "Not found".to_string(),
            ApiError::BadRequest(msg) => msg.clone(),
            ApiError::Internal => "Internal server error".to_string(),
        }
    }

    /// A human-readable description of the error.
    pub fn message(&self) -> (r: String)
        ensures
            self is NotFound ==> r@ == "Not found"@,
            self is Internal ==> r@ == "Internal server error"@,
            self is BadRequest ==> r@ == "Bad request: "@ + self->BadRequest_0@,
    {
        proof {
            reveal_strlit("Not found");
            reveal_strlit("Internal server error");
            reveal_strlit("Bad request: ");
        }
        match self {
            ApiError::NotFound => "Not found".to_string(),
            ApiError::BadRequest(msg) => {
                let mut s = "Bad request: ".to_string();
                s.append(msg.as_str());
                s
            },
            ApiError::Internal => "Internal server error".to_string(),
        }
    }
}

} // verus!
