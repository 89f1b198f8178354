use vstd::prelude::*;

verus! {

/// Credentials sent to sign in.
#[derive(Debug, Clone)]
pub struct LoginRequest {
    pub username: String,
    pub password: String,
}

/// Answer to a sign-in.
#[derive(Debug, Clone)]
pub struct LoginResponse {
    pub token: Option<String>,
    pub message: Option<String>,
}

/// Identity token from a Google sign-in.
#[derive(Debug, Clone)]
pub struct GoogleAuthRequest {
    pub id_token: String,
}

/// Envelope of a successful batch-mode answer.
#[derive(Debug, Clone)]
pub struct ApiResponse<T> {
    pub success: bool,
    pub cached: bool,
    pub cached_at: Option<String>,
    pub data: T,
}

impl<T> ApiResponse<T> {
    /// A successful answer carrying `data`, served from the cache or not.
    pub fn new(data: T, cached: bool, cached_at: Option<String>) -> (r: Self)
        ensures
            r.success,
            r.cached == cached,
            r.cached_at == cached_at,
            r.data == data,
    {
        ApiResponse { success: true, cached, cached_at, data }
    }

    /// A successful answer carrying freshly fetched `data`.
    pub fn fresh(data: T) -> (r: Self)
        ensures
            r.success,
            !r.cached,
            r.cached_at is None,
            r.data == data,
    {
        Self::new(data, false, None)
    }
}

/// Envelope of a failed batch-mode answer.
#[derive(Debug, Clone)]
pub struct ApiError {
    pub success: bool,
    pub error: String,
}

impl ApiError {
    /// A failure with its message.
    pub fn new(error: &str) -> (r: Self)
        ensures
            !r.success,
            r.error@ == error@,
    {
        ApiError { success: false, error: error.to_owned() }
    }
}

} // verus!
