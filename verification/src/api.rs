//! The replies of the upload service, as plain values.
use vstd::prelude::*;

verus! {

/// Reply to a token verification request.
#[derive(Debug, Clone)]
pub struct VerifyTokenResp {
    pub success: bool,
}

/// Reply to an album listing request.
#[derive(Debug, Clone)]
pub struct AlbumResponse {
    pub albums: Vec<Album>,
}

/// One album of the account.
#[derive(Debug, Clone)]
pub struct Album {
    pub id: u32,
    pub name: String,
}

/// Reply to an album creation request.
#[derive(Debug, Clone)]
pub struct AlbumCreateResponse {
    pub success: bool,
    pub id: Option<u32>,
    pub description: Option<String>,
}

/// Reply to an upload: the files the service stored.
#[derive(Debug, Clone)]
pub struct FinalResponse {
    pub files: Vec<Files>,
}

/// One stored file of an upload reply.
#[derive(Debug, Clone)]
pub struct Files {
    pub url: String,
}

} // verus!
