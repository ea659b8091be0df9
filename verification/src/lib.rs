pub mod album;
pub mod api;
pub mod chunked;
pub mod encoding;
pub mod paths;
pub mod session;
pub mod text;
pub mod token;
pub mod upload;
