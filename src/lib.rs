//! A typed client for the Gofile file-storage HTTP API.
//!
//! The library holds what the client decides: which upload server to use,
//! how a response envelope turns into a value or an error, how request
//! payloads are laid out as fields, how a share link yields its content code,
//! and how upload progress is counted. Sending requests is left to the caller.
pub mod foreign;
pub mod error;
pub mod api;
pub mod progress;
pub mod payload;

pub use error::Error;
pub use api::Api;
pub use api::ServerApi;
pub use progress::{UploadProgress, UploadedMessage};
pub use payload::{
    AccountDetails, ApiResult, Content, ContentKind, ContentOpt, CopyContentApiPayload,
    CreateFolderApiPayload, DeleteContentApiPayload, FieldValue, NoInfo, Server, Servers,
    UpdateContentApiPayload, UploadedFile,
};
