//! Managing Cloudflare R2 from the terminal: the configuration and its rules,
//! the requests to the Cloudflare API and what its answers mean, URLs for
//! objects, and the upload of a file in parts.
//!
//! The library decides and computes; it sends nothing and reads no file. The
//! program around it does that, and hands in what came back.

pub mod cli;
pub mod client;
pub mod cloudflare;
pub mod config;
pub mod error;
pub mod multipart;
pub mod presigned;
pub mod text;
pub mod upload_laws;
pub mod wizard;

pub use client::{requires_multipart_upload, ObjectInfo, ObjectMetadata, R2Client};
pub use cloudflare::{
    ApiToken, BucketCorsConfig, CloudflareClient, CorsRule, ErrorDocument, IndexDocument,
    LifecycleConfiguration, LifecycleExpiration, LifecycleFilter, LifecycleRule, R2Bucket,
    R2TokenBuilder, WebsiteConfiguration,
};
pub use config::ConfigFile as Config;
pub use config::{get_config_path, validate_config, CloudflareConfig, ConfigFile, R2Config};
pub use error::Error;
pub use multipart::{
    CompletedPart, MultipartUpload, MultipartUploadConfig, MultipartUploadProgress, UploadAction,
    UploadEvent,
};
pub use presigned::{generate_presigned_url, PresignedMethod, PresignedUrlConfig};
