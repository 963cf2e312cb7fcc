//! Verified core of the AnyServer backend: version ordering, option
//! extraction and sorting, update-check decisions, runtime-detection
//! parsers, permission rules and the shared data model.

pub mod external;
pub mod text;
pub mod time;
pub mod types;
pub mod numeric;
pub mod words;
pub mod version;
pub mod sorting;
pub mod options;
pub mod detect;
pub mod sftp;
pub mod json;
pub mod update_check;
pub mod java;
pub mod dotnet;
pub mod files;
pub mod steamcmd;
pub mod exec;
pub mod lifecycle;
pub mod shutdown;
pub mod launch;
pub mod logs;
pub mod stats;
pub mod storage;
pub mod rows;
pub mod replies;
pub mod builtin;
pub mod varrefs;
