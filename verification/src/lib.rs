//! The decision logic of the AIWork gateway.
//!
//! Every rule the gateway applies to a request, an account, a video task or a
//! stored payload is a function in this crate, with a contract over a
//! mathematical model of its arguments. Reading and writing sockets, files and
//! databases is left to the program around it.

pub mod server;
pub mod text;
pub mod json;
pub mod outside;
pub mod table;
pub mod task_table;
pub mod video;
pub mod video_laws;
pub mod trae_resource_upload;
pub mod assets;
pub mod seedance_chat;
pub mod video_request;
pub mod video_billing;
pub mod video_events;
pub mod video_store;
pub mod video_payload;
pub mod video_native;
pub mod reply;
pub mod core_types;
pub mod core_routes;
pub mod video_worker;
pub mod core_video;
pub mod chat_laws;
pub mod request_laws;
pub mod pool_laws;
pub mod directory_laws;
pub mod material_laws;
pub mod job_laws;
pub mod video_routes_laws;
pub mod text_laws;
pub mod video_task_laws;
pub mod video_request_laws;
pub mod upload_laws;
pub mod text_chat_laws;
pub mod core_cancel;
pub mod video_routes;
pub mod asset_routes;
pub mod seedance_routes;
pub mod upstream_request;
pub mod image_routes;
pub mod pool_routes;
pub mod upstream_observation;
pub mod scheduler;
pub mod account_directory;
pub mod directory_sync;
pub mod access;
pub mod text_request;
pub mod text_chat;
pub mod rotation;
pub mod stream_chat;
pub mod aggregate_chat;
