//! The logic of a web host whose pages come from Arweave.

pub mod appstate;
pub mod ar;
pub mod archive;
pub mod clock;
pub mod codec;
pub mod gateway;
pub mod json;
pub mod laws;
pub mod mime;
pub mod reply;
pub mod serve;
pub mod server;
pub mod site;
pub mod startup;
pub mod text;
pub mod update;
pub mod visits;
