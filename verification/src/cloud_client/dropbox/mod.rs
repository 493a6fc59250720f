pub mod api_url;
pub mod client;
pub mod entities;
pub mod parameters;
pub mod responses;
