pub mod connect;
pub mod decode;
pub mod laws;
pub mod listing;
pub mod record;
pub mod schema;
pub mod store;
pub mod text;
pub mod uri;
