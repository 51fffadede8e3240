pub mod data_decoding;
pub mod error;
pub mod field;
pub mod location;
pub mod message;
pub mod scaled;
pub mod sections;
pub mod templates;
pub mod time;
pub mod utils;
