pub mod ctx;
pub mod error;
pub mod login;
pub mod logline;
pub mod pipeline;
mod reqid;
pub mod resolver;
pub mod respond;
pub mod store;
pub mod token;
