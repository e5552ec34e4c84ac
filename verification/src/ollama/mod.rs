pub mod models;
pub mod rules;
pub mod retry;
pub mod planning;
pub mod decode;
pub mod execute;
pub mod session;
