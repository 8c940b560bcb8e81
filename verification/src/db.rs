pub mod error;
pub mod laws;
pub mod model;
pub mod rows;
pub mod service_instance_queries;
pub mod statements;
