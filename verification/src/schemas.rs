pub mod helper_schema;
pub mod owner_schema;
pub mod service_instance_schema;
pub mod vet_schema;
