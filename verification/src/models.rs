pub mod owner_model;
pub mod pet_model;
pub mod service_instance_model;
pub mod statistics_model;
pub mod vet_model;
