pub mod text;
pub mod validator;
