pub mod driver;
pub mod params;
pub mod protocol;
pub mod registration;
pub mod responder;
