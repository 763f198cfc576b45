pub mod controllers;
pub mod router;
