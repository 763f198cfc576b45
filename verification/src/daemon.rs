pub mod controller;
pub mod controllers;
pub mod dockerfile;
pub mod image;
pub mod image_builder;
pub mod router;
pub mod services;
