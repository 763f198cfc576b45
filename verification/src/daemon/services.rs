pub mod images_manager;
