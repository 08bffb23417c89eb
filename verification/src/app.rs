pub mod app_box;
