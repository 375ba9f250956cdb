pub mod display_name;
