pub mod array_length;
pub mod dirname;
pub mod exit;
pub mod ftp_get_in_memory;
pub mod get_home_dir;
pub mod os_name;
