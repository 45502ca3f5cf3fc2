pub mod c_file;
pub mod file_writer;
