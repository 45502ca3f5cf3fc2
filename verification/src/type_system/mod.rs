pub mod llc_type;
pub mod type_error;
