pub mod func_call;
pub mod func_def;
pub mod node;
pub mod var_assign;
pub mod var_decl;
pub mod var_declassign;
