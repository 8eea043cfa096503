//! Generation of layout-specialised reference-counting code for a compiler IR.
pub mod layout;
pub mod symbol;
pub mod ir;
pub mod naming;
pub mod gen_refcount;
pub mod registry;
