pub mod ffi_collections;
pub mod sharky_data_types;
pub mod instructions;
pub mod value_ops;
pub mod sharky_memory;
pub mod slab_frames;
pub mod sharky_string;
pub mod vm;
pub mod vm_semantics;
pub mod sharky_vm;
pub mod sharky_vm_semantics;
pub mod sharky_instruction_set;
pub mod bytecode_reader;
pub mod sharky_app;
pub mod vm_laws;
pub mod value_text;
pub mod instruction_laws;
