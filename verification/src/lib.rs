//! Code generation for declared data types.
//!
//! This library turns source-level declarations of structured, enumerated,
//! sub-ranged and array types into concrete low-level type descriptors, and
//! lays out per-callable activation-record ("instance") structures together
//! with their default-initialized values.
//!
//! Generation runs in two passes over the whole declaration list: the stub
//! pass registers a forward-reference-safe entry for every name, and the
//! body pass fills struct bodies and emits enum constants, which is what
//! makes self- and mutually-referential structs work without ordering
//! constraints.
//!
//! The low-level layer (named struct cells, scalar and array types, constant
//! values, global and local variables) is modelled by plain data types of
//! this crate; an unverified backend maps those descriptors one to one onto
//! a real code-generation library.

/// The fragment of the parser's output that type generation consumes.
pub mod ast;
/// The constant folder for array bounds and scalar initializers.
pub mod constant_folder;
/// The stub and body passes, and the array dimension builder.
pub mod data_type_generator;
/// Array dimensions.
pub mod dimensions;
/// Structured generation errors.
pub mod errors;
/// The type index (symbol table).
pub mod index;
/// Struct member layout, default aggregates and instance allocation.
pub mod instance_struct_generator;
/// The low-level type and value descriptors.
pub mod typerep;
