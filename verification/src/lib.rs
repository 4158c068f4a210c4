//! Generation of `From` conversions for the structs of a query result.
//!
//! A client that is generated from a GraphQL schema holds every number of a
//! result as a signed 64-bit integer, while the structs of a project declare
//! the narrower kinds that the data really has. From the declaration of such
//! a struct and the name of the generated struct, this library generates the
//! `impl From` that builds one from the other, field by field:
//!
//! - [`schema`] extracts the schema of the target type from its definition
//!   and its `autogen_type` annotations;
//! - [`declared`] and [`classify`] choose, from the declared type of a field,
//!   whether its value is assigned, cast, or cast element by element;
//! - [`emit`] emits the conversion of each field and the text of the `impl`;
//! - [`derive`] does all of it in one call.
//!
//! [`reader`] reads a declared type out of a `syn` syntax tree, [`cast`] says
//! what a forced cast computes, and [`laws`] states what holds of generation
//! as a whole.

pub mod text;
pub mod kinds;
pub mod declared;
pub mod reader;
pub mod classify;
pub mod schema;
pub mod emit;
pub mod derive;
pub mod cast;
pub mod laws;
