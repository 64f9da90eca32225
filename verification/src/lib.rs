//! Data-lineage extraction for SQL statements.
//!
//! The library walks an already-parsed SQL syntax tree and collects which
//! tables a statement reads from (`inputs`), which it writes to (`outputs`),
//! which names it introduces as aliases, and, for `SELECT` projections, a
//! column-level ancestry map from each output column to the source columns it
//! derives from.  The walk is specified by a pure function over a mathematical
//! view of the traversal context, and the executable visitor is verified to
//! compute exactly that function.

pub mod meta;
pub mod ast;
pub mod context;
pub mod walk;
pub mod visitor;
pub mod laws;
pub mod frame;
pub mod outcome;
