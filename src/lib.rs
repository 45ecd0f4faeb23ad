//! Cross-casting between unrelated interfaces of one object: a registry that
//! records, for each concrete type, the dispatch table of each interface it
//! implements, and a cast engine that looks a table up and rebuilds the
//! reference or owning handle under the target interface.

pub mod identity;
pub mod trait_registry;
pub mod cast_fns;
pub mod handy_functions;
