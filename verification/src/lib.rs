//! Questions about the classes of a reflection database: whether a class
//! exists, whether it is another class or descends from it, whether it is a
//! service, and what is known of one of its properties.
//!
//! [`ClassHierarchyResolver`] answers them for a database at hand; the
//! functions at the root of the crate answer them for the bundled database.
//! Every answer is proved to be the one that [`query`] defines over the model
//! of the schema, and [`laws`] states what follows for every schema.

pub mod chain;
pub mod database;
pub mod instance;
pub mod laws;
pub mod model;
pub mod query;
pub mod resolver;
pub mod text;

pub use instance::{class_exists, class_is_a, class_is_a_service, find_property_info};
pub use resolver::{ClassHierarchyResolver, PropertyInfo};
