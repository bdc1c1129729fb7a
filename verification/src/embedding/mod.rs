//! Nine-dimensional embeddings of texts, in fixed point: a component is a
//! count of millionths.

pub mod embedder;
pub mod semantic;
pub mod vector;

pub use embedder::VectorEmbedder;
pub use semantic::SemanticAnalyzer;
