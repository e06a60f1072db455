//! Translation engine for universal snippets.
//!
//! Universal snippet bodies are written in one canonical dialect: line
//! comments `//`, block comments `/* */`, and four-space indentation. This
//! library rewrites such bodies into the comment and indentation conventions
//! of a target language, substitutes the `{{ filename }}` token, and escapes
//! shell-style environment-variable references while leaving LSP snippet
//! syntax (tabstops, placeholders, choices) untouched.

pub mod blocks;
pub mod command;
pub mod config;
pub mod escape;
pub mod filename;
pub mod framing;
pub mod language;
pub mod query;
pub mod repository;
pub mod rewrite;
pub mod snippet;
pub mod text;
pub mod translator;

pub use command::CommandService;
pub use config::{BkmrConfig, RepositoryConfig};
pub use filename::{final_path_segment, substitute_filename};
pub use framing::encode_message;
pub use language::{LanguageInfo, LanguageRegistry};
pub use query::{extract_word_query, SnippetFilter};
pub use repository::BkmrRepository;
pub use snippet::Snippet;
pub use text::u64_to_string;
pub use translator::{LanguageTranslator, TranslationError};
