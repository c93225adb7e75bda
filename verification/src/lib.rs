//! Builder and encoder for block-program projects.
//!
//! A [`Project`] owns an identifier generator and a list of targets: the
//! stage first, then the sprites. A [`Target`] is the handle through which a
//! target is filled: it threads calls such as `start_script`, `put`, `if_` and
//! `add` into a graph of blocks whose links stay consistent.
//! [`Project::encode`] turns the finished graph into the text of
//! `project.json`, and [`Project::archive`] packs that text and the images of
//! the costumes into one archive.
//!
//! The modules, from the leaves up:
//!
//! - [`uid`]: identifiers and their generator;
//! - [`text`]: the pieces of JSON text, with the proof that escaping loses
//!   nothing;
//! - [`number`], [`entity`], [`costume`], [`custom`], [`operand`]: what blocks
//!   and targets hold;
//! - [`block`]: the blocks and how they are written;
//! - [`graph`]: what makes the links of a graph consistent, and the proof
//!   that a block that enters keeps them so;
//! - [`arena`], [`unit`]: the blocks of a target, and the target as a whole;
//! - [`model`]: what each call of the builder does, as a function on views;
//! - [`target`], [`project`], [`archive`]: the builder, the project and its
//!   archive;
//! - [`laws`]: what holds of every project that the builder makes.

pub mod archive;
pub mod arena;
pub mod block;
pub mod costume;
pub mod custom;
pub mod entity;
pub mod graph;
pub mod laws;
pub mod model;
pub mod number;
pub mod operand;
pub mod project;
pub mod target;
pub mod text;
pub mod uid;
pub mod unit;

pub use archive::ArchiveError;
pub use costume::Costume;
pub use custom::{CustomBlock, Parameter, ParameterKind};
pub use entity::{Comment, Constant, List, ListRef, Variable, VariableRef};
pub use graph::InsertionPoint;
pub use number::Number;
pub use operand::Operand;
pub use project::Project;
pub use target::Target;
pub use uid::{Generator, Uid};
