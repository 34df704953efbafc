//! Navigation state and statistics normalisation for a terminal browser of
//! Parquet file metadata.
//!
//! The crate holds the parts of the browser that decide something: which pane
//! is active, which row group and column chunk are selected, how a key press
//! changes that selection, and how the typed statistics of a column chunk are
//! turned into one printable record. Reading files and drawing on the terminal
//! are left to the program that links this library.

pub mod app;
pub mod error;
pub mod metadata;
pub mod pane;
pub mod sample;
pub mod selection;
pub mod stats;
pub mod text;
pub mod views;

pub use app::{App, AppView, Command, InputEvent, KeyCode, KeyEvent, KeyEventKind};
pub use error::LoadError;
pub use metadata::{
    BinaryStatistics, BooleanStatistics, ColumnChunk, FixedLenStatistics, FloatLiteral,
    MetadataModel, PhysicalType, PhysicalTypeExt, PrimitiveStatistics, RowGroup, Statistics,
};
pub use pane::ActivePane;
pub use sample::{sample_column, ColumnRecords, ColumnValues, SAMPLE_LIMIT};
pub use selection::SelectionState;
pub use stats::{ColumnChunkMetaDataExt, HumanFriendlyStats, NativeType};
pub use views::{ColumnChunkDetailView, ColumnChunkSimpleView};
