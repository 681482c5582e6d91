//! Extraction of a validated table configuration from an annotated record
//! definition: tags on the record and on its fields are read, per-field
//! flags are resolved, and the record-level descriptor is assembled.

pub mod attributes;
pub mod config;
pub mod instructions;
pub mod laws;
pub mod tags;

pub use attributes::{parse_field_attributes, FieldDefinition, NautilusAccountFieldAttributes};
pub use config::{build_object_config, parse_item_struct, NautilusObjectConfig, RecordDefinition};
pub use instructions::{parse_top_level_attributes, ConfigError, DefaultInstruction, DefaultInstructions};
pub use tags::{ArgValue, NestedArg, Tag, TagShape};
