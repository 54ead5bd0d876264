//! The records of the cache, one kind for each table.

pub mod asset;
pub mod bulletin_entry;
pub mod bulletin_issue;
pub mod bulletin_mention;
pub mod entrance;
pub mod note;
pub mod person;
pub mod project;
pub mod section;
pub mod service_account;
pub mod settings;
pub mod sketch;
pub mod sketch_tool;
pub mod tool;
pub mod update;

pub use asset::{AssetRecord, AssetRecordSet};
pub use bulletin_entry::{BulletinEntryRecord, BulletinEntryRecordSet};
pub use bulletin_issue::{BulletinRecord, BulletinRecordSet};
pub use bulletin_mention::{BulletinMentionRecord, BulletinMentionRecordSet};
pub use entrance::EntranceRecord;
pub use note::{NoteRecord, NoteRecordSet};
pub use person::{PersonRecord, PersonRecordSet};
pub use project::{ProjectRecord, ProjectRecordSet};
pub use section::{SectionRecord, SectionRecordSet};
pub use service_account::{ServiceAccountRecord, ServiceAccountRecordSet};
pub use settings::{SettingsRecord, SettingsRecordSet};
pub use sketch::{SketchRecord, SketchRecordSet};
pub use sketch_tool::{SketchToolRecord, SketchToolRecordSet};
pub use tool::{ToolRecord, ToolRecordSet};
pub use update::{UpdateRecord, UpdateRecordSet};
