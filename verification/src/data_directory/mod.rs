pub mod backup_codec;
pub mod records;
