//! The records endpoints.

pub mod create;
pub mod delete;
pub mod modify;
pub mod record_list;
pub mod records;

pub use create::CreateTXTRecord;
pub use delete::DeleteRecord;
pub use modify::ModifyTXTRecord;
pub use record_list::DomainRecordList;
pub use records::{
    DomainRecordListResponse, DomainRecordListResult, RecordCountInfo, RecordListItem,
};
