use vstd::prelude::*;
use crate::text::{pad2_digits, pad4_digits, u64_to_dec_pad2, u64_to_dec_pad4};

verus! {

/// The orderings the batch-update endpoint accepts.
#[derive(Debug, Clone, Copy, PartialEq, Eq, Structural)]
pub enum OrderTimeType {
    CreateTime,
    UpdateTime,
    ImportTime,
}

impl OrderTimeType {
    /// The code the batch-update endpoint expects for this ordering.
    pub fn to_json_code(&self) -> (r: &'static str)
        ensures
            r@ == match *self {
                OrderTimeType::CreateTime => "CREATE_TIME"@,
                OrderTimeType::UpdateTime => "UPDATE_TIME"@,
                OrderTimeType::ImportTime => "IMPORT_TIME"@,
            },
    {
        match self {
            OrderTimeType::CreateTime => "CREATE_TIME",
            OrderTimeType::UpdateTime => "UPDATE_TIME",
            OrderTimeType::ImportTime => "IMPORT_TIME",
        }
    }
}

/// A calendar date as the batch-update endpoint takes it; kept as plain
/// year, month and day so that the formatting below is checked here, while
/// calendar arithmetic stays at the outer layer.
#[derive(Debug, Clone, Copy, PartialEq, Eq, Structural)]
pub struct PartitionDate {
    pub year: u16,
    pub month: u8,
    pub day: u8,
}

/// The date rendered as `YYYY-MM-DD`.
pub open spec fn date_text(d: PartitionDate) -> Seq<char> {
    pad4_digits(d.year as nat) + seq!['-'] + pad2_digits(d.month as nat) + seq!['-'] + pad2_digits(
        d.day as nat,
    )
}

impl PartitionDate {
    pub open spec fn wf(self) -> bool {
        self.year <= 9999 && 1 <= self.month <= 12 && 1 <= self.day <= 31
    }

    /// Accepts exactly the field ranges that render as a plausible
    /// `YYYY-MM-DD` date.
    pub fn new(year: u16, month: u8, day: u8) -> (r: Option<PartitionDate>)
        ensures
            match r {
                Some(d) => d.wf() && d.year == year && d.month == month && d.day == day,
                None => !(year <= 9999 && 1 <= month <= 12 && 1 <= day <= 31),
            },
    {
        if year <= 9999 && 1 <= month && month <= 12 && 1 <= day && day <= 31 {
            Some(PartitionDate { year, month, day })
        } else {
            None
        }
    }

    /// Renders the date as `YYYY-MM-DD`, zero-padded.
    pub fn format_ymd(&self) -> (r: String)
        requires
            self.wf(),
        ensures
            r@ == date_text(*self),
    {
        let mut s = u64_to_dec_pad4(self.year as u64);
        s.append("-");
        let month = u64_to_dec_pad2(self.month as u64);
        s.append(month.as_str());
        s.append("-");
        let day = u64_to_dec_pad2(self.day as u64);
        s.append(day.as_str());
        proof {
            reveal_strlit("-");
            assert(s@ =~= date_text(*self));
        }
        s
    }
}

/// One entry of the import list, as the server reports it.
#[derive(Debug, Clone, PartialEq)]
pub struct ImportImageRes {
    pub id: i32,
    pub file: String,
    pub thumbnail_file: Option<String>,
    pub file_name: Option<String>,
    pub source_site: Option<String>,
    pub source_id: Option<i64>,
    pub source_part: Option<i32>,
    pub tagme: Vec<String>,
    pub partition_time: String,
    pub order_time: String,
}

/// The outcome of saving the import queue.
#[derive(Debug, Clone, PartialEq)]
pub struct ImportSaveRes {
    pub total: i32,
    pub errors: Vec<ImportSaveErrorItem>,
}

#[derive(Debug, Clone, PartialEq)]
pub struct ImportSaveErrorItem {
    pub import_id: i32,
    pub file_not_ready: bool,
    pub not_existed_collection_id: Option<i32>,
    pub not_existed_clone_image_id: Option<i32>,
    pub not_existed_book_ids: Option<Vec<i32>>,
    pub not_existed_folder_ids: Option<Vec<i32>>,
}

} // verus!
