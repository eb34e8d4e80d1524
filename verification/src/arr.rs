//! The import oracle's decision logic: whether a downstream media tool's
//! history says a local path has been imported.
//!
//! The unverified shell fetches history pages over HTTP; the record matching
//! and the paging decision are here. A path counts as imported when some
//! history record is a download-folder import whose dropped path matches it
//! exactly.

use vstd::prelude::*;

verus! {

/// One page of a downstream tool's history.
#[derive(Debug)]
pub struct ArrHistoryResponse {
    pub page: u32,
    pub page_size: u32,
    pub total_records: u32,
    pub records: Vec<ArrHistoryRecord>,
}

/// One history record: its event type and the record's data entries as
/// key-value pairs.
#[derive(Debug)]
pub struct ArrHistoryRecord {
    pub event_type: String,
    pub data: Vec<(String, Option<String>)>,
}

/// Whether one data entry is a dropped-path entry naming exactly the
/// target.
pub open spec fn spec_entry_names_target(entry: (String, Option<String>), target: Seq<char>) -> bool {
    &&& entry.0@ == "droppedPath"@
    &&& entry.1 matches Option::Some(v) && v@ == target
}

/// Whether a record is a download-folder import whose dropped path is
/// exactly the target.
pub open spec fn spec_record_matches(record: ArrHistoryRecord, target: Seq<char>) -> bool {
    record.event_type@ == "downloadFolderImported"@ && exists|i: int|
        0 <= i < record.data@.len() && spec_entry_names_target(#[trigger] record.data@[i], target)
}

/// Whether some record of a page matches the target.
pub open spec fn spec_page_has_import(records: Seq<ArrHistoryRecord>, target: Seq<char>) -> bool {
    exists|i: int| 0 <= i < records.len() && spec_record_matches(#[trigger] records[i], target)
}

/// Whether this record reports the target as imported.
pub fn record_matches(record: &ArrHistoryRecord, target: &String) -> (r: bool)
    ensures
        r == spec_record_matches(*record, target@),
{
    let event_key = "downloadFolderImported".to_owned();
    if !record.event_type.eq(&event_key) {
        return false;
    }
    let data_key = "droppedPath".to_owned();
    let mut i: usize = 0;
    while i < record.data.len()
        invariant
            0 <= i <= record.data@.len(),
            event_key@ == "downloadFolderImported"@,
            data_key@ == "droppedPath"@,
            record.event_type@ == "downloadFolderImported"@,
            forall|j: int|
                0 <= j < i ==> !spec_entry_names_target(#[trigger] record.data@[j], target@),
        decreases record.data@.len() - i,
    {
        let entry = &record.data[i];
        if entry.0.eq(&data_key) {
            match &entry.1 {
                Option::Some(v) => if v.eq(target) {
                    proof {
                        assert(spec_entry_names_target(record.data@[i as int], target@));
                    }
                    return true;
                },
                Option::None => {},
            }
        }
        i = i + 1;
    }
    false
}

/// Whether some record of this page reports the target as imported.
pub fn page_has_import(records: &Vec<ArrHistoryRecord>, target: &String) -> (r: bool)
    ensures
        r == spec_page_has_import(records@, target@),
{
    let mut i: usize = 0;
    while i < records.len()
        invariant
            0 <= i <= records@.len(),
            forall|j: int| 0 <= j < i ==> !spec_record_matches(#[trigger] records@[j], target@),
        decreases records@.len() - i,
    {
        if record_matches(&records[i], target) {
            return true;
        }
        i = i + 1;
    }
    false
}

/// Where the paged history scan stands: the page to ask for next, and how
/// many records were inspected without a match.
pub struct ImportScan {
    pub page: u64,
    pub inspected: u64,
}

/// What the scan does after one page: stop with an answer, or fetch the next
/// page.
#[derive(Debug, Clone, Copy, PartialEq, Eq, Structural)]
pub enum ScanStep {
    /// The target is recorded as imported.
    Found,
    /// The whole history was inspected without a match.
    NotFound,
    /// Ask for this page next.
    NextPage(u64),
}

impl ImportScan {
    /// A scan that starts at the first page.
    pub fn new() -> (r: Self)
        ensures
            r.page == 0,
            r.inspected == 0,
    {
        ImportScan { page: 0, inspected: 0 }
    }

    /// Decides on one fetched page: a matching record ends the scan;
    /// otherwise the page's records count as inspected, and the scan moves
    /// to the next page while fewer records than the history's total have
    /// been inspected, so a negative answer comes only once the whole
    /// history was consulted.
    pub fn on_page(&mut self, resp: &ArrHistoryResponse, target: &String) -> (r: ScanStep)
        requires
            old(self).inspected + resp.records@.len() <= u64::MAX,
            old(self).page < u64::MAX,
        ensures
            spec_page_has_import(resp.records@, target@) ==> r == ScanStep::Found && *final(self)
                == *old(self),
            !spec_page_has_import(resp.records@, target@) ==> {
                &&& final(self).inspected == old(self).inspected + resp.records@.len()
                &&& if final(self).inspected < (resp.total_records as u64) {
                    final(self).page == old(self).page + 1 && r == ScanStep::NextPage(
                        final(self).page,
                    )
                } else {
                    final(self).page == old(self).page && r == ScanStep::NotFound
                }
            },
    {
        if page_has_import(&resp.records, target) {
            return ScanStep::Found;
        }
        self.inspected = self.inspected + resp.records.len() as u64;
        if self.inspected < resp.total_records as u64 {
            self.page = self.page + 1;
            ScanStep::NextPage(self.page)
        } else {
            ScanStep::NotFound
        }
    }
}

} // verus!
