//! The rules of the attachments: what may be stored and how a listing is paged.

use vstd::prelude::*;
use vstd::string::StringExecFns;
use crate::text::text_of;

verus! {

/// The complaint about a new attachment, if there is one: the record it
/// belongs to has a positive id, and its file has a name.
pub open spec fn create_complaint(master_id: i64, file_name: Seq<char>) -> Option<Seq<char>> {
    if master_id <= 0 {
        Some("主表记录 ID 必须大于 0"@)
    } else if file_name.len() == 0 {
        Some("文件名不能为空"@)
    } else {
        None
    }
}

/// The complaint about the page asked for, if there is one: pages are
/// counted from 1 and hold at least one row.
pub open spec fn page_complaint(page: i64, page_size: i64) -> Option<Seq<char>> {
    if page < 1 {
        Some("页码必须大于 0"@)
    } else if page_size <= 0 {
        Some("每页数量必须大于 0"@)
    } else {
        None
    }
}

/// The text to filter by: an empty text filters nothing.
pub open spec fn effective_text(filter: Option<String>) -> Option<Seq<char>> {
    match filter {
        Some(text) if text@.len() > 0 => Some(text@),
        _ => None,
    }
}

/// The record to filter by: an id that is not positive filters nothing.
pub open spec fn effective_master(filter: Option<i64>) -> Option<i64> {
    match filter {
        Some(id) if id > 0 => Some(id),
        _ => None,
    }
}

/// The rows of a listing: how many, and after how many that are skipped.
#[derive(Debug, Clone, Copy, PartialEq, Eq, Structural)]
pub struct PageWindow {
    pub limit: u64,
    pub offset: u64,
}

/// Checks a new attachment before anything is stored.
pub fn create_attachment(master_id: i64, file_name: &str) -> (checked: Result<(), String>)
    ensures
        match create_complaint(master_id, file_name@) {
            Some(complaint) => checked matches Err(message) && message@ == complaint,
            None => checked is Ok,
        },
{
    if master_id <= 0 {
        return Err(String::from_str("主表记录 ID 必须大于 0"));
    }
    if file_name.is_empty() {
        return Err(String::from_str("文件名不能为空"));
    }
    Ok(())
}

/// The rows that a page of a listing holds. The rows skipped are those of
/// the pages before; their number must fit in 64 bits.
pub fn query_attachments(page: i64, page_size: i64) -> (window: Result<PageWindow, String>)
    requires
        page >= 1 && page_size > 0 ==> (page - 1) * page_size <= i64::MAX,
    ensures
        match page_complaint(page, page_size) {
            Some(complaint) => window matches Err(message) && message@ == complaint,
            None => window == Ok::<PageWindow, String>(
                PageWindow { limit: page_size as u64, offset: ((page - 1) * page_size) as u64 },
            ),
        },
{
    if page < 1 {
        return Err(String::from_str("页码必须大于 0"));
    }
    if page_size <= 0 {
        return Err(String::from_str("每页数量必须大于 0"));
    }
    assert(0 <= (page - 1) * page_size) by (nonlinear_arith)
        requires
            page >= 1,
            page_size > 0,
    ;
    let offset = (page - 1) * page_size;
    Ok(PageWindow { limit: page_size as u64, offset: offset as u64 })
}

/// The rows that a page of a listing holds, where their place can be
/// numbered; `None` where the rows to skip are more than 64 bits count.
pub fn checked_query_attachments(page: i64, page_size: i64) -> (window: Option<
    Result<PageWindow, String>,
>)
    ensures
        match page_complaint(page, page_size) {
            Some(complaint) => window matches Some(Err(message)) && message@ == complaint,
            None => if (page - 1) * page_size <= i64::MAX {
                window == Some(
                    Ok::<PageWindow, String>(
                        PageWindow {
                            limit: page_size as u64,
                            offset: ((page - 1) * page_size) as u64,
                        },
                    ),
                )
            } else {
                window is None
            },
        },
{
    if page >= 1 && page_size > 0 {
        match (page - 1).checked_mul(page_size) {
            Some(_) => Some(query_attachments(page, page_size)),
            None => None,
        }
    } else {
        Some(query_attachments(page, page_size))
    }
}

/// The text to filter a listing by, if any.
pub fn text_filter(filter: Option<String>) -> (effective: Option<String>)
    ensures
        text_of(effective) == effective_text(filter),
{
    match filter {
        Some(text) => if text.as_str().is_empty() {
            None
        } else {
            Some(text)
        },
        None => None,
    }
}

/// The record to filter a listing by, if any.
pub fn master_filter(filter: Option<i64>) -> (effective: Option<i64>)
    ensures
        effective == effective_master(filter),
{
    match filter {
        Some(id) => if id > 0 {
            Some(id)
        } else {
            None
        },
        None => None,
    }
}

} // verus!
