//! RFID tags (IdTags): request defaults, status names and list pages.
use vstd::prelude::*;

use crate::text::{lowercase_of, text_eq, to_lower};

verus! {

/// Authorization status of an IdTag.
#[derive(Clone, Copy, Debug, PartialEq, Eq, Structural)]
pub enum IdTagStatus {
    Accepted,
    Blocked,
    Expired,
    Invalid,
    ConcurrentTx,
}

/// The status a lowercase status text names; unknown texts mean accepted.
pub open spec fn id_tag_status_of(lower: Seq<char>) -> IdTagStatus {
    if lower == "blocked"@ {
        IdTagStatus::Blocked
    } else if lower == "expired"@ {
        IdTagStatus::Expired
    } else if lower == "invalid"@ {
        IdTagStatus::Invalid
    } else if lower == "concurrenttx"@ {
        IdTagStatus::ConcurrentTx
    } else {
        IdTagStatus::Accepted
    }
}

/// The status a request text names, in any case; unknown texts mean accepted.
pub fn parse_status(s: &str) -> (r: IdTagStatus)
    ensures
        r == id_tag_status_of(lowercase_of(s@)),
{
    let l = to_lower(s);
    let l = l.as_str();
    if text_eq(l, "blocked") {
        IdTagStatus::Blocked
    } else if text_eq(l, "expired") {
        IdTagStatus::Expired
    } else if text_eq(l, "invalid") {
        IdTagStatus::Invalid
    } else if text_eq(l, "concurrenttx") {
        IdTagStatus::ConcurrentTx
    } else {
        IdTagStatus::Accepted
    }
}

/// The status of a new tag when the request names none.
pub fn default_status() -> (r: String)
    ensures
        r@ == "Accepted"@,
{
    "Accepted".to_owned()
}

/// The page of a list when the request names none.
pub fn default_page() -> (r: u64)
    ensures
        r == 1,
{
    1
}

/// The page size of a list when the request names none.
pub fn default_page_size() -> (r: u64)
    ensures
        r == 20,
{
    20
}

/// Query parameters of the tag list.
pub struct ListIdTagsParams {
    pub status: Option<String>,
    pub is_active: Option<bool>,
    pub user_id: Option<String>,
    pub page: u64,
    pub page_size: u64,
}

/// The page number and size a list answers with (page at least 1, size
/// within `1..=100`, both as `u32`) and the number of rows skipped.
pub open spec fn page_window(page: u64, page_size: u64) -> (u32, u32, u64) {
    let p = (if page < 1 { 1 } else { page }) as u32;
    let s = (if page_size > 100 { 100 } else if page_size < 1 { 1 } else { page_size }) as u32;
    (p, s, ((p - 1) * s) as u64)
}

/// The page number after its cast to `u32` is at least 1, and the offset
/// fits a `u32` (else the offset arithmetic would overflow).
pub open spec fn page_window_fits(page: u64, page_size: u64) -> bool {
    let p = (if page < 1 { 1 } else { page }) as u32;
    let s = (if page_size > 100 { 100 } else if page_size < 1 { 1 } else { page_size }) as u32;
    p >= 1 && (p - 1) * s <= u32::MAX
}

/// The page window of a tag list request.
pub fn id_tag_page_window(page: u64, page_size: u64) -> (r: (u32, u32, u64))
    requires
        page_window_fits(page, page_size),
    ensures
        r == page_window(page, page_size),
{
    let p: u32 = (if page < 1 {
        1
    } else {
        page
    }) as u32;
    let s: u32 = (if page_size > 100 {
        100
    } else if page_size < 1 {
        1
    } else {
        page_size
    }) as u32;
    let offset: u32 = (p - 1) * s;
    (p, s, offset as u64)
}

/// Request to create an IdTag.
pub struct CreateIdTagRequest {
    pub id_tag: String,
    pub parent_id_tag: Option<String>,
    pub status: String,
    pub user_id: Option<String>,
    pub name: Option<String>,
    pub expiry_date: Option<String>,
    pub max_active_transactions: Option<i32>,
}

impl CreateIdTagRequest {
    /// The rejection of a request with an empty tag value, if it has one.
    pub fn check(&self) -> (r: Option<String>)
        ensures
            match r {
                Some(m) => self.id_tag@.len() == 0 && m@ == "IdTag value cannot be empty"@,
                None => self.id_tag@.len() > 0,
            },
    {
        if self.id_tag.as_str().unicode_len() == 0 {
            Some("IdTag value cannot be empty".to_owned())
        } else {
            None
        }
    }
}

/// Request to change some fields of an IdTag.
pub struct UpdateIdTagRequest {
    pub parent_id_tag: Option<String>,
    pub status: Option<String>,
    pub user_id: Option<String>,
    pub name: Option<String>,
    pub expiry_date: Option<String>,
    pub max_active_transactions: Option<i32>,
    pub is_active: Option<bool>,
}

/// IdTag as the API presents it; times are RFC 3339 texts.
pub struct IdTagDto {
    pub id_tag: String,
    pub parent_id_tag: Option<String>,
    pub status: String,
    pub user_id: Option<String>,
    pub name: Option<String>,
    pub expiry_date: Option<String>,
    pub max_active_transactions: Option<i32>,
    pub is_active: bool,
    pub created_at: String,
    pub updated_at: String,
    pub last_used_at: Option<String>,
}

} // verus!
