//! The pagination window: page/limit defaults, the zero-based offset, and
//! the saturating total-page count, plus assembly of one page of listed
//! users.

use vstd::prelude::*;
use crate::models::{PaginatedResponse, PaginationParams, User, UserResponse};

verus! {

/// The number of pages that `total` rows make at `limit` rows per page:
/// the integer ceiling of `total / limit`.
pub open spec fn spec_total_pages(total: int, limit: int) -> int {
    (total + limit - 1) / limit
}

/// Law: `spec_total_pages` is the ceiling of `total / limit` — its pages
/// cover every row, and one page fewer would leave rows uncovered whenever
/// any row exists.
pub proof fn lemma_total_pages_is_ceiling(total: int, limit: int)
    requires
        0 <= total,
        1 <= limit,
    ensures
        spec_total_pages(total, limit) * limit >= total,
        (spec_total_pages(total, limit) - 1) * limit < total,
        total == 0 ==> spec_total_pages(total, limit) == 0,
{
    let q = spec_total_pages(total, limit);
    assert(q * limit >= total && (q - 1) * limit < total) by (nonlinear_arith)
        requires
            1 <= limit,
            0 <= total,
            q == (total + limit - 1) / limit,
    ;
    if total == 0 {
        assert((limit - 1) / limit == 0) by (nonlinear_arith)
            requires
                1 <= limit,
        ;
    }
}

/// Resolve the optional page and limit of a listing request to their
/// effective values: page defaults to 1, limit to 20.
pub fn resolve_pagination(params: &PaginationParams) -> (r: (u32, u32))
    ensures
        r.0 == params.page.unwrap_or(1u32),
        r.1 == params.limit.unwrap_or(20u32),
{
    let page = match params.page {
        Some(p) => p,
        None => 1,
    };
    let limit = match params.limit {
        Some(l) => l,
        None => 20,
    };
    (page, limit)
}

/// The zero-based row offset of a one-based page: `(page - 1) * limit`.
pub fn offset_for(page: u32, limit: u32) -> (r: u64)
    requires
        page >= 1,
    ensures
        r == (page - 1) * limit,
{
    let p = (page - 1) as u64;
    let l = limit as u64;
    proof {
        assert(p * l <= 0xffff_ffffu64 * 0xffff_ffffu64) by (nonlinear_arith)
            requires
                p <= 0xffff_ffffu64,
                l <= 0xffff_ffffu64,
        ;
    }
    p * l
}

/// The saturating page count: the ceiling of `total / limit`, clamped to
/// `u32::MAX` when it does not fit.
pub fn total_pages(total: i64, limit: u32) -> (r: u32)
    requires
        total >= 0,
        limit >= 1,
    ensures
        spec_total_pages(total as int, limit as int) <= u32::MAX ==> r == spec_total_pages(
            total as int,
            limit as int,
        ),
        spec_total_pages(total as int, limit as int) > u32::MAX ==> r == u32::MAX,
{
    let t = total as u64;
    let l = limit as u64;
    let q = (t + l - 1) / l;
    if q > u32::MAX as u64 {
        u32::MAX
    } else {
        q as u32
    }
}

/// Whether a response row echoes a record: every outward attribute equal,
/// and nothing else — in particular no password hash.
pub open spec fn echoes(r: UserResponse, u: User) -> bool {
    &&& r.id == u.id
    &&& r.email@ == u.email@
    &&& r.username@ == u.username@
    &&& (match (r.full_name, u.full_name) {
        (Some(a), Some(b)) => a@ == b@,
        (None, None) => true,
        _ => false,
    })
    &&& r.is_active == u.is_active
    &&& r.is_verified == u.is_verified
    &&& r.created_at == u.created_at
}

/// Assemble one page of a listing: the fetched rows echoed outward in
/// order, together with the window and the saturating page count.
pub fn paginate_users(users: &Vec<User>, total: i64, page: u32, limit: u32) -> (r:
    PaginatedResponse<UserResponse>)
    requires
        total >= 0,
        limit >= 1,
    ensures
        r.data@.len() == users@.len(),
        forall|i: int| 0 <= i < users@.len() ==> echoes(#[trigger] r.data@[i], users@[i]),
        r.total == total,
        r.page == page,
        r.limit == limit,
        spec_total_pages(total as int, limit as int) <= u32::MAX ==> r.total_pages
            == spec_total_pages(total as int, limit as int),
        spec_total_pages(total as int, limit as int) > u32::MAX ==> r.total_pages == u32::MAX,
{
    let mut data: Vec<UserResponse> = Vec::new();
    let n = users.len();
    let mut i: usize = 0;
    while i < n
        invariant
            0 <= i <= n,
            n == users@.len(),
            data@.len() == i,
            forall|j: int| 0 <= j < i ==> echoes(#[trigger] data@[j], users@[j]),
        decreases n - i,
    {
        let u = &users[i];
        let full_name = match &u.full_name {
            Some(s) => Some(s.clone()),
            None => None,
        };
        data.push(UserResponse {
            id: u.id,
            email: u.email.clone(),
            username: u.username.clone(),
            full_name,
            is_active: u.is_active,
            is_verified: u.is_verified,
            created_at: u.created_at,
        });
        i += 1;
    }
    PaginatedResponse { data, total, page, limit, total_pages: total_pages(total, limit) }
}

} // verus!
