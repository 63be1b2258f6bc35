//! The uniform shape of API responses: a success flag, a request id, the data,
//! and for paginated lists the page metadata.
use vstd::prelude::*;
use crate::text::push_char;

verus! {

/// A lowercase hexadecimal digit.
pub open spec fn is_lower_hex(c: char) -> bool {
    ('0' <= c && c <= '9') || ('a' <= c && c <= 'f')
}

/// The text of a random (version 4) UUID in its simple form: 32 lowercase
/// hexadecimal digits, the version digit `4` at position 12 and the variant digit
/// (`8`, `9`, `a` or `b`) at position 16.
pub open spec fn is_simple_v4(s: Seq<char>) -> bool {
    &&& s.len() == 32
    &&& forall|i: int| 0 <= i < 32 ==> is_lower_hex(#[trigger] s[i])
    &&& s[12] == '4'
    &&& (s[16] == '8' || s[16] == '9' || s[16] == 'a' || s[16] == 'b')
}

/// A request id: `req_` followed by a random UUID in its simple form.
pub open spec fn is_request_id(s: Seq<char>) -> bool {
    s.len() == 36 && s.subrange(0, 4) == seq!['r', 'e', 'q', '_'] && is_simple_v4(s.subrange(4, 36))
}

/// `Uuid::new_v4().simple().to_string()`: a fresh random UUID, written (by the
/// `Display` of `Simple`) as 32 lowercase hexadecimal digits; a version 4 UUID has
/// the version digit 4 and one of the variant digits 8, 9, a, b.  Which UUID comes
/// out is chance: nothing more is stated of it.
#[verifier::external_body]
fn random_uuid_simple() -> (r: String)
    ensures
        is_simple_v4(r@),
{
    uuid::Uuid::new_v4().simple().to_string()
}

/// A fresh request id: `req_` and a random UUID in its simple form.
pub fn new_request_id() -> (r: String)
    ensures
        is_request_id(r@),
{
    let u = random_uuid_simple();
    let mut r = String::new();
    push_char(&mut r, 'r');
    push_char(&mut r, 'e');
    push_char(&mut r, 'q');
    push_char(&mut r, '_');
    r.append(u.as_str());
    proof {
        assert(r@.subrange(0, 4) =~= seq!['r', 'e', 'q', '_']);
        assert(r@.subrange(4, 36) =~= u@);
    }
    r
}

/// A successful response carrying `data`.
pub struct ApiResponse<T> {
    pub success: bool,
    pub request_id: String,
    pub data: T,
}

/// The items of one page.
pub struct PaginatedData<T> {
    pub items: Vec<T>,
}

/// The page metadata of a list response.
pub struct Meta {
    pub total: i64,
    pub page: i64,
    pub page_size: i64,
    pub total_pages: i64,
}

/// A successful paginated response.
pub struct PaginatedResponse<T> {
    pub success: bool,
    pub request_id: String,
    pub data: PaginatedData<T>,
    pub meta: Meta,
}

/// Integer division rounding toward zero (Rust's `/` on integers).
pub open spec fn trunc_div(a: int, b: int) -> int {
    if a >= 0 {
        if b > 0 {
            a / b
        } else {
            -(a / (-b))
        }
    } else {
        if b > 0 {
            -((-a) / b)
        } else {
            (-a) / (-b)
        }
    }
}

/// The number of pages: `(total + page_size - 1) / page_size` rounded toward zero,
/// or 0 when the page size is 0.
pub open spec fn page_count(total: i64, page_size: i64) -> int {
    if page_size == 0 {
        0
    } else {
        trunc_div(total + page_size - 1, page_size as int)
    }
}

/// The page count can be computed in `i64` without overflow.
pub open spec fn page_count_fits(total: i64, page_size: i64) -> bool {
    page_size != 0 ==> {
        &&& i64::MIN <= total + page_size <= i64::MAX
        &&& i64::MIN <= total + page_size - 1 <= i64::MAX
        &&& !(page_size == -1 && total + page_size - 1 == i64::MIN)
    }
}

/// The number of pages of `total` rows at `page_size` rows a page.
pub fn total_pages(total: i64, page_size: i64) -> (r: i64)
    requires
        page_count_fits(total, page_size),
    ensures
        r == page_count(total, page_size),
{
    if page_size == 0 {
        0
    } else {
        let n = total + page_size - 1;
        let a = n as i128;
        let b = page_size as i128;
        let q: i128 = if a >= 0 {
            if b > 0 {
                a / b
            } else {
                -(a / (-b))
            }
        } else {
            if b > 0 {
                -((-a) / b)
            } else {
                (-a) / (-b)
            }
        };
        proof {
            let x: int = if a >= 0 { a as int } else { -(a as int) };
            let y: int = if b >= 0 { b as int } else { -(b as int) };
            assert(x / y <= x) by (nonlinear_arith)
                requires
                    x >= 0,
                    y >= 1,
            ;
            assert(x / y >= 0) by (nonlinear_arith)
                requires
                    x >= 0,
                    y >= 1,
            ;
            assert(y >= 2 ==> x / y <= x / 2) by (nonlinear_arith)
                requires
                    x >= 0,
                    y >= 1,
            ;
            if a >= 0 && b > 0 {
                assert(q == x / y);
            } else if a >= 0 {
                assert(q == -(x / y));
            } else if b > 0 {
                assert(q == -(x / y));
            } else {
                assert(q == x / y);
                assert(y == 1 ==> a != i64::MIN);
            }
            assert(i64::MIN <= q <= i64::MAX);
            assert(q == trunc_div(n as int, page_size as int));
        }
        q as i64
    }
}

/// The pages cover the rows exactly: with a positive page size, `total` rows fill
/// `page_count` pages, the last of them not empty.
pub proof fn lemma_pages_cover(total: i64, page_size: i64)
    requires
        total >= 0,
        page_size > 0,
        total + page_size - 1 <= i64::MAX,
    ensures
        page_count(total, page_size) * page_size >= total,
        total > 0 ==> (page_count(total, page_size) - 1) * page_size < total,
        total == 0 ==> page_count(total, page_size) == 0,
{
    let n = total + page_size - 1;
    let q = n / (page_size as int);
    assert(q * page_size + n % (page_size as int) == n) by (nonlinear_arith)
        requires
            page_size > 0,
            q == n / (page_size as int),
    ;
    assert(0 <= n % (page_size as int) < page_size) by (nonlinear_arith)
        requires
            page_size > 0,
    ;
    assert((q - 1) * page_size == q * page_size - page_size) by (nonlinear_arith);
    if total == 0 {
        assert(0 <= n < page_size);
        assert(q == 0) by (nonlinear_arith)
            requires
                0 <= n < page_size,
                q == n / (page_size as int),
        ;
    }
}

impl<T> ApiResponse<T> {
    /// A successful response with `data` and a fresh request id.
    pub fn ok(data: T) -> (r: Self)
        ensures
            r.success,
            is_request_id(r.request_id@),
            r.data == data,
    {
        ApiResponse { success: true, request_id: new_request_id(), data }
    }

    /// A successful response for a created resource (sent with status 201).
    pub fn created(data: T) -> (r: Self)
        ensures
            r.success,
            is_request_id(r.request_id@),
            r.data == data,
    {
        ApiResponse { success: true, request_id: new_request_id(), data }
    }
}

impl<T> PaginatedResponse<T> {
    /// A successful page of `items` with its metadata: the total, the page, the
    /// page size and the page count.
    pub fn ok(items: Vec<T>, total: i64, page: i64, page_size: i64) -> (r: Self)
        requires
            page_count_fits(total, page_size),
        ensures
            r.success,
            is_request_id(r.request_id@),
            r.data.items == items,
            r.meta.total == total,
            r.meta.page == page,
            r.meta.page_size == page_size,
            r.meta.total_pages == page_count(total, page_size),
    {
        let n = total_pages(total, page_size);
        PaginatedResponse {
            success: true,
            request_id: new_request_id(),
            data: PaginatedData { items },
            meta: Meta { total, page, page_size, total_pages: n },
        }
    }
}

} // verus!
