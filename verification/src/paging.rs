//! Pagination and sorting of listing and search requests.

use crate::decimal::{decimal, to_decimal};
use crate::query::{
    has_param, names_distinct, param_index, param_value, ParamSeq, QueryParams,
};
use crate::sort::{sort_token, SortBy};
use vstd::prelude::*;

verus! {

/// The page size of a request that names none.
pub const DEFAULT_PAGE_SIZE: u64 = 12;

/// The name of the parameter that carries the page size.
pub const NUM_PARAM: &'static str = "num";

/// The name of the parameter that carries the offset of the first result.
pub const FROM_PARAM: &'static str = "from";

/// The name of the parameter that carries the sort key.
pub const SORT_PARAM: &'static str = "sort";

/// The page size in force: the one asked for, or the default.
pub open spec fn effective_page_size(page_size: Option<u64>) -> nat {
    match page_size {
        Some(size) => size as nat,
        None => DEFAULT_PAGE_SIZE as nat,
    }
}

/// The offset of the first result of page `page_number`, counting from zero.
pub open spec fn page_offset(page_size: Option<u64>, page_number: u64) -> nat {
    effective_page_size(page_size) * (page_number as nat)
}

/// The parameters of a listing or search request: `num` always, `from` where
/// a page number is given, `sort` where a sort key is given, in this order.
pub open spec fn listing_params(
    sort_by: Option<SortBy>,
    page_size: Option<u64>,
    page_number: Option<u64>,
) -> ParamSeq {
    let sized = seq![(NUM_PARAM@, decimal(effective_page_size(page_size)))];
    let paged = match page_number {
        Some(number) => sized.push((FROM_PARAM@, decimal(page_offset(page_size, number)))),
        None => sized,
    };
    match sort_by {
        Some(key) => paged.push((SORT_PARAM@, sort_token(key))),
        None => paged,
    }
}

/// The three parameter names differ from each other.
proof fn lemma_param_names_differ()
    ensures
        NUM_PARAM@ != FROM_PARAM@,
        NUM_PARAM@ != SORT_PARAM@,
        FROM_PARAM@ != SORT_PARAM@,
{
    reveal_strlit("num");
    reveal_strlit("from");
    reveal_strlit("sort");
    assert(NUM_PARAM@.len() == 3);
    assert(FROM_PARAM@.len() == 4);
    assert(SORT_PARAM@.len() == 4);
    assert(FROM_PARAM@[0] == 'f');
    assert(SORT_PARAM@[0] == 's');
}

/// What a listing request carries: `num` is the page size in force, `from`
/// is the page size times the page number where a page number is given and
/// is absent otherwise, `sort` is the token of the sort key where one is
/// given and is absent otherwise. No name occurs twice.
pub proof fn lemma_listing_params(
    sort_by: Option<SortBy>,
    page_size: Option<u64>,
    page_number: Option<u64>,
)
    ensures
        names_distinct(listing_params(sort_by, page_size, page_number)),
        param_value(listing_params(sort_by, page_size, page_number), NUM_PARAM@) == Some(
            decimal(effective_page_size(page_size)),
        ),
        param_value(listing_params(sort_by, page_size, page_number), FROM_PARAM@) == (
        match page_number {
            Some(number) => Some(decimal(effective_page_size(page_size) * (number as nat))),
            None => None,
        }),
        param_value(listing_params(sort_by, page_size, page_number), SORT_PARAM@) == (
        match sort_by {
            Some(key) => Some(sort_token(key)),
            None => None,
        }),
        forall|name: Seq<char>|
            name != NUM_PARAM@ && name != FROM_PARAM@ && name != SORT_PARAM@ ==> !has_param(
                listing_params(sort_by, page_size, page_number),
                name,
            ),
{
    lemma_param_names_differ();
    let params = listing_params(sort_by, page_size, page_number);
    let from_at: int = 1;
    let sort_at: int = if page_number is Some {
        2
    } else {
        1
    };
    assert(params[0].0 == NUM_PARAM@);
    assert(has_param(params, NUM_PARAM@));
    assert(param_index(params, NUM_PARAM@) == 0);
    if page_number is Some {
        assert(params[from_at].0 == FROM_PARAM@);
        assert(has_param(params, FROM_PARAM@));
        assert(param_index(params, FROM_PARAM@) == from_at);
    }
    if sort_by is Some {
        assert(params[sort_at].0 == SORT_PARAM@);
        assert(has_param(params, SORT_PARAM@));
        assert(param_index(params, SORT_PARAM@) == sort_at);
    }
}

/// The product of two 64-bit numbers fits in 128 bits.
proof fn lemma_product_fits(a: u64, b: u64)
    ensures
        (a as nat) * (b as nat) <= u128::MAX,
{
    assert((a as nat) * (b as nat) <= 0xffff_ffff_ffff_ffff * 0xffff_ffff_ffff_ffff)
        by (nonlinear_arith)
        requires
            a <= 0xffff_ffff_ffff_ffff,
            b <= 0xffff_ffff_ffff_ffff,
    ;
}

/// Derives the parameters of a listing or search request. The offset is the
/// exact product of page size and page number, however large.
pub fn page_params(
    sort_by: &Option<SortBy>,
    page_size: &Option<u64>,
    page_number: &Option<u64>,
) -> (params: QueryParams)
    ensures
        params@ == listing_params(*sort_by, *page_size, *page_number),
        names_distinct(params@),
{
    proof {
        lemma_param_names_differ();
        lemma_listing_params(*sort_by, *page_size, *page_number);
    }
    let size: u64 = match page_size {
        Some(size) => *size,
        None => DEFAULT_PAGE_SIZE,
    };
    let mut params = QueryParams::new();
    params.insert(NUM_PARAM.to_owned(), to_decimal(size as u128));
    let ghost sized = params@;
    assert(sized =~= seq![(NUM_PARAM@, decimal(effective_page_size(*page_size)))]);
    match page_number {
        Some(number) => {
            proof {
                lemma_product_fits(size, *number);
            }
            let offset: u128 = (size as u128) * (*number as u128);
            assert(!has_param(sized, FROM_PARAM@));
            params.insert(FROM_PARAM.to_owned(), to_decimal(offset));
        },
        None => {},
    }
    let ghost paged = params@;
    match sort_by {
        Some(key) => {
            assert(!has_param(paged, SORT_PARAM@));
            params.insert(SORT_PARAM.to_owned(), key.as_str().to_owned());
        },
        None => {},
    }
    assert(params@ =~= listing_params(*sort_by, *page_size, *page_number));
    params
}

} // verus!
