use vstd::prelude::*;
use crate::error::ApiError;
use crate::json::{JsonVal, obj_get, json_parse, parse_json};
use crate::envelope::{envelope_decodable, envelope_items, decode_envelope};
use crate::records::{
    MonetaryAccountBank, Payment, accounts_decodable, is_accounts_of, decode_accounts,
    payment_items_decodable, is_payment_items_of, decode_payment_items,
};
use crate::requests::{base_url, accounts_url, accounts_url_spec, payments_url, payments_url_spec, page_url};
use crate::handshake::BunqConfigReady;

verus! {

/// One authenticated GET for the caller to perform: the URL, and the value
/// of the session authentication header.
#[derive(Debug)]
pub struct HttpGet {
    pub url: String,
    pub auth: String,
}

/// The account-list request of a completed handshake.
impl BunqConfigReady {
    pub fn accounts_request(&self) -> (g: HttpGet)
        ensures
            g.url@ == accounts_url_spec(self.user_id as int),
            g.auth@ == self.token@,
    {
        HttpGet { url: accounts_url(self.user_id), auth: self.token.clone() }
    }
}

/// A successful account-list response: a success status, a well-formed
/// envelope, and an account wrapper in every array element.
pub open spec fn accounts_response_ok(status: u16, body: Seq<char>) -> bool {
    &&& 200 <= status < 300
    &&& json_parse(body) matches Some(v)
    &&& envelope_decodable(v)
    &&& accounts_decodable(envelope_items(v))
}

pub open spec fn is_accounts_response_of(body: Seq<char>, rs: Seq<MonetaryAccountBank>) -> bool {
    &&& json_parse(body) matches Some(v)
    &&& is_accounts_of(envelope_items(v), rs)
}

/// Decode an account-list response: unwrap every element, in array order.
pub fn accounts_of_response(status: u16, body: &str) -> (r: Result<
    Vec<MonetaryAccountBank>,
    ApiError,
>)
    ensures
        r is Ok <==> accounts_response_ok(status, body@),
        r matches Ok(rs) ==> is_accounts_response_of(body@, rs@),
        r matches Err(e) ==> if !(200 <= status < 300) {
            e == ApiError::HttpStatus(status)
        } else {
            e == ApiError::Decode
        },
{
    if !(200 <= status && status < 300) {
        return Err(ApiError::HttpStatus(status));
    }
    let v = match parse_json(body) {
        Some(v) => v,
        None => { return Err(ApiError::Decode); },
    };
    let env = match decode_envelope(v) {
        Ok(env) => env,
        Err(e) => { return Err(e); },
    };
    decode_accounts(&env.items)
}

/// The "older" cursor of an envelope: the `older_url` string of its
/// pagination block, where that block and the field are present.
pub open spec fn envelope_older(v: JsonVal) -> Option<Seq<char>> {
    match v {
        JsonVal::Obj(fs) => match obj_get(fs@, "Pagination"@) {
            Some(p) => match p {
                JsonVal::Obj(pfs) => match obj_get(pfs@, "older_url"@) {
                    Some(u) => match u {
                        JsonVal::Str(s) => Some(s@),
                        _ => None,
                    },
                    None => None,
                },
                _ => None,
            },
            None => None,
        },
        _ => None,
    }
}

/// An in-progress paginated payment fetch: the session token carried on
/// every page request, and the payments gathered so far in request order.
#[derive(Debug)]
pub struct PaymentsFetch {
    pub token: String,
    pub collected: Vec<Payment>,
}

impl BunqConfigReady {
    /// Begin fetching the payments of an account: an empty accumulator and
    /// the first-page request.
    pub fn payments_begin(&self, account_id: i64) -> (r: (PaymentsFetch, HttpGet))
        ensures
            r.0.token@ == self.token@,
            r.0.collected@ == Seq::<Payment>::empty(),
            r.1.url@ == payments_url_spec(self.user_id as int, account_id as int),
            r.1.auth@ == self.token@,
    {
        let st = PaymentsFetch { token: self.token.clone(), collected: Vec::new() };
        let g = HttpGet { url: payments_url(self.user_id, account_id), auth: self.token.clone() };
        (st, g)
    }
}

/// A successful payment page: a success status, a well-formed envelope,
/// and a payment wrapper in every array element.
pub open spec fn page_ok(body: Seq<char>) -> bool {
    &&& json_parse(body) matches Some(v)
    &&& envelope_decodable(v)
    &&& payment_items_decodable(envelope_items(v))
}

/// Consume one payment page: append its unwrapped payments in array order,
/// and hand back the next request exactly where the page carries an
/// "older" cursor. On any error the accumulator is left untouched and the
/// whole fetch is abandoned.
pub fn payments_on_page(st: &mut PaymentsFetch, status: u16, body: &str) -> (r: Result<
    Option<HttpGet>,
    ApiError,
>)
    ensures
        final(st).token@ == old(st).token@,
        r is Ok <==> (200 <= status < 300 && page_ok(body@)),
        r matches Err(e) ==> *final(st) == *old(st) && (if !(200 <= status < 300) {
            e == ApiError::HttpStatus(status)
        } else {
            e == ApiError::Decode
        }),
        r matches Ok(next) ==> ({
            &&& json_parse(body@) matches Some(v)
            &&& final(st).collected@.len() == old(st).collected@.len() + envelope_items(v).len()
            &&& final(st).collected@.take(old(st).collected@.len() as int) == old(st).collected@
            &&& is_payment_items_of(
                envelope_items(v),
                final(st).collected@.skip(old(st).collected@.len() as int),
            )
            &&& match next {
                Some(g) => envelope_older(v) matches Some(rel) && g.url@ == base_url() + rel
                    && g.auth@ == old(st).token@,
                None => envelope_older(v) is None,
            }
        }),
{
    if !(200 <= status && status < 300) {
        return Err(ApiError::HttpStatus(status));
    }
    let v = match parse_json(body) {
        Some(v) => v,
        None => { return Err(ApiError::Decode); },
    };
    let env = match decode_envelope(v) {
        Ok(env) => env,
        Err(e) => { return Err(e); },
    };
    let mut page = match decode_payment_items(&env.items) {
        Ok(ps) => ps,
        Err(e) => { return Err(e); },
    };
    let ghost old_len = st.collected@.len();
    let ghost page_seq = page@;
    st.collected.append(&mut page);
    proof {
        assert(st.collected@.take(old_len as int) =~= old(st).collected@);
        assert(st.collected@.skip(old_len as int) =~= page_seq);
    }
    let next = match &env.pagination {
        Some(pg) => match &pg.older_url {
            Some(u) => Some(HttpGet { url: page_url(u.as_str()), auth: st.token.clone() }),
            None => None,
        },
        None => None,
    };
    Ok(next)
}

/// One decoded page as the fetch loop sees it: its unwrapped payments and
/// its "older" cursor.
pub struct PageView {
    pub items: Seq<Payment>,
    pub older: Option<Seq<char>>,
}

/// A chain of pages: every page but the last carries an "older" cursor,
/// and the last carries none.
pub open spec fn chain_ok(pages: Seq<PageView>) -> bool {
    forall|i: int|
        0 <= i < pages.len() ==> ((#[trigger] pages[i]).older is Some <==> i + 1 < pages.len())
}

/// All payments of a chain, page after page in request order.
pub open spec fn pages_concat(pages: Seq<PageView>) -> Seq<Payment>
    decreases pages.len(),
{
    if pages.len() == 0 {
        Seq::empty()
    } else {
        pages[0].items + pages_concat(pages.drop_first())
    }
}

/// The accumulator as the fetch loop leaves it after consuming the pages
/// in order, appending each page once.
pub open spec fn pages_fold(acc: Seq<Payment>, pages: Seq<PageView>) -> Seq<Payment>
    decreases pages.len(),
{
    if pages.len() == 0 {
        acc
    } else {
        pages_fold(acc + pages[0].items, pages.drop_first())
    }
}

/// Pagination terminates and collects everything: a fetch loop that
/// appends each page of a chain in request order, following the "older"
/// cursor and stopping at the one page without it, visits each page
/// exactly once and returns the concatenation of all pages' payments.
pub proof fn lemma_pagination_collects_all(acc: Seq<Payment>, pages: Seq<PageView>)
    requires
        chain_ok(pages),
    ensures
        pages_fold(acc, pages) == acc + pages_concat(pages),
    decreases pages.len(),
{
    if pages.len() == 0 {
        assert(acc + pages_concat(pages) =~= acc);
    } else {
        assert forall|i: int|
            0 <= i < pages.drop_first().len() implies ((#[trigger] pages.drop_first()[i]).older
            is Some <==> i + 1 < pages.drop_first().len()) by {
            assert(pages.drop_first()[i] == pages[i + 1]);
        }
        lemma_pagination_collects_all(acc + pages[0].items, pages.drop_first());
        assert((acc + pages[0].items) + pages_concat(pages.drop_first()) =~= acc + pages_concat(
            pages,
        ));
    }
}

} // verus!
