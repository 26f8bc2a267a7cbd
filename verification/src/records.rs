use vstd::prelude::*;
use crate::error::ApiError;
use crate::json::{JsonVal, obj_get, obj_find};
use crate::envelope::{opt_str_field_ok, opt_str_field_is, key};

verus! {

/// A party shown on a payment: the account holder or the counterparty.
#[derive(Debug)]
pub struct LabelMonetaryAccount {
    pub iban: Option<String>,
    pub display_name: String,
    pub merchant_category_code: Option<String>,
}

/// A monetary amount: a decimal written as text, and a currency code.
#[derive(Debug)]
pub struct Amount {
    pub value: String,
    pub currency: String,
}

/// One payment on an account, exactly as the API reports it.
#[derive(Debug)]
pub struct Payment {
    pub alias: LabelMonetaryAccount,
    pub counterparty_alias: LabelMonetaryAccount,
    pub amount: Amount,
    pub balance_after_mutation: Amount,
    pub created: String,
    pub updated: String,
    pub description: String,
    pub id: i64,
    pub monetary_account_id: i64,
    pub type_: String,
    pub sub_type: String,
}

/// A bank account of the authenticated user.
#[derive(Debug)]
pub struct MonetaryAccountBank {
    pub id: i64,
    pub description: String,
}

pub open spec fn req_str_ok(fields: Seq<(String, JsonVal)>, k: Seq<char>) -> bool {
    obj_get(fields, k) matches Some(JsonVal::Str(_))
}

pub open spec fn req_str_is(fields: Seq<(String, JsonVal)>, k: Seq<char>, t: Seq<char>) -> bool {
    obj_get(fields, k) matches Some(JsonVal::Str(s)) && s@ == t
}

pub open spec fn req_int_ok(fields: Seq<(String, JsonVal)>, k: Seq<char>) -> bool {
    obj_get(fields, k) matches Some(JsonVal::Int(_))
}

pub open spec fn req_int_is(fields: Seq<(String, JsonVal)>, k: Seq<char>, n: i64) -> bool {
    obj_get(fields, k) matches Some(JsonVal::Int(m)) && m == n
}

fn req_str(fields: &Vec<(String, JsonVal)>, k: &String) -> (r: Result<String, ApiError>)
    ensures
        r is Ok <==> req_str_ok(fields@, k@),
        r matches Ok(s) ==> req_str_is(fields@, k@, s@),
        r matches Err(e) ==> e == ApiError::Decode,
{
    match obj_find(fields, k) {
        Some(v) => match v {
            JsonVal::Str(s) => Ok(s.clone()),
            _ => Err(ApiError::Decode),
        },
        None => Err(ApiError::Decode),
    }
}

fn req_int(fields: &Vec<(String, JsonVal)>, k: &String) -> (r: Result<i64, ApiError>)
    ensures
        r is Ok <==> req_int_ok(fields@, k@),
        r matches Ok(n) ==> req_int_is(fields@, k@, n),
        r matches Err(e) ==> e == ApiError::Decode,
{
    match obj_find(fields, k) {
        Some(v) => match v {
            JsonVal::Int(n) => Ok(*n),
            _ => Err(ApiError::Decode),
        },
        None => Err(ApiError::Decode),
    }
}

fn opt_str(fields: &Vec<(String, JsonVal)>, k: &String) -> (r: Result<Option<String>, ApiError>)
    ensures
        r is Ok <==> opt_str_field_ok(fields@, k@),
        r matches Ok(o) ==> opt_str_field_is(fields@, k@, o),
        r matches Err(e) ==> e == ApiError::Decode,
{
    match obj_find(fields, k) {
        None => Ok(None),
        Some(v) => match v {
            JsonVal::Null => Ok(None),
            JsonVal::Str(s) => Ok(Some(s.clone())),
            _ => Err(ApiError::Decode),
        },
    }
}

pub open spec fn amount_decodable(v: JsonVal) -> bool {
    &&& v matches JsonVal::Obj(fs)
    &&& req_str_ok(fs@, "value"@)
    &&& req_str_ok(fs@, "currency"@)
}

pub open spec fn is_amount_of(v: JsonVal, a: Amount) -> bool {
    &&& v matches JsonVal::Obj(fs)
    &&& req_str_is(fs@, "value"@, a.value@)
    &&& req_str_is(fs@, "currency"@, a.currency@)
}

pub fn decode_amount(v: &JsonVal) -> (r: Result<Amount, ApiError>)
    ensures
        r is Ok <==> amount_decodable(*v),
        r matches Ok(a) ==> is_amount_of(*v, a),
        r matches Err(e) ==> e == ApiError::Decode,
{
    match v {
        JsonVal::Obj(fs) => {
            let value = match req_str(fs, &key("value")) {
                Ok(x) => x,
                Err(e) => { return Err(e); },
            };
            let currency = match req_str(fs, &key("currency")) {
                Ok(x) => x,
                Err(e) => { return Err(e); },
            };
            Ok(Amount { value, currency })
        },
        _ => Err(ApiError::Decode),
    }
}

pub open spec fn label_decodable(v: JsonVal) -> bool {
    &&& v matches JsonVal::Obj(fs)
    &&& opt_str_field_ok(fs@, "iban"@)
    &&& req_str_ok(fs@, "display_name"@)
    &&& opt_str_field_ok(fs@, "merchant_category_code"@)
}

pub open spec fn is_label_of(v: JsonVal, l: LabelMonetaryAccount) -> bool {
    &&& v matches JsonVal::Obj(fs)
    &&& opt_str_field_is(fs@, "iban"@, l.iban)
    &&& req_str_is(fs@, "display_name"@, l.display_name@)
    &&& opt_str_field_is(fs@, "merchant_category_code"@, l.merchant_category_code)
}

pub fn decode_label(v: &JsonVal) -> (r: Result<LabelMonetaryAccount, ApiError>)
    ensures
        r is Ok <==> label_decodable(*v),
        r matches Ok(l) ==> is_label_of(*v, l),
        r matches Err(e) ==> e == ApiError::Decode,
{
    match v {
        JsonVal::Obj(fs) => {
            let iban = match opt_str(fs, &key("iban")) {
                Ok(x) => x,
                Err(e) => { return Err(e); },
            };
            let display_name = match req_str(fs, &key("display_name")) {
                Ok(x) => x,
                Err(e) => { return Err(e); },
            };
            let merchant_category_code = match opt_str(fs, &key("merchant_category_code")) {
                Ok(x) => x,
                Err(e) => { return Err(e); },
            };
            Ok(LabelMonetaryAccount { iban, display_name, merchant_category_code })
        },
        _ => Err(ApiError::Decode),
    }
}

pub open spec fn payment_decodable(v: JsonVal) -> bool {
    &&& v matches JsonVal::Obj(fs)
    &&& obj_get(fs@, "alias"@) matches Some(av) && label_decodable(av)
    &&& obj_get(fs@, "counterparty_alias"@) matches Some(cv) && label_decodable(cv)
    &&& obj_get(fs@, "amount"@) matches Some(mv) && amount_decodable(mv)
    &&& obj_get(fs@, "balance_after_mutation"@) matches Some(bv) && amount_decodable(bv)
    &&& req_str_ok(fs@, "created"@)
    &&& req_str_ok(fs@, "updated"@)
    &&& req_str_ok(fs@, "description"@)
    &&& req_int_ok(fs@, "id"@)
    &&& req_int_ok(fs@, "monetary_account_id"@)
    &&& req_str_ok(fs@, "type"@)
    &&& req_str_ok(fs@, "sub_type"@)
}

pub open spec fn is_payment_of(v: JsonVal, p: Payment) -> bool {
    &&& v matches JsonVal::Obj(fs)
    &&& obj_get(fs@, "alias"@) matches Some(av) && is_label_of(av, p.alias)
    &&& obj_get(fs@, "counterparty_alias"@) matches Some(cv) && is_label_of(cv, p.counterparty_alias)
    &&& obj_get(fs@, "amount"@) matches Some(mv) && is_amount_of(mv, p.amount)
    &&& obj_get(fs@, "balance_after_mutation"@) matches Some(bv) && is_amount_of(bv, p.balance_after_mutation)
    &&& req_str_is(fs@, "created"@, p.created@)
    &&& req_str_is(fs@, "updated"@, p.updated@)
    &&& req_str_is(fs@, "description"@, p.description@)
    &&& req_int_is(fs@, "id"@, p.id)
    &&& req_int_is(fs@, "monetary_account_id"@, p.monetary_account_id)
    &&& req_str_is(fs@, "type"@, p.type_@)
    &&& req_str_is(fs@, "sub_type"@, p.sub_type@)
}

pub fn decode_payment(v: &JsonVal) -> (r: Result<Payment, ApiError>)
    ensures
        r is Ok <==> payment_decodable(*v),
        r matches Ok(p) ==> is_payment_of(*v, p),
        r matches Err(e) ==> e == ApiError::Decode,
{
    match v {
        JsonVal::Obj(fs) => {
            let alias = match obj_find(fs, &key("alias")) {
                Some(av) => match decode_label(av) {
                    Ok(x) => x,
                    Err(e) => { return Err(e); },
                },
                None => { return Err(ApiError::Decode); },
            };
            let counterparty_alias = match obj_find(fs, &key("counterparty_alias")) {
                Some(cv) => match decode_label(cv) {
                    Ok(x) => x,
                    Err(e) => { return Err(e); },
                },
                None => { return Err(ApiError::Decode); },
            };
            let amount = match obj_find(fs, &key("amount")) {
                Some(mv) => match decode_amount(mv) {
                    Ok(x) => x,
                    Err(e) => { return Err(e); },
                },
                None => { return Err(ApiError::Decode); },
            };
            let balance_after_mutation = match obj_find(fs, &key("balance_after_mutation")) {
                Some(bv) => match decode_amount(bv) {
                    Ok(x) => x,
                    Err(e) => { return Err(e); },
                },
                None => { return Err(ApiError::Decode); },
            };
            let created = match req_str(fs, &key("created")) {
                Ok(x) => x,
                Err(e) => { return Err(e); },
            };
            let updated = match req_str(fs, &key("updated")) {
                Ok(x) => x,
                Err(e) => { return Err(e); },
            };
            let description = match req_str(fs, &key("description")) {
                Ok(x) => x,
                Err(e) => { return Err(e); },
            };
            let id = match req_int(fs, &key("id")) {
                Ok(x) => x,
                Err(e) => { return Err(e); },
            };
            let monetary_account_id = match req_int(fs, &key("monetary_account_id")) {
                Ok(x) => x,
                Err(e) => { return Err(e); },
            };
            let type_ = match req_str(fs, &key("type")) {
                Ok(x) => x,
                Err(e) => { return Err(e); },
            };
            let sub_type = match req_str(fs, &key("sub_type")) {
                Ok(x) => x,
                Err(e) => { return Err(e); },
            };
            Ok(Payment {
                alias,
                counterparty_alias,
                amount,
                balance_after_mutation,
                created,
                updated,
                description,
                id,
                monetary_account_id,
                type_,
                sub_type,
            })
        },
        _ => Err(ApiError::Decode),
    }
}

pub open spec fn bank_decodable(v: JsonVal) -> bool {
    &&& v matches JsonVal::Obj(fs)
    &&& req_int_ok(fs@, "id"@)
    &&& req_str_ok(fs@, "description"@)
}

pub open spec fn is_bank_of(v: JsonVal, b: MonetaryAccountBank) -> bool {
    &&& v matches JsonVal::Obj(fs)
    &&& req_int_is(fs@, "id"@, b.id)
    &&& req_str_is(fs@, "description"@, b.description@)
}

/// A list element of the account endpoint: a wrapper object whose
/// `MonetaryAccountBank` field holds the account record.
pub open spec fn account_item_decodable(v: JsonVal) -> bool {
    &&& v matches JsonVal::Obj(fs)
    &&& obj_get(fs@, "MonetaryAccountBank"@) matches Some(bv) && bank_decodable(bv)
}

pub open spec fn is_account_item_of(v: JsonVal, b: MonetaryAccountBank) -> bool {
    &&& v matches JsonVal::Obj(fs)
    &&& obj_get(fs@, "MonetaryAccountBank"@) matches Some(bv) && is_bank_of(bv, b)
}

pub fn decode_account_item(v: &JsonVal) -> (r: Result<MonetaryAccountBank, ApiError>)
    ensures
        r is Ok <==> account_item_decodable(*v),
        r matches Ok(b) ==> is_account_item_of(*v, b),
        r matches Err(e) ==> e == ApiError::Decode,
{
    match v {
        JsonVal::Obj(fs) => match obj_find(fs, &key("MonetaryAccountBank")) {
            Some(bv) => match bv {
                JsonVal::Obj(bfs) => {
                    let id = match req_int(bfs, &key("id")) {
                        Ok(x) => x,
                        Err(e) => { return Err(e); },
                    };
                    let description = match req_str(bfs, &key("description")) {
                        Ok(x) => x,
                        Err(e) => { return Err(e); },
                    };
                    Ok(MonetaryAccountBank { id, description })
                },
                _ => Err(ApiError::Decode),
            },
            None => Err(ApiError::Decode),
        },
        _ => Err(ApiError::Decode),
    }
}

/// A list element of the payment endpoint: a wrapper object whose
/// `Payment` field holds the payment record.
pub open spec fn payment_item_decodable(v: JsonVal) -> bool {
    &&& v matches JsonVal::Obj(fs)
    &&& obj_get(fs@, "Payment"@) matches Some(pv) && payment_decodable(pv)
}

pub open spec fn is_payment_item_of(v: JsonVal, p: Payment) -> bool {
    &&& v matches JsonVal::Obj(fs)
    &&& obj_get(fs@, "Payment"@) matches Some(pv) && is_payment_of(pv, p)
}

pub fn decode_payment_item(v: &JsonVal) -> (r: Result<Payment, ApiError>)
    ensures
        r is Ok <==> payment_item_decodable(*v),
        r matches Ok(p) ==> is_payment_item_of(*v, p),
        r matches Err(e) ==> e == ApiError::Decode,
{
    match v {
        JsonVal::Obj(fs) => match obj_find(fs, &key("Payment")) {
            Some(pv) => decode_payment(pv),
            None => Err(ApiError::Decode),
        },
        _ => Err(ApiError::Decode),
    }
}

pub open spec fn accounts_decodable(items: Seq<JsonVal>) -> bool {
    forall|i: int| 0 <= i < items.len() ==> account_item_decodable(#[trigger] items[i])
}

/// `rs` lists, in array order, the account wrapped by each element.
pub open spec fn is_accounts_of(items: Seq<JsonVal>, rs: Seq<MonetaryAccountBank>) -> bool {
    rs.len() == items.len() && forall|i: int|
        0 <= i < items.len() ==> is_account_item_of(#[trigger] items[i], rs[i])
}

/// Unwrap every element of an account list, in order.
pub fn decode_accounts(items: &Vec<JsonVal>) -> (r: Result<Vec<MonetaryAccountBank>, ApiError>)
    ensures
        r is Ok <==> accounts_decodable(items@),
        r matches Ok(rs) ==> is_accounts_of(items@, rs@),
        r matches Err(e) ==> e == ApiError::Decode,
{
    let mut out: Vec<MonetaryAccountBank> = Vec::new();
    let mut i: usize = 0;
    while i < items.len()
        invariant
            i <= items@.len(),
            out@.len() == i,
            forall|j: int| 0 <= j < i ==> account_item_decodable(#[trigger] items@[j]),
            forall|j: int| 0 <= j < i ==> is_account_item_of(#[trigger] items@[j], out@[j]),
        decreases items@.len() - i,
    {
        match decode_account_item(&items[i]) {
            Ok(b) => { out.push(b); },
            Err(e) => { return Err(e); },
        }
        i = i + 1;
    }
    Ok(out)
}

pub open spec fn payment_items_decodable(items: Seq<JsonVal>) -> bool {
    forall|i: int| 0 <= i < items.len() ==> payment_item_decodable(#[trigger] items[i])
}

/// `ps` lists, in array order, the payment wrapped by each element.
pub open spec fn is_payment_items_of(items: Seq<JsonVal>, ps: Seq<Payment>) -> bool {
    ps.len() == items.len() && forall|i: int|
        0 <= i < items.len() ==> is_payment_item_of(#[trigger] items[i], ps[i])
}

/// Unwrap every element of a payment list, in order.
pub fn decode_payment_items(items: &Vec<JsonVal>) -> (r: Result<Vec<Payment>, ApiError>)
    ensures
        r is Ok <==> payment_items_decodable(items@),
        r matches Ok(ps) ==> is_payment_items_of(items@, ps@),
        r matches Err(e) ==> e == ApiError::Decode,
{
    let mut out: Vec<Payment> = Vec::new();
    let mut i: usize = 0;
    while i < items.len()
        invariant
            i <= items@.len(),
            out@.len() == i,
            forall|j: int| 0 <= j < i ==> payment_item_decodable(#[trigger] items@[j]),
            forall|j: int| 0 <= j < i ==> is_payment_item_of(#[trigger] items@[j], out@[j]),
        decreases items@.len() - i,
    {
        match decode_payment_item(&items[i]) {
            Ok(p) => { out.push(p); },
            Err(e) => { return Err(e); },
        }
        i = i + 1;
    }
    Ok(out)
}

} // verus!
