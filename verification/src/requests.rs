use vstd::prelude::*;

verus! {

/// The hexadecimal digit for `n` (meaningful for `0 <= n < 16`).
pub open spec fn hex_char(n: int) -> char {
    if n == 0 { '0' }
    else if n == 1 { '1' }
    else if n == 2 { '2' }
    else if n == 3 { '3' }
    else if n == 4 { '4' }
    else if n == 5 { '5' }
    else if n == 6 { '6' }
    else if n == 7 { '7' }
    else if n == 8 { '8' }
    else if n == 9 { '9' }
    else if n == 10 { 'a' }
    else if n == 11 { 'b' }
    else if n == 12 { 'c' }
    else if n == 13 { 'd' }
    else if n == 14 { 'e' }
    else { 'f' }
}

/// How one character is written inside a JSON string literal.
pub open spec fn escape_char(c: char) -> Seq<char> {
    if c == '"' { seq!['\\', '"'] }
    else if c == '\\' { seq!['\\', '\\'] }
    else if c == '\n' { seq!['\\', 'n'] }
    else if c == '\r' { seq!['\\', 'r'] }
    else if c == '\t' { seq!['\\', 't'] }
    else if (c as u32) < 32 {
        seq!['\\', 'u', '0', '0', hex_char((c as u32) as int / 16), hex_char((c as u32) as int % 16)]
    } else { seq![c] }
}

/// The characters of a JSON string literal holding `s` (without the quotes).
pub open spec fn escaped(s: Seq<char>) -> Seq<char>
    decreases s.len(),
{
    if s.len() == 0 {
        Seq::empty()
    } else {
        escape_char(s[0]) + escaped(s.drop_first())
    }
}

proof fn lemma_escaped_take_step(s: Seq<char>, i: int)
    requires
        0 <= i < s.len(),
    ensures
        escaped(s.take(i + 1)) == escaped(s.take(i)) + escape_char(s[i]),
    decreases i,
{
    if i == 0 {
        assert(s.take(1).drop_first() =~= Seq::<char>::empty());
        assert(s.take(0) =~= Seq::<char>::empty());
        assert(escaped(s.take(1)) =~= escaped(s.take(0)) + escape_char(s[0]));
    } else {
        lemma_escaped_take_step(s.drop_first(), i - 1);
        assert(s.take(i + 1).drop_first() =~= s.drop_first().take(i));
        assert(s.take(i).drop_first() =~= s.drop_first().take(i - 1));
        assert(s.take(i + 1)[0] == s[0]);
        assert(s.take(i)[0] == s[0]);
        assert(s.drop_first()[i - 1] == s[i]);
        assert(escaped(s.take(i + 1)) =~= escaped(s.take(i)) + escape_char(s[i]));
    }
}

fn hex_str(n: u32) -> (r: &'static str)
    requires
        n < 16,
    ensures
        r@ == seq![hex_char(n as int)],
{
    proof {
        reveal_strlit("0"); reveal_strlit("1"); reveal_strlit("2"); reveal_strlit("3");
        reveal_strlit("4"); reveal_strlit("5"); reveal_strlit("6"); reveal_strlit("7");
        reveal_strlit("8"); reveal_strlit("9"); reveal_strlit("a"); reveal_strlit("b");
        reveal_strlit("c"); reveal_strlit("d"); reveal_strlit("e"); reveal_strlit("f");
    }
    if n == 0 { "0" }
    else if n == 1 { "1" }
    else if n == 2 { "2" }
    else if n == 3 { "3" }
    else if n == 4 { "4" }
    else if n == 5 { "5" }
    else if n == 6 { "6" }
    else if n == 7 { "7" }
    else if n == 8 { "8" }
    else if n == 9 { "9" }
    else if n == 10 { "a" }
    else if n == 11 { "b" }
    else if n == 12 { "c" }
    else if n == 13 { "d" }
    else if n == 14 { "e" }
    else { "f" }
}

/// Append the JSON string escaping of `s` to `out`.
pub fn escape_onto(out: &mut String, s: &str)
    ensures
        final(out)@ == old(out)@ + escaped(s@),
{
    let n = s.unicode_len();
    let mut i: usize = 0;
    assert(s@.take(0) =~= Seq::<char>::empty());
    while i < n
        invariant
            n == s@.len(),
            i <= n,
            out@ == old(out)@ + escaped(s@.take(i as int)),
        decreases n - i,
    {
        let c = s.get_char(i);
        if c == '"' {
            out.append("\\\"");
            proof { reveal_strlit("\\\""); }
        } else if c == '\\' {
            out.append("\\\\");
            proof { reveal_strlit("\\\\"); }
        } else if c == '\n' {
            out.append("\\n");
            proof { reveal_strlit("\\n"); }
        } else if c == '\r' {
            out.append("\\r");
            proof { reveal_strlit("\\r"); }
        } else if c == '\t' {
            out.append("\\t");
            proof { reveal_strlit("\\t"); }
        } else if (c as u32) < 32 {
            out.append("\\u00");
            out.append(hex_str((c as u32) / 16));
            out.append(hex_str((c as u32) % 16));
            proof { reveal_strlit("\\u00"); }
        } else {
            out.append(s.substring_char(i, i + 1));
        }
        proof {
            lemma_escaped_take_step(s@, i as int);
            assert(escape_char(s@[i as int]) == escape_char(c));
            assert(out@ =~= old(out)@ + escaped(s@.take(i as int + 1)));
        }
        i = i + 1;
    }
    proof {
        assert(s@.take(n as int) =~= s@);
    }
}

/// The installation request body, carrying the public key in PEM form.
pub open spec fn installation_body_spec(pem_public: Seq<char>) -> Seq<char> {
    "{\"client_public_key\":\""@ + escaped(pem_public) + "\"}"@
}

pub fn installation_body(pem_public: &str) -> (r: String)
    ensures
        r@ == installation_body_spec(pem_public@),
{
    let mut out = String::new();
    out.append("{\"client_public_key\":\"");
    escape_onto(&mut out, pem_public);
    out.append("\"}");
    proof {
        assert(out@ =~= installation_body_spec(pem_public@));
    }
    out
}

/// The device-registration request body: a fixed description, the API
/// secret, and the permitted IP list.
pub open spec fn device_body_spec(api_key: Seq<char>) -> Seq<char> {
    "{\"description\":\"awesome\",\"secret\":\""@ + escaped(api_key)
        + "\",\"permitted_ips\":[\"31.21.118.143\",\"*\"]}"@
}

pub fn device_body(api_key: &str) -> (r: String)
    ensures
        r@ == device_body_spec(api_key@),
{
    let mut out = String::new();
    out.append("{\"description\":\"awesome\",\"secret\":\"");
    escape_onto(&mut out, api_key);
    out.append("\",\"permitted_ips\":[\"31.21.118.143\",\"*\"]}");
    proof {
        assert(out@ =~= device_body_spec(api_key@));
    }
    out
}

/// The session-creation request body: the API secret alone.
pub open spec fn session_body_spec(api_key: Seq<char>) -> Seq<char> {
    "{\"secret\":\""@ + escaped(api_key) + "\"}"@
}

pub fn session_body(api_key: &str) -> (r: String)
    ensures
        r@ == session_body_spec(api_key@),
{
    let mut out = String::new();
    out.append("{\"secret\":\"");
    escape_onto(&mut out, api_key);
    out.append("\"}");
    proof {
        assert(out@ =~= session_body_spec(api_key@));
    }
    out
}

/// The digit character for `n` (meaningful for `0 <= n < 10`).
pub open spec fn digit_char(n: int) -> char {
    if n == 0 { '0' }
    else if n == 1 { '1' }
    else if n == 2 { '2' }
    else if n == 3 { '3' }
    else if n == 4 { '4' }
    else if n == 5 { '5' }
    else if n == 6 { '6' }
    else if n == 7 { '7' }
    else if n == 8 { '8' }
    else { '9' }
}

/// The decimal digits of a non-negative number.
pub open spec fn dec_str_nat(n: int) -> Seq<char>
    decreases n,
{
    if n < 10 {
        seq![digit_char(n)]
    } else {
        dec_str_nat(n / 10) + seq![digit_char(n % 10)]
    }
}

/// The decimal writing of an integer, with a leading minus where negative.
pub open spec fn dec_str(n: int) -> Seq<char> {
    if n < 0 {
        seq!['-'] + dec_str_nat(-n)
    } else {
        dec_str_nat(n)
    }
}

fn digit_str(n: u64) -> (r: &'static str)
    requires
        n < 10,
    ensures
        r@ == seq![digit_char(n as int)],
{
    proof {
        reveal_strlit("0"); reveal_strlit("1"); reveal_strlit("2"); reveal_strlit("3");
        reveal_strlit("4"); reveal_strlit("5"); reveal_strlit("6"); reveal_strlit("7");
        reveal_strlit("8"); reveal_strlit("9");
    }
    if n == 0 { "0" }
    else if n == 1 { "1" }
    else if n == 2 { "2" }
    else if n == 3 { "3" }
    else if n == 4 { "4" }
    else if n == 5 { "5" }
    else if n == 6 { "6" }
    else if n == 7 { "7" }
    else if n == 8 { "8" }
    else { "9" }
}

fn push_dec_u64(out: &mut String, n: u64)
    ensures
        final(out)@ == old(out)@ + dec_str_nat(n as int),
    decreases n,
{
    if n < 10 {
        out.append(digit_str(n));
    } else {
        push_dec_u64(out, n / 10);
        out.append(digit_str(n % 10));
        proof {
            assert(out@ =~= old(out)@ + dec_str_nat(n as int));
        }
    }
}

/// Write `n` in decimal.
pub fn i64_to_string(n: i64) -> (r: String)
    ensures
        r@ == dec_str(n as int),
{
    let mut out = String::new();
    if n < 0 {
        out.append("-");
        proof { reveal_strlit("-"); }
        let m: u64 = ((-(n as i128)) as u64);
        assert(m as int == -(n as int));
        push_dec_u64(&mut out, m);
        proof {
            assert(out@ =~= dec_str(n as int));
        }
    } else {
        push_dec_u64(&mut out, n as u64);
    }
    out
}

/// The fixed API host every request is sent to.
pub open spec fn base_url() -> Seq<char> {
    "https://api.bunq.com"@
}

pub fn installation_url() -> (r: String)
    ensures
        r@ == base_url() + "/v1/installation"@,
{
    let mut out = String::new();
    out.append("https://api.bunq.com");
    out.append("/v1/installation");
    out
}

pub fn device_server_url() -> (r: String)
    ensures
        r@ == base_url() + "/v1/device-server"@,
{
    let mut out = String::new();
    out.append("https://api.bunq.com");
    out.append("/v1/device-server");
    out
}

pub fn session_server_url() -> (r: String)
    ensures
        r@ == base_url() + "/v1/session-server"@,
{
    let mut out = String::new();
    out.append("https://api.bunq.com");
    out.append("/v1/session-server");
    out
}

/// The account-list URL for a user.
pub open spec fn accounts_url_spec(user_id: int) -> Seq<char> {
    base_url() + "/v1/user/"@ + dec_str(user_id) + "/monetary-account"@
}

pub fn accounts_url(user_id: i64) -> (r: String)
    ensures
        r@ == accounts_url_spec(user_id as int),
{
    let mut out = String::new();
    out.append("https://api.bunq.com");
    out.append("/v1/user/");
    let id = i64_to_string(user_id);
    out.append(id.as_str());
    out.append("/monetary-account");
    proof {
        assert(out@ =~= accounts_url_spec(user_id as int));
    }
    out
}

/// The first-page payment-list URL for an account of a user.
pub open spec fn payments_url_spec(user_id: int, account_id: int) -> Seq<char> {
    base_url() + "/v1/user/"@ + dec_str(user_id) + "/monetary-account/"@ + dec_str(account_id)
        + "/payment"@
}

pub fn payments_url(user_id: i64, account_id: i64) -> (r: String)
    ensures
        r@ == payments_url_spec(user_id as int, account_id as int),
{
    let mut out = String::new();
    out.append("https://api.bunq.com");
    out.append("/v1/user/");
    let uid = i64_to_string(user_id);
    out.append(uid.as_str());
    out.append("/monetary-account/");
    let aid = i64_to_string(account_id);
    out.append(aid.as_str());
    out.append("/payment");
    proof {
        assert(out@ =~= payments_url_spec(user_id as int, account_id as int));
    }
    out
}

/// The absolute URL for a server-supplied relative pagination cursor.
pub fn page_url(relative: &str) -> (r: String)
    ensures
        r@ == base_url() + relative@,
{
    let mut out = String::new();
    out.append("https://api.bunq.com");
    out.append(relative);
    out
}

} // verus!
