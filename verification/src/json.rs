//! JSON encoding of request bodies. The library frames its own bytes:
//! each body is a flat object of string members, escaped exactly as the
//! exchange's decoder expects (the standard JSON escapes, with `\u00XX`
//! for the remaining control characters).

use vstd::prelude::*;

verus! {

use vstd::string::StrSliceExecFns;
use vstd::string::StringExecFns;
use crate::models;
use crate::textfmt::digit_char;

/// The hexadecimal character for a value below 16, lowercase.
pub open spec fn hex_char(d: nat) -> char {
    if d < 10 {
        digit_char(d)
    } else if d == 10 {
        'a'
    } else if d == 11 {
        'b'
    } else if d == 12 {
        'c'
    } else if d == 13 {
        'd'
    } else if d == 14 {
        'e'
    } else {
        'f'
    }
}

/// How one character is written inside a JSON string literal.
pub open spec fn escaped_char(c: char) -> Seq<char> {
    if c == '"' {
        seq!['\\', '"']
    } else if c == '\\' {
        seq!['\\', '\\']
    } else if c == '\u{8}' {
        seq!['\\', 'b']
    } else if c == '\t' {
        seq!['\\', 't']
    } else if c == '\n' {
        seq!['\\', 'n']
    } else if c == '\u{c}' {
        seq!['\\', 'f']
    } else if c == '\r' {
        seq!['\\', 'r']
    } else if (c as u32) < 0x20 {
        seq!['\\', 'u', '0', '0', hex_char(((c as u32) / 16) as nat), hex_char(
            ((c as u32) % 16) as nat,
        )]
    } else {
        seq![c]
    }
}

/// The body of a JSON string literal: each character escaped.
pub open spec fn json_escaped(s: Seq<char>) -> Seq<char>
    decreases s.len(),
{
    if s.len() == 0 {
        Seq::empty()
    } else {
        escaped_char(s[0]) + json_escaped(s.drop_first())
    }
}

/// A JSON string literal: the escaped body between double quotes.
pub open spec fn json_string(s: Seq<char>) -> Seq<char> {
    seq!['"'] + json_escaped(s) + seq!['"']
}

/// One `"name":"value"` member.
pub open spec fn json_member(name: Seq<char>, value: Seq<char>) -> Seq<char> {
    json_string(name) + seq![':'] + json_string(value)
}

proof fn lemma_json_escaped_push(s: Seq<char>, c: char)
    ensures
        json_escaped(s.push(c)) == json_escaped(s) + escaped_char(c),
    decreases s.len(),
{
    if s.len() == 0 {
        assert(s.push(c)[0] == c);
        assert(s.push(c).drop_first() =~= Seq::<char>::empty());
        assert(json_escaped(s.push(c)) == escaped_char(c) + json_escaped(Seq::<char>::empty()));
        assert(escaped_char(c) + Seq::<char>::empty() =~= escaped_char(c));
        assert(json_escaped(s) + escaped_char(c) =~= escaped_char(c));
    } else {
        assert(s.push(c)[0] == s[0]);
        assert(s.push(c).drop_first() =~= s.drop_first().push(c));
        lemma_json_escaped_push(s.drop_first(), c);
        assert(escaped_char(s[0]) + (json_escaped(s.drop_first()) + escaped_char(c)) =~= (
        escaped_char(s[0]) + json_escaped(s.drop_first())) + escaped_char(c));
        assert(json_escaped(s.push(c)) =~= json_escaped(s) + escaped_char(c));
    }
}

fn hex_str(d: u32) -> (r: &'static str)
    requires
        d < 16,
    ensures
        r@ == seq![hex_char(d as nat)],
{
    let r: &'static str = if d == 0 {
        "0"
    } else if d == 1 {
        "1"
    } else if d == 2 {
        "2"
    } else if d == 3 {
        "3"
    } else if d == 4 {
        "4"
    } else if d == 5 {
        "5"
    } else if d == 6 {
        "6"
    } else if d == 7 {
        "7"
    } else if d == 8 {
        "8"
    } else if d == 9 {
        "9"
    } else if d == 10 {
        "a"
    } else if d == 11 {
        "b"
    } else if d == 12 {
        "c"
    } else if d == 13 {
        "d"
    } else if d == 14 {
        "e"
    } else {
        "f"
    };
    proof {
        reveal_strlit("0");
        reveal_strlit("1");
        reveal_strlit("2");
        reveal_strlit("3");
        reveal_strlit("4");
        reveal_strlit("5");
        reveal_strlit("6");
        reveal_strlit("7");
        reveal_strlit("8");
        reveal_strlit("9");
        reveal_strlit("a");
        reveal_strlit("b");
        reveal_strlit("c");
        reveal_strlit("d");
        reveal_strlit("e");
        reveal_strlit("f");
        assert(r@ =~= seq![hex_char(d as nat)]);
    }
    r
}

/// Appends the escaped form of one character.
fn append_escaped_char(out: &mut String, s: &str, i: usize)
    requires
        i < s@.len(),
        s@.len() <= usize::MAX,
    ensures
        final(out)@ == old(out)@ + escaped_char(s@[i as int]),
{
    let c = s.get_char(i);
    if c == '"' {
        out.append("\\\"");
        proof {
            reveal_strlit("\\\"");
            assert(final(out)@ =~= old(out)@ + escaped_char(s@[i as int]));
        }
    } else if c == '\\' {
        out.append("\\\\");
        proof {
            reveal_strlit("\\\\");
            assert(final(out)@ =~= old(out)@ + escaped_char(s@[i as int]));
        }
    } else if c == '\u{8}' {
        out.append("\\b");
        proof {
            reveal_strlit("\\b");
            assert(final(out)@ =~= old(out)@ + escaped_char(s@[i as int]));
        }
    } else if c == '\t' {
        out.append("\\t");
        proof {
            reveal_strlit("\\t");
            assert(final(out)@ =~= old(out)@ + escaped_char(s@[i as int]));
        }
    } else if c == '\n' {
        out.append("\\n");
        proof {
            reveal_strlit("\\n");
            assert(final(out)@ =~= old(out)@ + escaped_char(s@[i as int]));
        }
    } else if c == '\u{c}' {
        out.append("\\f");
        proof {
            reveal_strlit("\\f");
            assert(final(out)@ =~= old(out)@ + escaped_char(s@[i as int]));
        }
    } else if c == '\r' {
        out.append("\\r");
        proof {
            reveal_strlit("\\r");
            assert(final(out)@ =~= old(out)@ + escaped_char(s@[i as int]));
        }
    } else if (c as u32) < 0x20 {
        out.append("\\u00");
        out.append(hex_str((c as u32) / 16));
        out.append(hex_str((c as u32) % 16));
        proof {
            reveal_strlit("\\u00");
            assert(final(out)@ =~= old(out)@ + escaped_char(s@[i as int]));
        }
    } else {
        out.append(s.substring_char(i, i + 1));
        proof {
            assert(s@.subrange(i as int, i as int + 1) =~= seq![s@[i as int]]);
            assert(final(out)@ =~= old(out)@ + escaped_char(s@[i as int]));
        }
    }
}

/// Appends `s` as a JSON string literal, escaped.
pub fn append_json_string(out: &mut String, s: &str)
    ensures
        final(out)@ == old(out)@ + json_string(s@),
{
    out.append("\"");
    let len = s.unicode_len();
    let mut i: usize = 0;
    proof {
        reveal_strlit("\"");
        assert(s@.take(0) =~= Seq::<char>::empty());
        assert(out@ =~= old(out)@ + seq!['"'] + json_escaped(s@.take(0)));
    }
    while i < len
        invariant
            len == s@.len(),
            i <= len,
            out@ == old(out)@ + seq!['"'] + json_escaped(s@.take(i as int)),
        decreases len - i,
    {
        append_escaped_char(out, s, i);
        proof {
            assert(s@.take(i + 1) =~= s@.take(i as int).push(s@[i as int]));
            lemma_json_escaped_push(s@.take(i as int), s@[i as int]);
            assert(out@ =~= old(out)@ + seq!['"'] + json_escaped(s@.take(i + 1)));
        }
        i += 1;
    }
    out.append("\"");
    proof {
        reveal_strlit("\"");
        assert(s@.take(len as int) =~= s@);
        assert(final(out)@ =~= old(out)@ + json_string(s@));
    }
}

/// Appends one `"name":"value"` member.
fn append_member(out: &mut String, name: &str, value: &str)
    ensures
        final(out)@ == old(out)@ + json_member(name@, value@),
{
    append_json_string(out, name);
    out.append(":");
    append_json_string(out, value);
    proof {
        reveal_strlit(":");
        assert(final(out)@ =~= old(out)@ + json_member(name@, value@));
    }
}

/// The serialized form of an order-creation body: the `amount`, `pair`
/// and `rate` members, in that order.
pub open spec fn order_request_json(amount: Seq<char>, pair: Seq<char>, rate: Seq<char>) -> Seq<
    char,
> {
    seq!['{'] + json_member("amount"@, amount) + seq![','] + json_member("pair"@, pair) + seq![',']
        + json_member("rate"@, rate) + seq!['}']
}

/// Serializes an order-creation body.
pub fn encode_order_request(order: &models::OrderRequest) -> (r: String)
    ensures
        r@ == order_request_json(order.amount@, order.pair@, order.rate@),
{
    let mut out = "{".to_owned();
    append_member(&mut out, "amount", order.amount.as_str());
    out.append(",");
    append_member(&mut out, "pair", order.pair.as_str());
    out.append(",");
    append_member(&mut out, "rate", order.rate.as_str());
    out.append("}");
    proof {
        reveal_strlit("{");
        reveal_strlit(",");
        reveal_strlit("}");
        assert(out@ =~= order_request_json(order.amount@, order.pair@, order.rate@));
    }
    out
}

/// The serialized form of an order update: the `amount` and `rate`
/// members.
pub open spec fn update_order_json(amount: Seq<char>, rate: Seq<char>) -> Seq<char> {
    seq!['{'] + json_member("amount"@, amount) + seq![','] + json_member("rate"@, rate) + seq!['}']
}

/// Serializes an order-update body.
pub fn encode_update_order(order: &models::UpdateOrder) -> (r: String)
    ensures
        r@ == update_order_json(order.amount@, order.rate@),
{
    let mut out = "{".to_owned();
    append_member(&mut out, "amount", order.amount.as_str());
    out.append(",");
    append_member(&mut out, "rate", order.rate.as_str());
    out.append("}");
    proof {
        reveal_strlit("{");
        reveal_strlit(",");
        reveal_strlit("}");
        assert(out@ =~= update_order_json(order.amount@, order.rate@));
    }
    out
}

/// Serializes a trade-creation body: the same two members as an update.
pub fn encode_create_trade(trade: &models::CreateTradeRequest) -> (r: String)
    ensures
        r@ == update_order_json(trade.amount@, trade.rate@),
{
    let mut out = "{".to_owned();
    append_member(&mut out, "amount", trade.amount.as_str());
    out.append(",");
    append_member(&mut out, "rate", trade.rate.as_str());
    out.append("}");
    proof {
        reveal_strlit("{");
        reveal_strlit(",");
        reveal_strlit("}");
        assert(out@ =~= update_order_json(trade.amount@, trade.rate@));
    }
    out
}

/// The serialized form of an invoice-creation body: its nine string
/// members, in field order.
pub open spec fn create_invoice_json(invoice: models::CreateInvoice) -> Seq<char> {
    seq!['{'] + json_member("amount"@, invoice.amount@) + seq![','] + json_member(
        "callback_url"@,
        invoice.callback_url@,
    ) + seq![','] + json_member("coin"@, invoice.coin@) + seq![','] + json_member(
        "country_code"@,
        invoice.country_code@,
    ) + seq![','] + json_member("data"@, invoice.data@) + seq![','] + json_member(
        "fiat"@,
        invoice.fiat@,
    ) + seq![','] + json_member("lang_id"@, invoice.lang_id@) + seq![','] + json_member(
        "payment_system_id"@,
        invoice.payment_system_id@,
    ) + seq![','] + json_member("redirect_url"@, invoice.redirect_url@) + seq!['}']
}

/// Serializes an invoice-creation body.
pub fn encode_create_invoice(invoice: &models::CreateInvoice) -> (r: String)
    ensures
        r@ == create_invoice_json(*invoice),
{
    let mut out = "{".to_owned();
    append_member(&mut out, "amount", invoice.amount.as_str());
    out.append(",");
    append_member(&mut out, "callback_url", invoice.callback_url.as_str());
    out.append(",");
    append_member(&mut out, "coin", invoice.coin.as_str());
    out.append(",");
    append_member(&mut out, "country_code", invoice.country_code.as_str());
    out.append(",");
    append_member(&mut out, "data", invoice.data.as_str());
    out.append(",");
    append_member(&mut out, "fiat", invoice.fiat.as_str());
    out.append(",");
    append_member(&mut out, "lang_id", invoice.lang_id.as_str());
    out.append(",");
    append_member(&mut out, "payment_system_id", invoice.payment_system_id.as_str());
    out.append(",");
    append_member(&mut out, "redirect_url", invoice.redirect_url.as_str());
    out.append("}");
    proof {
        reveal_strlit("{");
        reveal_strlit(",");
        reveal_strlit("}");
        assert(out@ =~= create_invoice_json(*invoice));
    }
    out
}

/// The serialized form of an estimation body: the `amount` and `coin`
/// members.
pub open spec fn estimate_json(amount: Seq<char>, coin: Seq<char>) -> Seq<char> {
    seq!['{'] + json_member("amount"@, amount) + seq![','] + json_member("coin"@, coin) + seq!['}']
}

/// Serializes an estimation body.
pub fn encode_estimate(estimate: &models::Estimate) -> (r: String)
    ensures
        r@ == estimate_json(estimate.amount@, estimate.coin@),
{
    let mut out = "{".to_owned();
    append_member(&mut out, "amount", estimate.amount.as_str());
    out.append(",");
    append_member(&mut out, "coin", estimate.coin.as_str());
    out.append("}");
    proof {
        reveal_strlit("{");
        reveal_strlit(",");
        reveal_strlit("}");
        assert(out@ =~= estimate_json(estimate.amount@, estimate.coin@));
    }
    out
}

} // verus!
