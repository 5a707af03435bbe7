//! JSON text of a proxy node, the form in which a node is handed to a script.
use vstd::prelude::*;
use vstd::string::{StrSliceExecFns, StringExecFns};

use crate::proxy::Proxy;

verus! {

/// The lower-case hexadecimal digits, by value.
pub open spec fn hex_digits() -> Seq<char> {
    seq!['0', '1', '2', '3', '4', '5', '6', '7', '8', '9', 'a', 'b', 'c', 'd', 'e', 'f']
}

/// How one character is written inside a JSON string: quote and backslash
/// are escaped by a backslash, control characters as `\u00XX`, the rest as
/// they are.
pub open spec fn escaped(c: char) -> Seq<char> {
    if c == '"' {
        seq!['\\', '"']
    } else if c == '\\' {
        seq!['\\', '\\']
    } else if (c as u32) < 32 {
        seq![
            '\\',
            'u',
            '0',
            '0',
            hex_digits()[(c as u32 / 16) as int],
            hex_digits()[(c as u32 % 16) as int],
        ]
    } else {
        seq![c]
    }
}

/// Each character of `s` escaped, in order.
pub open spec fn escaped_text(s: Seq<char>) -> Seq<char>
    decreases s.len(),
{
    if s.len() == 0 {
        Seq::empty()
    } else {
        escaped_text(s.drop_last()) + escaped(s.last())
    }
}

/// `s` as a JSON string literal.
pub open spec fn json_string(s: Seq<char>) -> Seq<char> {
    seq!['"'] + escaped_text(s) + seq!['"']
}

/// The decimal digits of `n`, without leading zeros.
pub open spec fn decimal(n: nat) -> Seq<char>
    decreases n,
{
    if n < 10 {
        seq![hex_digits()[n as int]]
    } else {
        decimal(n / 10).push(hex_digits()[(n % 10) as int])
    }
}

/// An optional flag in JSON: `true`, `false`, or `null` where unknown.
pub open spec fn json_flag(f: Option<bool>) -> Seq<char> {
    match f {
        Some(true) => "true"@,
        Some(false) => "false"@,
        None => "null"@,
    }
}

/// The JSON object that stands for a node in a script.
pub open spec fn node_text(p: Proxy) -> Seq<char> {
    "{\"proxy_type\":"@ + json_string(p.proxy_type@) + ",\"remark\":"@ + json_string(p.remark@)
        + ",\"group\":"@ + json_string(p.group@) + ",\"hostname\":"@ + json_string(p.hostname@)
        + ",\"port\":"@ + decimal(p.port as nat) + ",\"udp\":"@ + json_flag(p.udp) + ",\"tfo\":"@
        + json_flag(p.tfo) + ",\"skip_cert_verify\":"@ + json_flag(p.skip_cert_verify) + "}"@
}

fn push_digit(out: &mut String, d: u32)
    requires
        d < 16,
    ensures
        final(out)@ == old(out)@.push(hex_digits()[d as int]),
{
    let digits = "0123456789abcdef";
    proof {
        reveal_strlit("0123456789abcdef");
        assert(digits@ =~= hex_digits());
    }
    let one = digits.substring_char(d as usize, d as usize + 1);
    assert(one@ =~= seq![hex_digits()[d as int]]);
    out.append(one);
}

fn push_decimal(out: &mut String, n: u16)
    ensures
        final(out)@ == old(out)@ + decimal(n as nat),
    decreases n,
{
    if n >= 10 {
        push_decimal(out, n / 10);
    }
    push_digit(out, (n % 10) as u32);
    proof {
        if n >= 10 {
            assert(decimal(n as nat) == decimal((n / 10) as nat).push(hex_digits()[(n % 10) as int]));
        }
    }
    assert(final(out)@ =~= old(out)@ + decimal(n as nat));
}

fn push_escaped(out: &mut String, c: char, s: &str, i: usize)
    requires
        i < s@.len() <= usize::MAX,
        s@[i as int] == c,
    ensures
        final(out)@ == old(out)@ + escaped(c),
{
    if c == '"' {
        proof {
            reveal_strlit("\\\"");
        }
        out.append("\\\"");
    } else if c == '\\' {
        proof {
            reveal_strlit("\\\\");
        }
        out.append("\\\\");
    } else if (c as u32) < 32 {
        proof {
            reveal_strlit("\\u00");
        }
        out.append("\\u00");
        push_digit(out, c as u32 / 16);
        push_digit(out, c as u32 % 16);
    } else {
        let one = s.substring_char(i, i + 1);
        assert(one@ =~= seq![c]);
        out.append(one);
    }
    assert(final(out)@ =~= old(out)@ + escaped(c));
}

fn push_json_string(out: &mut String, s: &str)
    ensures
        final(out)@ == old(out)@ + json_string(s@),
{
    let ghost start = out@;
    proof {
        reveal_strlit("\"");
    }
    out.append("\"");
    let n = s.unicode_len();
    let mut i: usize = 0;
    while i < n
        invariant
            n == s@.len(),
            i <= n,
            out@ == start + seq!['"'] + escaped_text(s@.take(i as int)),
        decreases n - i,
    {
        let c = s.get_char(i);
        push_escaped(out, c, s, i);
        proof {
            assert(s@.take(i + 1).drop_last() =~= s@.take(i as int));
            assert(s@.take(i + 1).last() == c);
        }
        i = i + 1;
    }
    assert(s@.take(n as int) =~= s@);
    out.append("\"");
    assert(out@ =~= start + json_string(s@));
}

fn push_flag(out: &mut String, f: Option<bool>)
    ensures
        final(out)@ == old(out)@ + json_flag(f),
{
    match f {
        Some(true) => out.append("true"),
        Some(false) => out.append("false"),
        None => out.append("null"),
    }
}

/// The JSON object for `p`: its fields under their own names, strings
/// escaped, the port in decimal, unknown flags as `null`.
pub fn node_json(p: &Proxy) -> (r: String)
    ensures
        r@ == node_text(*p),
{
    let mut out = String::new();
    out.append("{\"proxy_type\":");
    push_json_string(&mut out, p.proxy_type.as_str());
    out.append(",\"remark\":");
    push_json_string(&mut out, p.remark.as_str());
    out.append(",\"group\":");
    push_json_string(&mut out, p.group.as_str());
    out.append(",\"hostname\":");
    push_json_string(&mut out, p.hostname.as_str());
    out.append(",\"port\":");
    push_decimal(&mut out, p.port);
    out.append(",\"udp\":");
    push_flag(&mut out, p.udp);
    out.append(",\"tfo\":");
    push_flag(&mut out, p.tfo);
    out.append(",\"skip_cert_verify\":");
    push_flag(&mut out, p.skip_cert_verify);
    out.append("}");
    out
}

} // verus!
