//! Framing and reading the messaging endpoint's traffic.
//!
//! The endpoint takes an HTTPS POST whose JSON body names the destination
//! chat, the message text and a notification flag, and answers with a JSON
//! body whose `ok` boolean says whether the message went through.  This
//! module builds the two canonical message texts, frames the request body —
//! escaping the text as JSON demands, character by character — and reads the
//! response; the HTTP call itself lives with the caller.

use vstd::prelude::*;

use crate::json::{get_bool, get_field, json_bool, json_field};
use crate::reconcile::NotifyKind;

verus! {

/// The lower-case hexadecimal digit for `n`, `0` through `f`.
pub open spec fn hex_digit(n: int) -> char {
    if n == 0 {
        '0'
    } else if n == 1 {
        '1'
    } else if n == 2 {
        '2'
    } else if n == 3 {
        '3'
    } else if n == 4 {
        '4'
    } else if n == 5 {
        '5'
    } else if n == 6 {
        '6'
    } else if n == 7 {
        '7'
    } else if n == 8 {
        '8'
    } else if n == 9 {
        '9'
    } else if n == 10 {
        'a'
    } else if n == 11 {
        'b'
    } else if n == 12 {
        'c'
    } else if n == 13 {
        'd'
    } else if n == 14 {
        'e'
    } else {
        'f'
    }
}

/// How one character stands inside a JSON string: quote, backslash and the
/// named control characters get a two-character escape, the remaining
/// control characters a `\u00..` escape, and everything else stands as
/// itself.
pub open spec fn escaped_char(c: char) -> Seq<char> {
    if c == '"' {
        seq!['\\', '"']
    } else if c == '\\' {
        seq!['\\', '\\']
    } else if c == '\n' {
        seq!['\\', 'n']
    } else if c == '\r' {
        seq!['\\', 'r']
    } else if c == '\t' {
        seq!['\\', 't']
    } else if (c as u32) < 32 {
        seq!['\\', 'u', '0', '0', hex_digit(c as u32 as int / 16), hex_digit(c as u32 as int % 16)]
    } else {
        seq![c]
    }
}

/// A character sequence as it stands inside a JSON string literal.
pub open spec fn json_escaped(s: Seq<char>) -> Seq<char>
    decreases s.len(),
{
    if s.len() == 0 {
        Seq::empty()
    } else {
        escaped_char(s[0]) + json_escaped(s.drop_first())
    }
}

proof fn lemma_json_escaped_push(s: Seq<char>, c: char)
    ensures
        json_escaped(s.push(c)) == json_escaped(s) + escaped_char(c),
    decreases s.len(),
{
    if s.len() == 0 {
        assert(s.push(c)[0] == c);
        assert(s.push(c).drop_first() =~= Seq::<char>::empty());
        assert(json_escaped(s.push(c)) == escaped_char(c) + json_escaped(
            s.push(c).drop_first(),
        ));
        assert(json_escaped(s.push(c).drop_first()) == Seq::<char>::empty());
        assert(json_escaped(s) == Seq::<char>::empty());
        assert(json_escaped(s.push(c)) =~= json_escaped(s) + escaped_char(c));
    } else {
        lemma_json_escaped_push(s.drop_first(), c);
        assert(s.push(c)[0] == s[0]);
        assert(s.push(c).drop_first() =~= s.drop_first().push(c));
        assert(json_escaped(s.push(c)) == escaped_char(s[0]) + json_escaped(
            s.drop_first().push(c),
        ));
        assert(json_escaped(s) == escaped_char(s[0]) + json_escaped(s.drop_first()));
        assert(json_escaped(s.push(c)) =~= json_escaped(s) + escaped_char(c));
    }
}

/// Append the lower-case hexadecimal digit for `n` to `out`.
fn append_hex_digit(out: &mut String, n: u32)
    requires
        n < 16,
    ensures
        final(out)@ == old(out)@ + seq![hex_digit(n as int)],
{
    if n == 0 {
        out.append("0");
        proof {
            reveal_strlit("0");
            assert("0"@ =~= seq![hex_digit(0)]);
        }
    } else if n == 1 {
        out.append("1");
        proof {
            reveal_strlit("1");
            assert("1"@ =~= seq![hex_digit(1)]);
        }
    } else if n == 2 {
        out.append("2");
        proof {
            reveal_strlit("2");
            assert("2"@ =~= seq![hex_digit(2)]);
        }
    } else if n == 3 {
        out.append("3");
        proof {
            reveal_strlit("3");
            assert("3"@ =~= seq![hex_digit(3)]);
        }
    } else if n == 4 {
        out.append("4");
        proof {
            reveal_strlit("4");
            assert("4"@ =~= seq![hex_digit(4)]);
        }
    } else if n == 5 {
        out.append("5");
        proof {
            reveal_strlit("5");
            assert("5"@ =~= seq![hex_digit(5)]);
        }
    } else if n == 6 {
        out.append("6");
        proof {
            reveal_strlit("6");
            assert("6"@ =~= seq![hex_digit(6)]);
        }
    } else if n == 7 {
        out.append("7");
        proof {
            reveal_strlit("7");
            assert("7"@ =~= seq![hex_digit(7)]);
        }
    } else if n == 8 {
        out.append("8");
        proof {
            reveal_strlit("8");
            assert("8"@ =~= seq![hex_digit(8)]);
        }
    } else if n == 9 {
        out.append("9");
        proof {
            reveal_strlit("9");
            assert("9"@ =~= seq![hex_digit(9)]);
        }
    } else if n == 10 {
        out.append("a");
        proof {
            reveal_strlit("a");
            assert("a"@ =~= seq![hex_digit(10)]);
        }
    } else if n == 11 {
        out.append("b");
        proof {
            reveal_strlit("b");
            assert("b"@ =~= seq![hex_digit(11)]);
        }
    } else if n == 12 {
        out.append("c");
        proof {
            reveal_strlit("c");
            assert("c"@ =~= seq![hex_digit(12)]);
        }
    } else if n == 13 {
        out.append("d");
        proof {
            reveal_strlit("d");
            assert("d"@ =~= seq![hex_digit(13)]);
        }
    } else if n == 14 {
        out.append("e");
        proof {
            reveal_strlit("e");
            assert("e"@ =~= seq![hex_digit(14)]);
        }
    } else {
        out.append("f");
        proof {
            reveal_strlit("f");
            assert("f"@ =~= seq![hex_digit(15)]);
        }
    }
}

/// Append `s` to `out` as it stands inside a JSON string literal.
fn append_escaped(out: &mut String, s: &str)
    ensures
        final(out)@ == old(out)@ + json_escaped(s@),
{
    let len = s.unicode_len();
    let mut i: usize = 0;
    while i < len
        invariant
            len == s@.len(),
            i <= len,
            out@ == old(out)@ + json_escaped(s@.subrange(0, i as int)),
        decreases len - i,
    {
        let c = s.get_char(i);
        let ghost out_before: Seq<char> = out@;
        if c == '"' {
            out.append("\\\"");
            proof {
                reveal_strlit("\\\"");
                assert("\\\""@ =~= escaped_char(c));
            }
        } else if c == '\\' {
            out.append("\\\\");
            proof {
                reveal_strlit("\\\\");
                assert("\\\\"@ =~= escaped_char(c));
            }
        } else if c == '\n' {
            out.append("\\n");
            proof {
                reveal_strlit("\\n");
                assert("\\n"@ =~= escaped_char(c));
            }
        } else if c == '\r' {
            out.append("\\r");
            proof {
                reveal_strlit("\\r");
                assert("\\r"@ =~= escaped_char(c));
            }
        } else if c == '\t' {
            out.append("\\t");
            proof {
                reveal_strlit("\\t");
                assert("\\t"@ =~= escaped_char(c));
            }
        } else if (c as u32) < 32 {
            out.append("\\u00");
            let n = c as u32;
            append_hex_digit(out, n / 16);
            append_hex_digit(out, n % 16);
            proof {
                reveal_strlit("\\u00");
                assert(out@ =~= out_before + escaped_char(c));
            }
        } else {
            let piece = s.substring_char(i, i + 1);
            out.append(piece);
            proof {
                assert(piece@ =~= seq![c]);
                assert(piece@ =~= escaped_char(c));
            }
        }
        proof {
            lemma_json_escaped_push(s@.subrange(0, i as int), c);
            assert(s@.subrange(0, i as int).push(c) =~= s@.subrange(0, (i + 1) as int));
            assert(out@ =~= old(out)@ + json_escaped(s@.subrange(0, (i + 1) as int)));
        }
        i = i + 1;
    }
    proof {
        assert(s@.subrange(0, len as int) =~= s@);
    }
}

/// The request body that asks the endpoint to deliver `text` to `chat_id`:
/// a JSON object with the chat, the escaped text and the notification flag.
pub open spec fn spec_payload(chat_id: Seq<char>, text: Seq<char>) -> Seq<char> {
    "{\"chat_id\":\""@ + json_escaped(chat_id) + "\",\"text\":\""@ + json_escaped(text)
        + "\",\"disable_notification\":false}"@
}

/// Build the JSON request body for one message.
pub fn build_payload(chat_id: &str, text: &str) -> (r: String)
    ensures
        r@ == spec_payload(chat_id@, text@),
{
    let mut out = String::from_str("{\"chat_id\":\"");
    append_escaped(&mut out, chat_id);
    out.append("\",\"text\":\"");
    append_escaped(&mut out, text);
    out.append("\",\"disable_notification\":false}");
    proof {
        assert(out@ =~= spec_payload(chat_id@, text@));
    }
    out
}

/// The text announcing a divergence, naming both observed addresses.
pub open spec fn spec_mismatch_message(router_ip: Seq<char>, dns_ip: Seq<char>) -> Seq<char> {
    "IP address mismatch between router and DNS server!\nRouter IP: "@ + router_ip
        + "\nDNS IP: "@ + dns_ip
}

/// The text announcing that the addresses agree again.
pub open spec fn spec_recovered_message() -> Seq<char> {
    "IP addresses are the same again"@
}

/// Build the divergence announcement for one observed address pair.
pub fn mismatch_message(router_ip: &str, dns_ip: &str) -> (r: String)
    ensures
        r@ == spec_mismatch_message(router_ip@, dns_ip@),
{
    let mut out = String::from_str("IP address mismatch between router and DNS server!\nRouter IP: ");
    out.append(router_ip);
    out.append("\nDNS IP: ");
    out.append(dns_ip);
    proof {
        assert(out@ =~= spec_mismatch_message(router_ip@, dns_ip@));
    }
    out
}

/// Build the recovery announcement.
pub fn recovered_message() -> (r: String)
    ensures
        r@ == spec_recovered_message(),
{
    String::from_str("IP addresses are the same again")
}

/// The message text for a cycle's notification: the divergence announcement
/// with the observed addresses for a mismatch, the recovery announcement for
/// a recovery.
pub open spec fn spec_notification_text(
    kind: NotifyKind,
    router_ip: Seq<char>,
    dns_ip: Seq<char>,
) -> Seq<char> {
    match kind {
        NotifyKind::Mismatch => spec_mismatch_message(router_ip, dns_ip),
        NotifyKind::Recovered => spec_recovered_message(),
    }
}

/// Build the message text the cycle's decided notification carries.
pub fn notification_text(kind: NotifyKind, router_ip: &str, dns_ip: &str) -> (r: String)
    ensures
        r@ == spec_notification_text(kind, router_ip@, dns_ip@),
{
    match kind {
        NotifyKind::Mismatch => mismatch_message(router_ip, dns_ip),
        NotifyKind::Recovered => recovered_message(),
    }
}

/// Whether a response body reports delivery: its `ok` member holds JSON
/// `true`.  Anything else — no body that parses, no `ok` member, a value of
/// another type, or `false` — reports failure.
pub open spec fn spec_response_ok(text: Seq<char>) -> bool {
    match json_field(text, "ok"@) {
        Some(v) => json_bool(v) == Some(true),
        None => false,
    }
}

/// Read the endpoint's response body: `true` iff it reports delivery.
pub fn parse_json(response_text: String) -> (r: bool)
    ensures
        r == spec_response_ok(response_text@),
{
    match get_field(response_text.as_str(), "ok") {
        Some(v) => match get_bool(v.as_str()) {
            Some(b) => b,
            None => false,
        },
        None => false,
    }
}

} // verus!
