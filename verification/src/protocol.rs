use vstd::prelude::*;

use crate::events::OutwardEvent;

verus! {

/// The lower-case hexadecimal digit for a value below sixteen.
pub open spec fn hex_digit(d: int) -> char {
    if d == 0 {
        '0'
    } else if d == 1 {
        '1'
    } else if d == 2 {
        '2'
    } else if d == 3 {
        '3'
    } else if d == 4 {
        '4'
    } else if d == 5 {
        '5'
    } else if d == 6 {
        '6'
    } else if d == 7 {
        '7'
    } else if d == 8 {
        '8'
    } else if d == 9 {
        '9'
    } else if d == 10 {
        'a'
    } else if d == 11 {
        'b'
    } else if d == 12 {
        'c'
    } else if d == 13 {
        'd'
    } else if d == 14 {
        'e'
    } else {
        'f'
    }
}

/// How one character appears inside a JSON string literal: quote, backslash
/// and the common control characters get a two-character escape, the other
/// control characters a `\u00XX` escape, and everything else stands as it is.
pub open spec fn escape_char(c: char) -> Seq<char> {
    if c == '"' {
        seq!['\\', '"']
    } else if c == '\\' {
        seq!['\\', '\\']
    } else if c == '\n' {
        seq!['\\', 'n']
    } else if c == '\r' {
        seq!['\\', 'r']
    } else if c == '\t' {
        seq!['\\', 't']
    } else if (c as int) < 32 {
        seq!['\\', 'u', '0', '0', hex_digit(c as int / 16), hex_digit(c as int % 16)]
    } else {
        seq![c]
    }
}

/// The body of a JSON string literal holding exactly the characters of `s`.
pub open spec fn json_escaped(s: Seq<char>) -> Seq<char>
    decreases s.len(),
{
    if s.len() == 0 {
        Seq::empty()
    } else {
        json_escaped(s.drop_last()) + escape_char(s.last())
    }
}

/// The lower-case hexadecimal digit for `d`, as a one-character string.
fn hex_str(d: u32) -> (r: &'static str)
    requires
        d < 16,
    ensures
        r@ == seq![hex_digit(d as int)],
{
    proof {
        reveal_strlit("0");
        reveal_strlit("1");
        reveal_strlit("2");
        reveal_strlit("3");
        reveal_strlit("4");
        reveal_strlit("5");
        reveal_strlit("6");
        reveal_strlit("7");
        reveal_strlit("8");
        reveal_strlit("9");
        reveal_strlit("a");
        reveal_strlit("b");
        reveal_strlit("c");
        reveal_strlit("d");
        reveal_strlit("e");
        reveal_strlit("f");
    }
    match d {
        0 => "0",
        1 => "1",
        2 => "2",
        3 => "3",
        4 => "4",
        5 => "5",
        6 => "6",
        7 => "7",
        8 => "8",
        9 => "9",
        10 => "a",
        11 => "b",
        12 => "c",
        13 => "d",
        14 => "e",
        _ => "f",
    }
}

/// JSON-escapes `s` so that surrounding it with quotes yields a JSON string
/// literal denoting exactly `s`.
pub fn escape_json_str(s: &str) -> (r: String)
    ensures
        r@ == json_escaped(s@),
{
    let n = s.unicode_len();
    let mut out = String::new();
    let mut i: usize = 0;
    proof {
        assert(s@.subrange(0, 0) =~= Seq::<char>::empty());
    }
    while i < n
        invariant
            n == s@.len(),
            i <= n,
            out@ == json_escaped(s@.subrange(0, i as int)),
        decreases n - i,
    {
        let c = s.get_char(i);
        if c == '"' {
            out.append("\\\"");
            proof {
                reveal_strlit("\\\"");
                assert("\\\""@ =~= escape_char(c));
            }
        } else if c == '\\' {
            out.append("\\\\");
            proof {
                reveal_strlit("\\\\");
                assert("\\\\"@ =~= escape_char(c));
            }
        } else if c == '\n' {
            out.append("\\n");
            proof {
                reveal_strlit("\\n");
                assert("\\n"@ =~= escape_char(c));
            }
        } else if c == '\r' {
            out.append("\\r");
            proof {
                reveal_strlit("\\r");
                assert("\\r"@ =~= escape_char(c));
            }
        } else if c == '\t' {
            out.append("\\t");
            proof {
                reveal_strlit("\\t");
                assert("\\t"@ =~= escape_char(c));
            }
        } else if (c as u32) < 32 {
            let cu = c as u32;
            out.append("\\u00");
            out.append(hex_str(cu / 16));
            out.append(hex_str(cu % 16));
            proof {
                reveal_strlit("\\u00");
                assert("\\u00"@ + seq![hex_digit(c as int / 16)] + seq![hex_digit(c as int % 16)]
                    =~= escape_char(c));
            }
        } else {
            let piece = s.substring_char(i, i + 1);
            out.append(piece);
            proof {
                assert(piece@ =~= seq![c]);
                assert(seq![c] =~= escape_char(c));
            }
        }
        proof {
            let pre = s@.subrange(0, i as int);
            let pre1 = s@.subrange(0, i + 1);
            assert(pre1.drop_last() =~= pre);
            assert(pre1.last() == c);
            assert(out@ == json_escaped(pre1));
        }
        i += 1;
    }
    proof {
        assert(s@.subrange(0, n as int) =~= s@);
    }
    out
}

/// The wire form of one outward event: a one-line JSON object with a `type`
/// tag and, for all but `completed`, one string field carrying the payload.
pub open spec fn frame_spec(ev: OutwardEvent) -> Seq<char> {
    match ev {
        OutwardEvent::SessionCreated(sid) => "{\"type\":\"session_created\",\"session_id\":\""@
            + json_escaped(sid@) + "\"}"@,
        OutwardEvent::Output(data) => "{\"type\":\"output\",\"data\":\""@ + json_escaped(data@)
            + "\"}"@,
        OutwardEvent::Error(err) => "{\"type\":\"error\",\"error\":\""@ + json_escaped(err@)
            + "\"}"@,
        OutwardEvent::Completed => "{\"type\":\"completed\"}"@,
    }
}

/// Serializes one outward event for the transport layer.
pub fn frame_event(ev: &OutwardEvent) -> (r: String)
    ensures
        r@ == frame_spec(*ev),
{
    match ev {
        OutwardEvent::SessionCreated(sid) => {
            String::from_str("{\"type\":\"session_created\",\"session_id\":\"").concat(
                escape_json_str(sid.as_str()).as_str(),
            ).concat("\"}")
        },
        OutwardEvent::Output(data) => {
            String::from_str("{\"type\":\"output\",\"data\":\"").concat(
                escape_json_str(data.as_str()).as_str(),
            ).concat("\"}")
        },
        OutwardEvent::Error(err) => {
            String::from_str("{\"type\":\"error\",\"error\":\"").concat(
                escape_json_str(err.as_str()).as_str(),
            ).concat("\"}")
        },
        OutwardEvent::Completed => String::from_str("{\"type\":\"completed\"}"),
    }
}

} // verus!
