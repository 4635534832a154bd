use vstd::prelude::*;
use vstd::string::{StrSliceExecFns, StringExecFns};

verus! {

pub open spec fn hex_digit_char(d: int) -> char {
    if d == 0 {
        '0'
    } else if d == 1 {
        '1'
    } else if d == 2 {
        '2'
    } else if d == 3 {
        '3'
    } else if d == 4 {
        '4'
    } else if d == 5 {
        '5'
    } else if d == 6 {
        '6'
    } else if d == 7 {
        '7'
    } else if d == 8 {
        '8'
    } else if d == 9 {
        '9'
    } else if d == 10 {
        'a'
    } else if d == 11 {
        'b'
    } else if d == 12 {
        'c'
    } else if d == 13 {
        'd'
    } else if d == 14 {
        'e'
    } else {
        'f'
    }
}

/// How one character is written inside a JSON string: quote and backslash
/// escaped, the named control characters short, other control characters as
/// a four-digit escape, everything else as itself.
pub open spec fn json_escape_char(c: char) -> Seq<char> {
    if c == '"' {
        seq!['\\', '"']
    } else if c == '\\' {
        seq!['\\', '\\']
    } else if c == '\u{8}' {
        seq!['\\', 'b']
    } else if c == '\t' {
        seq!['\\', 't']
    } else if c == '\n' {
        seq!['\\', 'n']
    } else if c == '\u{c}' {
        seq!['\\', 'f']
    } else if c == '\r' {
        seq!['\\', 'r']
    } else if (c as int) < 32 {
        seq!['\\', 'u', '0', '0', hex_digit_char(c as int / 16), hex_digit_char(c as int % 16)]
    } else {
        seq![c]
    }
}

pub open spec fn json_escape(s: Seq<char>) -> Seq<char>
    decreases s.len(),
{
    if s.len() == 0 {
        Seq::empty()
    } else {
        json_escape(s.drop_last()) + json_escape_char(s.last())
    }
}

fn hex_digit_str(d: u32) -> (s: &'static str)
    requires
        d < 16,
    ensures
        s@ == seq![hex_digit_char(d as int)],
{
    if d == 0 {
        proof {
            reveal_strlit("0");
            assert("0"@ =~= seq![hex_digit_char(0)]);
        }
        "0"
    } else if d == 1 {
        proof {
            reveal_strlit("1");
            assert("1"@ =~= seq![hex_digit_char(1)]);
        }
        "1"
    } else if d == 2 {
        proof {
            reveal_strlit("2");
            assert("2"@ =~= seq![hex_digit_char(2)]);
        }
        "2"
    } else if d == 3 {
        proof {
            reveal_strlit("3");
            assert("3"@ =~= seq![hex_digit_char(3)]);
        }
        "3"
    } else if d == 4 {
        proof {
            reveal_strlit("4");
            assert("4"@ =~= seq![hex_digit_char(4)]);
        }
        "4"
    } else if d == 5 {
        proof {
            reveal_strlit("5");
            assert("5"@ =~= seq![hex_digit_char(5)]);
        }
        "5"
    } else if d == 6 {
        proof {
            reveal_strlit("6");
            assert("6"@ =~= seq![hex_digit_char(6)]);
        }
        "6"
    } else if d == 7 {
        proof {
            reveal_strlit("7");
            assert("7"@ =~= seq![hex_digit_char(7)]);
        }
        "7"
    } else if d == 8 {
        proof {
            reveal_strlit("8");
            assert("8"@ =~= seq![hex_digit_char(8)]);
        }
        "8"
    } else if d == 9 {
        proof {
            reveal_strlit("9");
            assert("9"@ =~= seq![hex_digit_char(9)]);
        }
        "9"
    } else if d == 10 {
        proof {
            reveal_strlit("a");
            assert("a"@ =~= seq![hex_digit_char(10)]);
        }
        "a"
    } else if d == 11 {
        proof {
            reveal_strlit("b");
            assert("b"@ =~= seq![hex_digit_char(11)]);
        }
        "b"
    } else if d == 12 {
        proof {
            reveal_strlit("c");
            assert("c"@ =~= seq![hex_digit_char(12)]);
        }
        "c"
    } else if d == 13 {
        proof {
            reveal_strlit("d");
            assert("d"@ =~= seq![hex_digit_char(13)]);
        }
        "d"
    } else if d == 14 {
        proof {
            reveal_strlit("e");
            assert("e"@ =~= seq![hex_digit_char(14)]);
        }
        "e"
    } else {
        proof {
            reveal_strlit("f");
            assert("f"@ =~= seq![hex_digit_char(15)]);
        }
        "f"
    }
}

/// Escape a string for inclusion inside a JSON string literal.
#[verifier::loop_isolation(false)]
pub fn json_escape_str(s: &str) -> (out: String)
    ensures
        out@ == json_escape(s@),
{
    let len = s.unicode_len();
    let mut out = String::new();
    let mut i: usize = 0;
    while i < len
        invariant
            i <= len,
            out@ == json_escape(s@.take(i as int)),
        decreases len - i,
    {
        let c = s.get_char(i);
        if c == '"' {
            out.append("\\\"");
            proof {
                reveal_strlit("\\\"");
                assert("\\\""@ =~= json_escape_char(c));
            }
        } else if c == '\\' {
            out.append("\\\\");
            proof {
                reveal_strlit("\\\\");
                assert("\\\\"@ =~= json_escape_char(c));
            }
        } else if c == '\u{8}' {
            out.append("\\b");
            proof {
                reveal_strlit("\\b");
                assert("\\b"@ =~= json_escape_char(c));
            }
        } else if c == '\t' {
            out.append("\\t");
            proof {
                reveal_strlit("\\t");
                assert("\\t"@ =~= json_escape_char(c));
            }
        } else if c == '\n' {
            out.append("\\n");
            proof {
                reveal_strlit("\\n");
                assert("\\n"@ =~= json_escape_char(c));
            }
        } else if c == '\u{c}' {
            out.append("\\f");
            proof {
                reveal_strlit("\\f");
                assert("\\f"@ =~= json_escape_char(c));
            }
        } else if c == '\r' {
            out.append("\\r");
            proof {
                reveal_strlit("\\r");
                assert("\\r"@ =~= json_escape_char(c));
            }
        } else if (c as u32) < 32 {
            out.append("\\u00");
            let d1 = hex_digit_str((c as u32) / 16);
            out.append(d1);
            let d2 = hex_digit_str((c as u32) % 16);
            out.append(d2);
            proof {
                reveal_strlit("\\u00");
                assert("\\u00"@ + d1@ + d2@ =~= json_escape_char(c));
            }
        } else {
            let one = s.substring_char(i, i + 1);
            proof {
                assert(one@ =~= json_escape_char(c));
            }
            out.append(one);
        }
        proof {
            assert(s@.take(i + 1).drop_last() =~= s@.take(i as int));
            assert(s@.take(i + 1).last() == c);
            assert(out@ =~= json_escape(s@.take(i + 1)));
        }
        i = i + 1;
    }
    proof {
        assert(s@.take(len as int) =~= s@);
    }
    out
}

/// The notification payload: one embed with an escaped title, description
/// and timestamp, the fixed accent color, and the fixed footer.
pub open spec fn notification_payload_text(
    title: Seq<char>,
    message: Seq<char>,
    timestamp: Seq<char>,
) -> Seq<char> {
    "{\"embeds\":[{\"title\":\""@ + json_escape(title) + "\",\"description\":\""@ + json_escape(
        message,
    ) + "\",\"color\":5814783,\"footer\":{\"text\":\"BOB Monitor\"},\"timestamp\":\""@
        + json_escape(timestamp) + "\"}]}"@
}

/// Build the webhook notification body. The timestamp is handed in by the
/// caller, since the current time is no business of the classifier core.
pub fn notification_payload(title: &str, message: &str, timestamp: &str) -> (out: String)
    ensures
        out@ == notification_payload_text(title@, message@, timestamp@),
{
    let mut out: String = "{\"embeds\":[{\"title\":\"".to_owned();
    let t = json_escape_str(title);
    out.append(t.as_str());
    out.append("\",\"description\":\"");
    let m = json_escape_str(message);
    out.append(m.as_str());
    out.append("\",\"color\":5814783,\"footer\":{\"text\":\"BOB Monitor\"},\"timestamp\":\"");
    let ts = json_escape_str(timestamp);
    out.append(ts.as_str());
    out.append("\"}]}");
    proof {
        assert(out@ =~= notification_payload_text(title@, message@, timestamp@));
    }
    out
}

} // verus!
