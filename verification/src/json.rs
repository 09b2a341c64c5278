//! The JSON bodies of the API endpoint.
//!
//! The API answers with one flat object, `{"debate": ..., "elapsed_time":
//! ..., "answer": ...}`. The module builds that object as text, escaping the
//! embedded strings the way JSON demands, and proves that the escaping is
//! lossless: a decoder recovers exactly the text that was encoded.

use vstd::prelude::*;

verus! {

use crate::strutil::{spec_dec, u128_to_dec};
use vstd::string::StrSliceExecFns;
use vstd::string::StringExecFns;

/// The lower-case hexadecimal digit character for `d` in `0 ..= 15`.
pub open spec fn hex_digit(d: nat) -> char {
    if d == 0 {
        '0'
    } else if d == 1 {
        '1'
    } else if d == 2 {
        '2'
    } else if d == 3 {
        '3'
    } else if d == 4 {
        '4'
    } else if d == 5 {
        '5'
    } else if d == 6 {
        '6'
    } else if d == 7 {
        '7'
    } else if d == 8 {
        '8'
    } else if d == 9 {
        '9'
    } else if d == 10 {
        'a'
    } else if d == 11 {
        'b'
    } else if d == 12 {
        'c'
    } else if d == 13 {
        'd'
    } else if d == 14 {
        'e'
    } else {
        'f'
    }
}

/// The value of a lower-case hexadecimal digit character, if it is one.
pub open spec fn hex_val(c: char) -> Option<nat> {
    if c == '0' {
        Option::Some(0 as nat)
    } else if c == '1' {
        Option::Some(1 as nat)
    } else if c == '2' {
        Option::Some(2 as nat)
    } else if c == '3' {
        Option::Some(3 as nat)
    } else if c == '4' {
        Option::Some(4 as nat)
    } else if c == '5' {
        Option::Some(5 as nat)
    } else if c == '6' {
        Option::Some(6 as nat)
    } else if c == '7' {
        Option::Some(7 as nat)
    } else if c == '8' {
        Option::Some(8 as nat)
    } else if c == '9' {
        Option::Some(9 as nat)
    } else if c == 'a' {
        Option::Some(10 as nat)
    } else if c == 'b' {
        Option::Some(11 as nat)
    } else if c == 'c' {
        Option::Some(12 as nat)
    } else if c == 'd' {
        Option::Some(13 as nat)
    } else if c == 'e' {
        Option::Some(14 as nat)
    } else if c == 'f' {
        Option::Some(15 as nat)
    } else {
        Option::None
    }
}

/// The control character with the given code, for codes below `0x20`.
pub open spec fn char_of_code(code: nat) -> char {
    if code == 0 {
        '\u{0}'
    } else if code == 1 {
        '\u{1}'
    } else if code == 2 {
        '\u{2}'
    } else if code == 3 {
        '\u{3}'
    } else if code == 4 {
        '\u{4}'
    } else if code == 5 {
        '\u{5}'
    } else if code == 6 {
        '\u{6}'
    } else if code == 7 {
        '\u{7}'
    } else if code == 8 {
        '\u{8}'
    } else if code == 9 {
        '\u{9}'
    } else if code == 10 {
        '\u{a}'
    } else if code == 11 {
        '\u{b}'
    } else if code == 12 {
        '\u{c}'
    } else if code == 13 {
        '\u{d}'
    } else if code == 14 {
        '\u{e}'
    } else if code == 15 {
        '\u{f}'
    } else if code == 16 {
        '\u{10}'
    } else if code == 17 {
        '\u{11}'
    } else if code == 18 {
        '\u{12}'
    } else if code == 19 {
        '\u{13}'
    } else if code == 20 {
        '\u{14}'
    } else if code == 21 {
        '\u{15}'
    } else if code == 22 {
        '\u{16}'
    } else if code == 23 {
        '\u{17}'
    } else if code == 24 {
        '\u{18}'
    } else if code == 25 {
        '\u{19}'
    } else if code == 26 {
        '\u{1a}'
    } else if code == 27 {
        '\u{1b}'
    } else if code == 28 {
        '\u{1c}'
    } else if code == 29 {
        '\u{1d}'
    } else if code == 30 {
        '\u{1e}'
    } else if code == 31 {
        '\u{1f}'
    } else {
        ' '
    }
}

/// How one character is written inside a JSON string literal: quote and
/// backslash get a two-character escape, the common control characters get
/// their short escapes, the remaining control characters get `\u00..`, and
/// everything else stands for itself.
pub open spec fn spec_escape_char(c: char) -> Seq<char> {
    if c == '"' {
        seq!['\\', '"']
    } else if c == '\\' {
        seq!['\\', '\\']
    } else if c == '\n' {
        seq!['\\', 'n']
    } else if c == '\r' {
        seq!['\\', 'r']
    } else if c == '\t' {
        seq!['\\', 't']
    } else if (c as u32) < 0x20 {
        seq!['\\', 'u', '0', '0', hex_digit((c as u32 / 16) as nat), hex_digit(
            (c as u32 % 16) as nat,
        )]
    } else {
        seq![c]
    }
}

/// The body of a JSON string literal holding exactly the text `s`.
pub open spec fn spec_escape(s: Seq<char>) -> Seq<char>
    decreases s.len(),
{
    if s.len() == 0 {
        Seq::empty()
    } else {
        spec_escape_char(s[0]) + spec_escape(s.drop_first())
    }
}

/// Glues a decoded character onto the rest of a decoding, if that succeeded.
pub open spec fn prepend_decoded(c: char, rest: Option<Seq<char>>) -> Option<Seq<char>> {
    match rest {
        Option::Some(t) => Option::Some(seq![c] + t),
        Option::None => Option::None,
    }
}

/// Decodes the body of a JSON string literal as [`spec_escape`] writes it:
/// the escapes that encoder emits are accepted, and a raw quote, backslash
/// or control character is refused.
pub open spec fn spec_unescape(s: Seq<char>) -> Option<Seq<char>>
    decreases s.len(),
{
    if s.len() == 0 {
        Option::Some(Seq::empty())
    } else if s[0] == '\\' {
        if s.len() < 2 {
            Option::None
        } else if s[1] == '"' {
            prepend_decoded('"', spec_unescape(s.skip(2)))
        } else if s[1] == '\\' {
            prepend_decoded('\\', spec_unescape(s.skip(2)))
        } else if s[1] == 'n' {
            prepend_decoded('\n', spec_unescape(s.skip(2)))
        } else if s[1] == 'r' {
            prepend_decoded('\r', spec_unescape(s.skip(2)))
        } else if s[1] == 't' {
            prepend_decoded('\t', spec_unescape(s.skip(2)))
        } else if s[1] == 'u' {
            if s.len() < 6 {
                Option::None
            } else {
                match (hex_val(s[2]), hex_val(s[3]), hex_val(s[4]), hex_val(s[5])) {
                    (Option::Some(a), Option::Some(b), Option::Some(c), Option::Some(d)) => {
                        let code = a * 4096 + b * 256 + c * 16 + d;
                        if code < 0x20 {
                            prepend_decoded(char_of_code(code), spec_unescape(s.skip(6)))
                        } else {
                            Option::None
                        }
                    },
                    _ => Option::None,
                }
            }
        } else {
            Option::None
        }
    } else if s[0] == '"' || (s[0] as u32) < 0x20 {
        Option::None
    } else {
        prepend_decoded(s[0], spec_unescape(s.skip(1)))
    }
}

/// A character below `0x20` is recovered from its code.
proof fn lemma_char_of_code_roundtrip(c: char)
    requires
        (c as u32) < 0x20,
    ensures
        char_of_code((c as u32) as nat) == c,
{
    let code = (c as u32) as nat;
    if code == 0 {
        assert(c == '\u{0}');
    } else if code == 1 {
        assert(c == '\u{1}');
    } else if code == 2 {
        assert(c == '\u{2}');
    } else if code == 3 {
        assert(c == '\u{3}');
    } else if code == 4 {
        assert(c == '\u{4}');
    } else if code == 5 {
        assert(c == '\u{5}');
    } else if code == 6 {
        assert(c == '\u{6}');
    } else if code == 7 {
        assert(c == '\u{7}');
    } else if code == 8 {
        assert(c == '\u{8}');
    } else if code == 9 {
        assert(c == '\u{9}');
    } else if code == 10 {
        assert(c == '\u{a}');
    } else if code == 11 {
        assert(c == '\u{b}');
    } else if code == 12 {
        assert(c == '\u{c}');
    } else if code == 13 {
        assert(c == '\u{d}');
    } else if code == 14 {
        assert(c == '\u{e}');
    } else if code == 15 {
        assert(c == '\u{f}');
    } else if code == 16 {
        assert(c == '\u{10}');
    } else if code == 17 {
        assert(c == '\u{11}');
    } else if code == 18 {
        assert(c == '\u{12}');
    } else if code == 19 {
        assert(c == '\u{13}');
    } else if code == 20 {
        assert(c == '\u{14}');
    } else if code == 21 {
        assert(c == '\u{15}');
    } else if code == 22 {
        assert(c == '\u{16}');
    } else if code == 23 {
        assert(c == '\u{17}');
    } else if code == 24 {
        assert(c == '\u{18}');
    } else if code == 25 {
        assert(c == '\u{19}');
    } else if code == 26 {
        assert(c == '\u{1a}');
    } else if code == 27 {
        assert(c == '\u{1b}');
    } else if code == 28 {
        assert(c == '\u{1c}');
    } else if code == 29 {
        assert(c == '\u{1d}');
    } else if code == 30 {
        assert(c == '\u{1e}');
    } else {
        assert(c == '\u{1f}');
    }
}

/// Law: JSON string escaping is lossless. Decoding what [`spec_escape`]
/// wrote recovers the original text, for every text.
pub proof fn lemma_unescape_escape(s: Seq<char>)
    ensures
        spec_unescape(spec_escape(s)) == Option::Some(s),
    decreases s.len(),
{
    if s.len() == 0 {
        assert(spec_escape(s) =~= Seq::<char>::empty());
    } else {
        let c = s[0];
        let rest = s.drop_first();
        lemma_unescape_escape(rest);
        let e = spec_escape(s);
        assert(e == spec_escape_char(c) + spec_escape(rest));
        assert(seq![c] + rest =~= s);
        if c == '"' || c == '\\' || c == '\n' || c == '\r' || c == '\t' {
            assert(e.skip(2) =~= spec_escape(rest));
        } else if (c as u32) < 0x20 {
            let code = (c as u32) as nat;
            let hi = code / 16;
            let lo = code % 16;
            assert(hex_val(hex_digit(hi)) == Option::Some(hi));
            assert(hex_val(hex_digit(lo)) == Option::Some(lo));
            assert(0 * 4096 + 0 * 256 + hi * 16 + lo == code);
            lemma_char_of_code_roundtrip(c);
            assert(e.skip(6) =~= spec_escape(rest));
        } else {
            assert(e.skip(1) =~= spec_escape(rest));
        }
    }
}

/// One lower-case hexadecimal digit as a string slice.
fn hex_digit_str(d: u32) -> (r: &'static str)
    requires
        d < 16,
    ensures
        r@ == seq![hex_digit(d as nat)],
{
    let r: &'static str = if d == 0 {
        "0"
    } else if d == 1 {
        "1"
    } else if d == 2 {
        "2"
    } else if d == 3 {
        "3"
    } else if d == 4 {
        "4"
    } else if d == 5 {
        "5"
    } else if d == 6 {
        "6"
    } else if d == 7 {
        "7"
    } else if d == 8 {
        "8"
    } else if d == 9 {
        "9"
    } else if d == 10 {
        "a"
    } else if d == 11 {
        "b"
    } else if d == 12 {
        "c"
    } else if d == 13 {
        "d"
    } else if d == 14 {
        "e"
    } else {
        "f"
    };
    proof {
        reveal_strlit("0");
        reveal_strlit("1");
        reveal_strlit("2");
        reveal_strlit("3");
        reveal_strlit("4");
        reveal_strlit("5");
        reveal_strlit("6");
        reveal_strlit("7");
        reveal_strlit("8");
        reveal_strlit("9");
        reveal_strlit("a");
        reveal_strlit("b");
        reveal_strlit("c");
        reveal_strlit("d");
        reveal_strlit("e");
        reveal_strlit("f");
        assert(r@ =~= seq![hex_digit(d as nat)]);
    }
    r
}

/// Extending the text by one character extends its escaping by that
/// character's escape.
proof fn lemma_escape_snoc(s: Seq<char>, c: char)
    ensures
        spec_escape(s.push(c)) == spec_escape(s) + spec_escape_char(c),
    decreases s.len(),
{
    if s.len() == 0 {
        assert(s.push(c).drop_first() =~= Seq::<char>::empty());
        assert(s.push(c)[0] == c);
        assert(spec_escape(Seq::<char>::empty()) =~= Seq::<char>::empty());
        assert(spec_escape(s) =~= Seq::<char>::empty());
        assert(spec_escape(s.push(c)) == spec_escape_char(c) + spec_escape(s.push(c).drop_first()));
        assert(spec_escape(s.push(c)) =~= spec_escape(s) + spec_escape_char(c));
    } else {
        lemma_escape_snoc(s.drop_first(), c);
        assert(s.push(c).drop_first() =~= s.drop_first().push(c));
        assert(s.push(c)[0] == s[0]);
        let a = spec_escape_char(s[0]);
        let b = spec_escape(s.drop_first());
        let e = spec_escape_char(c);
        assert(spec_escape(s.push(c)) == a + (b + e));
        assert(a + (b + e) =~= (a + b) + e);
    }
}

/// Escapes `s` for embedding in a JSON string literal.
pub fn json_escape(s: &str) -> (r: String)
    ensures
        r@ == spec_escape(s@),
{
    let n = s.unicode_len();
    let mut r = String::new();
    let mut i: usize = 0;
    while i < n
        invariant
            n == s@.len(),
            i <= n,
            r@ == spec_escape(s@.subrange(0, i as int)),
        decreases n - i,
    {
        let c = s.get_char(i);
        proof {
            lemma_escape_snoc(s@.subrange(0, i as int), c);
            assert(s@.subrange(0, i as int).push(c) =~= s@.subrange(0, i + 1 as int));
        }
        if c == '"' {
            r.append("\\\"");
            proof {
                reveal_strlit("\\\"");
                assert(r@ =~= spec_escape(s@.subrange(0, i + 1 as int)));
            }
        } else if c == '\\' {
            r.append("\\\\");
            proof {
                reveal_strlit("\\\\");
                assert(r@ =~= spec_escape(s@.subrange(0, i + 1 as int)));
            }
        } else if c == '\n' {
            r.append("\\n");
            proof {
                reveal_strlit("\\n");
                assert(r@ =~= spec_escape(s@.subrange(0, i + 1 as int)));
            }
        } else if c == '\r' {
            r.append("\\r");
            proof {
                reveal_strlit("\\r");
                assert(r@ =~= spec_escape(s@.subrange(0, i + 1 as int)));
            }
        } else if c == '\t' {
            r.append("\\t");
            proof {
                reveal_strlit("\\t");
                assert(r@ =~= spec_escape(s@.subrange(0, i + 1 as int)));
            }
        } else if (c as u32) < 0x20 {
            let code: u32 = c as u32;
            r.append("\\u00");
            r.append(hex_digit_str(code / 16));
            r.append(hex_digit_str(code % 16));
            proof {
                reveal_strlit("\\u00");
                assert(r@ =~= spec_escape(s@.subrange(0, i + 1 as int)));
            }
        } else {
            r.append(s.substring_char(i, i + 1));
            proof {
                assert(s@.subrange(i as int, i + 1 as int) =~= seq![c]);
                assert(r@ =~= spec_escape(s@.subrange(0, i + 1 as int)));
            }
        }
        i = i + 1;
    }
    proof {
        assert(s@.subrange(0, n as int) =~= s@);
    }
    r
}

/// The response of the API on success, as data: the echoed debate text, the
/// measured elapsed time in microseconds, and the fixed answer.
pub struct APIResponse {
    pub debate: String,
    pub elapsed_time: u128,
    pub answer: String,
}

/// The JSON object the API serializes an [`APIResponse`] to.
pub open spec fn spec_api_json(debate: Seq<char>, elapsed: u128, answer: Seq<char>) -> Seq<char> {
    "{\"debate\":\""@ + spec_escape(debate) + "\",\"elapsed_time\":"@ + spec_dec(elapsed as nat)
        + ",\"answer\":\""@ + spec_escape(answer) + "\"}"@
}

impl APIResponse {
    /// Serializes the response to its JSON object.
    pub fn to_json(&self) -> (r: String)
        ensures
            r@ == spec_api_json(self.debate@, self.elapsed_time, self.answer@),
    {
        let mut r = String::from_str("{\"debate\":\"");
        let esc_debate = json_escape(self.debate.as_str());
        r.append(esc_debate.as_str());
        r.append("\",\"elapsed_time\":");
        let dec = u128_to_dec(self.elapsed_time);
        r.append(dec.as_str());
        r.append(",\"answer\":\"");
        let esc_answer = json_escape(self.answer.as_str());
        r.append(esc_answer.as_str());
        r.append("\"}");
        proof {
            assert(r@ =~= spec_api_json(self.debate@, self.elapsed_time, self.answer@));
        }
        r
    }
}

} // verus!
