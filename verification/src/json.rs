//! Verified construction of JSON text: string literals with escaping,
//! decimal number rendering, and arrays of strings.
//!
//! The spec functions here define exactly which characters a piece of JSON
//! output consists of; the executable builders are proved to produce that
//! text character for character.

use vstd::prelude::*;
use vstd::string::StrSliceExecFns;
use vstd::string::StringExecFns;
use crate::text::push_char;

verus! {

/// The sixteen lowercase hexadecimal digit characters.
pub open spec fn hex_digit(n: int) -> char {
    if n == 0 {
        '0'
    } else if n == 1 {
        '1'
    } else if n == 2 {
        '2'
    } else if n == 3 {
        '3'
    } else if n == 4 {
        '4'
    } else if n == 5 {
        '5'
    } else if n == 6 {
        '6'
    } else if n == 7 {
        '7'
    } else if n == 8 {
        '8'
    } else if n == 9 {
        '9'
    } else if n == 10 {
        'a'
    } else if n == 11 {
        'b'
    } else if n == 12 {
        'c'
    } else if n == 13 {
        'd'
    } else if n == 14 {
        'e'
    } else {
        'f'
    }
}

/// How one character is written inside a JSON string literal: quote and
/// backslash get a backslash escape, a control character a `\u00XX` escape,
/// and every other character stands for itself.
pub open spec fn escape_char(c: char) -> Seq<char> {
    if c == '"' {
        seq!['\\', '"']
    } else if c == '\\' {
        seq!['\\', '\\']
    } else if (c as u32) < 32 {
        seq!['\\', 'u', '0', '0', hex_digit((c as u32) as int / 16), hex_digit(
            (c as u32) as int % 16,
        )]
    } else {
        seq![c]
    }
}

/// The text of a JSON string literal body: each character escaped in turn.
pub open spec fn escape_text(s: Seq<char>) -> Seq<char>
    decreases s.len(),
{
    if s.len() == 0 {
        Seq::empty()
    } else {
        escape_text(s.drop_last()) + escape_char(s.last())
    }
}

/// A complete JSON string literal: the escaped text between double quotes.
pub open spec fn json_string(s: Seq<char>) -> Seq<char> {
    seq!['"'] + escape_text(s) + seq!['"']
}

/// A character that JSON escaping writes verbatim.
pub open spec fn is_plain_char(c: char) -> bool {
    c != '"' && c != '\\' && (c as u32) >= 32
}

/// Text whose characters all survive JSON escaping unchanged.
pub open spec fn is_plain_text(s: Seq<char>) -> bool {
    forall|i: int| 0 <= i < s.len() ==> is_plain_char(#[trigger] s[i])
}

/// Escaping leaves plain text exactly as it is.
pub proof fn lemma_escape_plain(s: Seq<char>)
    requires
        is_plain_text(s),
    ensures
        escape_text(s) == s,
    decreases s.len(),
{
    if s.len() == 0 {
        assert(escape_text(s) =~= s);
    } else {
        assert(is_plain_text(s.drop_last()));
        lemma_escape_plain(s.drop_last());
        assert(is_plain_char(s.last()));
        assert(escape_char(s.last()) =~= seq![s.last()]);
        assert(escape_text(s) =~= s);
    }
}

proof fn lemma_escape_text_step(s: Seq<char>, i: int)
    requires
        0 <= i < s.len(),
    ensures
        escape_text(s.take(i + 1)) == escape_text(s.take(i)) + escape_char(s[i]),
{
    let t = s.take(i + 1);
    assert(t.len() == i + 1);
    assert(t.drop_last() =~= s.take(i));
    assert(t.last() == s[i]);
}

pub(crate) fn hex_digit_exec(n: u8) -> (c: char)
    requires
        n < 16,
    ensures
        c == hex_digit(n as int),
{
    if n == 0 {
        '0'
    } else if n == 1 {
        '1'
    } else if n == 2 {
        '2'
    } else if n == 3 {
        '3'
    } else if n == 4 {
        '4'
    } else if n == 5 {
        '5'
    } else if n == 6 {
        '6'
    } else if n == 7 {
        '7'
    } else if n == 8 {
        '8'
    } else if n == 9 {
        '9'
    } else if n == 10 {
        'a'
    } else if n == 11 {
        'b'
    } else if n == 12 {
        'c'
    } else if n == 13 {
        'd'
    } else if n == 14 {
        'e'
    } else {
        'f'
    }
}

/// Appends the JSON-escaped form of `s` to `out`.
pub fn append_escaped(out: &mut String, s: &str)
    ensures
        final(out)@ == old(out)@ + escape_text(s@),
{
    let len: usize = s.unicode_len();
    let mut i: usize = 0;
    while i < len
        invariant
            i <= len,
            len == s@.len(),
            out@ == old(out)@ + escape_text(s@.take(i as int)),
        decreases len - i,
    {
        let c = s.get_char(i);
        let u: u32 = c as u32;
        if c == '"' {
            out.append("\\\"");
            proof {
                reveal_strlit("\\\"");
                assert(escape_char(c) =~= "\\\""@);
            }
        } else if c == '\\' {
            out.append("\\\\");
            proof {
                reveal_strlit("\\\\");
                assert(escape_char(c) =~= "\\\\"@);
            }
        } else if u < 32 {
            out.append("\\u00");
            let hi = hex_digit_exec((u / 16) as u8);
            let lo = hex_digit_exec((u % 16) as u8);
            push_char(out, hi);
            push_char(out, lo);
            proof {
                reveal_strlit("\\u00");
                assert(escape_char(c) =~= "\\u00"@ + seq![hi] + seq![lo]);
            }
        } else {
            push_char(out, c);
            proof {
                assert(escape_char(c) =~= seq![c]);
            }
        }
        proof {
            lemma_escape_text_step(s@, i as int);
            assert(out@ =~= old(out)@ + escape_text(s@.take(i as int + 1)));
        }
        i += 1;
    }
    proof {
        assert(s@.take(len as int) =~= s@);
    }
}

/// Appends `s` as a complete JSON string literal, quotes included.
pub fn append_json_string(out: &mut String, s: &str)
    ensures
        final(out)@ == old(out)@ + json_string(s@),
{
    push_char(out, '"');
    append_escaped(out, s);
    push_char(out, '"');
    proof {
        assert(out@ =~= old(out)@ + json_string(s@));
    }
}

/// The decimal digits of a natural number, most significant first.
pub open spec fn dec_nat(n: nat) -> Seq<char>
    decreases n,
{
    if n < 10 {
        seq![hex_digit(n as int)]
    } else {
        dec_nat(n / 10) + seq![hex_digit((n % 10) as int)]
    }
}

/// The decimal form of a signed number: a minus sign before the digits of
/// its magnitude when it is negative.
pub open spec fn dec_int(n: int) -> Seq<char> {
    if n < 0 {
        seq!['-'] + dec_nat((-n) as nat)
    } else {
        dec_nat(n as nat)
    }
}

/// Appends the decimal digits of `n`.
pub fn append_u32_dec(out: &mut String, n: u32)
    ensures
        final(out)@ == old(out)@ + dec_nat(n as nat),
    decreases n,
{
    if n < 10 {
        push_char(out, hex_digit_exec(n as u8));
    } else {
        append_u32_dec(out, n / 10);
        push_char(out, hex_digit_exec((n % 10) as u8));
        proof {
            assert(out@ =~= old(out)@ + dec_nat(n as nat));
        }
    }
}

/// Appends the decimal form of `n`, with a leading minus sign if negative.
pub fn append_i32_dec(out: &mut String, n: i32)
    ensures
        final(out)@ == old(out)@ + dec_int(n as int),
{
    if n < 0 {
        push_char(out, '-');
        let wide: i64 = n as i64;
        let m: u32 = (-wide) as u32;
        proof {
            assert(m as nat == (-(n as int)) as nat);
        }
        append_u32_dec(out, m);
        proof {
            assert(out@ =~= old(out)@ + dec_int(n as int));
        }
    } else {
        append_u32_dec(out, n as u32);
    }
}

/// The comma-separated JSON string literals of the items, in order.
pub open spec fn join_json_strings(items: Seq<Seq<char>>) -> Seq<char>
    decreases items.len(),
{
    if items.len() == 0 {
        Seq::empty()
    } else if items.len() == 1 {
        json_string(items[0])
    } else {
        join_json_strings(items.drop_last()) + seq![','] + json_string(items.last())
    }
}

/// A JSON array holding exactly the given strings, in order.
pub open spec fn json_string_array(items: Seq<Seq<char>>) -> Seq<char> {
    seq!['['] + join_json_strings(items) + seq![']']
}

proof fn lemma_join_step(items: Seq<Seq<char>>, i: int)
    requires
        0 <= i < items.len(),
    ensures
        i == 0 ==> join_json_strings(items.take(1)) == json_string(items[0]),
        i > 0 ==> join_json_strings(items.take(i + 1)) == join_json_strings(items.take(i))
            + seq![','] + json_string(items[i]),
{
    let t = items.take(i + 1);
    assert(t.len() == i + 1);
    if i == 0 {
        assert(t[0] == items[0]);
        assert(join_json_strings(t) == json_string(items[0]));
    } else {
        assert(t.drop_last() =~= items.take(i));
        assert(t.last() == items[i]);
    }
}

/// Renders the strings as a JSON array, order preserved.
pub fn string_array_to_json(items: &Vec<String>) -> (r: String)
    ensures
        r@ == json_string_array(items@.map_values(|s: String| s@)),
{
    let ghost views = items@.map_values(|s: String| s@);
    let mut out = String::new();
    push_char(&mut out, '[');
    let mut i: usize = 0;
    while i < items.len()
        invariant
            i <= items@.len(),
            views == items@.map_values(|s: String| s@),
            views.len() == items@.len(),
            out@ == seq!['['] + join_json_strings(views.take(i as int)),
        decreases items@.len() - i,
    {
        if i > 0 {
            push_char(&mut out, ',');
        }
        let item: &String = &items[i];
        append_json_string(&mut out, item.as_str());
        proof {
            assert(views[i as int] == items@[i as int]@);
            lemma_join_step(views, i as int);
            assert(out@ =~= seq!['['] + join_json_strings(views.take(i as int + 1)));
        }
        i += 1;
    }
    push_char(&mut out, ']');
    proof {
        assert(views.take(views.len() as int) =~= views);
        assert(out@ =~= json_string_array(views));
    }
    out
}

} // verus!
