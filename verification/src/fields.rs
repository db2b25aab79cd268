//! Rendering of the per-field declaration block.
//!
//! The raw field list is split on runs of whitespace; each token yields one
//! declaration line, in input order, duplicates kept.

use vstd::prelude::*;
use vstd::string::*;
use crate::text::push_char;

verus! {

/// The characters on which the field list is split: the Unicode
/// `White_Space` class, the one `char::is_whitespace` recognizes.
pub open spec fn is_space(c: char) -> bool {
    c == '\t' || c == '\n' || c == '\u{b}' || c == '\u{c}' || c == '\r' || c == ' ' || c == '\u{85}'
        || c == '\u{a0}' || c == '\u{1680}' || ('\u{2000}' <= c && c <= '\u{200a}') || c
        == '\u{2028}' || c == '\u{2029}' || c == '\u{202f}' || c == '\u{205f}' || c == '\u{3000}'
}

fn is_space_exec(c: char) -> (r: bool)
    ensures
        r == is_space(c),
{
    c == '\t' || c == '\n' || c == '\u{b}' || c == '\u{c}' || c == '\r' || c == ' ' || c == '\u{85}'
        || c == '\u{a0}' || c == '\u{1680}' || ('\u{2000}' <= c && c <= '\u{200a}') || c
        == '\u{2028}' || c == '\u{2029}' || c == '\u{202f}' || c == '\u{205f}' || c == '\u{3000}'
}

/// The whitespace-delimited tokens of the remaining input `s`, continuing a
/// token whose earlier characters are `cur`. Empty tokens are discarded, so
/// leading, trailing and repeated whitespace contribute nothing.
pub open spec fn tokens_from(s: Seq<char>, cur: Seq<char>) -> Seq<Seq<char>>
    decreases s.len(),
{
    if s.len() == 0 {
        if cur.len() == 0 {
            seq![]
        } else {
            seq![cur]
        }
    } else if is_space(s[0]) {
        if cur.len() == 0 {
            tokens_from(s.drop_first(), seq![])
        } else {
            seq![cur] + tokens_from(s.drop_first(), seq![])
        }
    } else {
        tokens_from(s.drop_first(), cur.push(s[0]))
    }
}

/// The whitespace-delimited tokens of the field list, in input order.
pub open spec fn field_tokens(s: Seq<char>) -> Seq<Seq<char>> {
    tokens_from(s, seq![])
}

/// The declaration line one field token renders to, trailing newline
/// included; the token is inserted verbatim in both places.
pub open spec fn field_line(token: Seq<char>) -> Seq<char> {
    "$"@ + token + " = get_field( '"@ + token + "' ) ?: null;\n"@
}

/// The declaration lines of all the tokens, concatenated in order with no
/// separator beyond each line's own trailing newline.
pub open spec fn field_block(tokens: Seq<Seq<char>>) -> Seq<char>
    decreases tokens.len(),
{
    if tokens.len() == 0 {
        seq![]
    } else {
        field_line(tokens[0]) + field_block(tokens.drop_first())
    }
}

fn append_field_line(out: &mut String, token: &String)
    ensures
        final(out)@ == old(out)@ + field_line(token@),
{
    out.append("$");
    out.append(token.as_str());
    out.append(" = get_field( '");
    out.append(token.as_str());
    out.append("' ) ?: null;\n");
}

/// Renders the whitespace-separated field list into its block of declaration
/// lines: one line per token, in input order, duplicates kept; a list with no
/// tokens renders to the empty string.
pub fn parse_fields(fields: String) -> (r: String)
    ensures
        r@ == field_block(field_tokens(fields@)),
{
    let s: &str = fields.as_str();
    let n: usize = s.unicode_len();
    let mut out = String::new();
    let mut cur = String::new();
    let mut i: usize = 0;
    proof {
        assert(s@.skip(0) =~= s@);
    }
    while i < n
        invariant
            i <= n,
            n == s@.len(),
            s@ == fields@,
            out@ + field_block(tokens_from(s@.skip(i as int), cur@)) == field_block(
                field_tokens(s@),
            ),
        decreases n - i,
    {
        let ghost rem = s@.skip(i as int);
        proof {
            assert(rem.drop_first() =~= s@.skip(i as int + 1));
            assert(rem[0] == s@[i as int]);
        }
        let c = s.get_char(i);
        if is_space_exec(c) {
            if !cur.as_str().is_empty() {
                let ghost toks = tokens_from(rem.drop_first(), Seq::<char>::empty());
                let ghost out0 = out@;
                proof {
                    assert(tokens_from(rem, cur@) == seq![cur@] + toks);
                    assert((seq![cur@] + toks)[0] == cur@);
                    assert((seq![cur@] + toks).drop_first() =~= toks);
                    assert(out0 + field_line(cur@) + field_block(toks) =~= out0 + (field_line(cur@)
                        + field_block(toks)));
                }
                append_field_line(&mut out, &cur);
                cur = String::new();
            }
            proof {
                assert(cur@ =~= Seq::<char>::empty());
            }
        } else {
            push_char(&mut cur, c);
        }
        i = i + 1;
    }
    proof {
        assert(s@.skip(n as int) =~= Seq::<char>::empty());
    }
    if !cur.as_str().is_empty() {
        let ghost out0 = out@;
        proof {
            let toks = tokens_from(Seq::<char>::empty(), cur@);
            assert(toks == seq![cur@]);
            assert(seq![cur@][0] == cur@);
            assert(seq![cur@].drop_first() =~= Seq::<Seq<char>>::empty());
            assert(out0 + field_line(cur@) =~= out0 + (field_line(cur@) + field_block(
                Seq::<Seq<char>>::empty(),
            )));
        }
        append_field_line(&mut out, &cur);
    } else {
        proof {
            assert(cur@ =~= Seq::<char>::empty());
            assert(out@ + field_block(tokens_from(Seq::<char>::empty(), cur@)) =~= out@);
        }
    }
    out
}

} // verus!
