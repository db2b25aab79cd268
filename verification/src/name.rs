//! Canonical forms of a block name.
//!
//! A raw name is taken either as a slug (when it contains a hyphen) or as a
//! human-readable title (otherwise); the missing form is derived from it.

use vstd::prelude::*;
use vstd::string::*;
use crate::text::push_char;

verus! {

/// The Unicode uppercase mapping of one character, as one or more
/// characters; what `char::to_uppercase` yields.
pub uninterp spec fn upper_of(c: char) -> Seq<char>;

/// The Unicode lowercase mapping of one character, as one or more
/// characters; what `char::to_lowercase` yields.
pub uninterp spec fn lower_of(c: char) -> Seq<char>;

/// Relies on `char::to_uppercase`: the uppercase mapping of a character
/// depends on that character alone.
#[verifier::external_body]
fn uppercase_char(c: char) -> (r: String)
    ensures
        r@ == upper_of(c),
{
    c.to_uppercase().collect()
}

/// Relies on `char::to_lowercase`: the lowercase mapping of a character
/// depends on that character alone.
#[verifier::external_body]
fn lowercase_char(c: char) -> (r: String)
    ensures
        r@ == lower_of(c),
{
    c.to_lowercase().collect()
}

/// The segment with its first character uppercased and the rest unchanged.
pub open spec fn capitalized(seg: Seq<char>) -> Seq<char> {
    if seg.len() == 0 {
        seg
    } else {
        upper_of(seg[0]) + seg.drop_first()
    }
}

/// The hyphen-delimited segments of `s`, continuing a segment whose earlier
/// characters are `cur`. Every hyphen ends a segment; empty segments are kept.
pub open spec fn dash_split_from(s: Seq<char>, cur: Seq<char>) -> Seq<Seq<char>>
    decreases s.len(),
{
    if s.len() == 0 {
        seq![cur]
    } else if s[0] == '-' {
        seq![cur] + dash_split_from(s.drop_first(), seq![])
    } else {
        dash_split_from(s.drop_first(), cur.push(s[0]))
    }
}

/// The hyphen-delimited segments of `s`.
pub open spec fn dash_segments(s: Seq<char>) -> Seq<Seq<char>> {
    dash_split_from(s, seq![])
}

/// The parts joined with a single space between consecutive parts.
pub open spec fn join_spaced(parts: Seq<Seq<char>>) -> Seq<char>
    decreases parts.len(),
{
    if parts.len() == 0 {
        seq![]
    } else if parts.len() == 1 {
        parts[0]
    } else {
        parts[0] + seq![' '] + join_spaced(parts.drop_first())
    }
}

/// The human-readable form of a slug: each hyphen-delimited segment is
/// capitalized and the segments are joined by single spaces.
pub open spec fn human_form(s: Seq<char>) -> Seq<char> {
    join_spaced(dash_segments(s).map_values(|seg: Seq<char>| capitalized(seg)))
}

/// What one character contributes to the slug form: a space becomes a
/// hyphen, everything else is lowercased.
pub open spec fn slug_piece(c: char) -> Seq<char> {
    if c == ' ' {
        seq!['-']
    } else {
        lower_of(c)
    }
}

/// The slug form of a human-readable name: lowercased, spaces replaced by
/// hyphens, all other characters passed to the lowercase mapping unmodified
/// (no transliteration, no punctuation stripping).
pub open spec fn slug_form(s: Seq<char>) -> Seq<char>
    decreases s.len(),
{
    if s.len() == 0 {
        seq![]
    } else {
        slug_piece(s[0]) + slug_form(s.drop_first())
    }
}

/// Whether the raw input is already in slug form.
pub open spec fn has_dash(s: Seq<char>) -> bool {
    exists|i: int| 0 <= i < s.len() && s[i] == '-'
}

/// Whether the raw input contains a space character.
pub open spec fn has_space(s: Seq<char>) -> bool {
    exists|i: int| 0 <= i < s.len() && s[i] == ' '
}

/// The slug a raw input normalizes to: an input that already contains a
/// hyphen is kept unchanged; any other input is slugified.
pub open spec fn file_form(s: Seq<char>) -> Seq<char> {
    if has_dash(s) {
        s
    } else {
        slug_form(s)
    }
}

/// The title a raw input normalizes to: an input that contains a hyphen is
/// humanized; any other input is kept unchanged.
pub open spec fn title_form(s: Seq<char>) -> Seq<char> {
    if has_dash(s) {
        human_form(s)
    } else {
        s
    }
}

/// The characters still to be emitted when humanizing the remaining input
/// `s`; `in_seg` says whether the current segment has already emitted a
/// character (so the next one is not capitalized).
spec fn human_emit(s: Seq<char>, in_seg: bool) -> Seq<char>
    decreases s.len(),
{
    if s.len() == 0 {
        seq![]
    } else if s[0] == '-' {
        seq![' '] + human_emit(s.drop_first(), false)
    } else if in_seg {
        seq![s[0]] + human_emit(s.drop_first(), true)
    } else {
        upper_of(s[0]) + human_emit(s.drop_first(), true)
    }
}

proof fn lemma_dash_split_from_len(s: Seq<char>, cur: Seq<char>)
    ensures
        dash_split_from(s, cur).len() >= 1,
    decreases s.len(),
{
    if s.len() == 0 {
    } else if s[0] == '-' {
        lemma_dash_split_from_len(s.drop_first(), seq![]);
    } else {
        lemma_dash_split_from_len(s.drop_first(), cur.push(s[0]));
    }
}

/// The split/capitalize/join description of humanization agrees with the
/// character-by-character emission that the executable loop follows.
proof fn lemma_split_emit(s: Seq<char>, cur: Seq<char>)
    ensures
        join_spaced(dash_split_from(s, cur).map_values(|seg: Seq<char>| capitalized(seg)))
            == capitalized(cur) + human_emit(s, cur.len() > 0),
    decreases s.len(),
{
    let caps = |seg: Seq<char>| capitalized(seg);
    if s.len() == 0 {
        assert(seq![cur].map_values(caps) =~= seq![capitalized(cur)]);
        assert(capitalized(cur) + human_emit(s, cur.len() > 0) =~= capitalized(cur));
    } else if s[0] == '-' {
        let rest = s.drop_first();
        lemma_split_emit(rest, seq![]);
        lemma_dash_split_from_len(rest, seq![]);
        let tail = dash_split_from(rest, seq![]);
        assert((seq![cur] + tail).map_values(caps) =~= seq![capitalized(cur)] + tail.map_values(
            caps,
        ));
        assert((seq![capitalized(cur)] + tail.map_values(caps)).drop_first() =~= tail.map_values(
            caps,
        ));
        assert(capitalized(Seq::<char>::empty()) =~= Seq::<char>::empty());
        assert(Seq::<char>::empty() + human_emit(rest, false) =~= human_emit(rest, false));
        assert(capitalized(cur) + seq![' '] + human_emit(rest, false) =~= capitalized(cur) + (
        seq![' '] + human_emit(rest, false)));
    } else {
        let rest = s.drop_first();
        lemma_split_emit(rest, cur.push(s[0]));
        if cur.len() == 0 {
            assert(capitalized(cur.push(s[0])) =~= upper_of(s[0]));
            assert(capitalized(cur) + human_emit(s, false) =~= upper_of(s[0]) + human_emit(
                rest,
                true,
            ));
        } else {
            assert(capitalized(cur.push(s[0])) =~= capitalized(cur) + seq![s[0]]);
            assert(capitalized(cur) + seq![s[0]] + human_emit(rest, true) =~= capitalized(cur) + (
            seq![s[0]] + human_emit(rest, true)));
        }
    }
}

proof fn lemma_human_form_emit(s: Seq<char>)
    ensures
        human_form(s) == human_emit(s, false),
{
    lemma_split_emit(s, seq![]);
    assert(capitalized(Seq::<char>::empty()) =~= Seq::<char>::empty());
    assert(Seq::<char>::empty() + human_emit(s, false) =~= human_emit(s, false));
}

/// Derives the human-readable title of a slug: capitalizes each
/// hyphen-delimited segment and joins the segments with single spaces.
pub fn humanize_name(name: &String) -> (r: String)
    ensures
        r@ == human_form(name@),
{
    let s: &str = name.as_str();
    let n: usize = s.unicode_len();
    let mut out = String::new();
    let mut in_seg: bool = false;
    let mut i: usize = 0;
    proof {
        lemma_human_form_emit(s@);
        assert(s@.skip(0) =~= s@);
    }
    while i < n
        invariant
            i <= n,
            n == s@.len(),
            s@ == name@,
            out@ + human_emit(s@.skip(i as int), in_seg) == human_form(s@),
        decreases n - i,
    {
        let ghost rem = s@.skip(i as int);
        proof {
            assert(rem.drop_first() =~= s@.skip(i as int + 1));
            assert(rem[0] == s@[i as int]);
        }
        let ghost out0 = out@;
        let c = s.get_char(i);
        if c == '-' {
            push_char(&mut out, ' ');
            proof {
                assert(out0.push(' ') + human_emit(rem.drop_first(), false) =~= out0 + human_emit(
                    rem,
                    in_seg,
                ));
            }
            in_seg = false;
        } else if in_seg {
            push_char(&mut out, c);
            proof {
                assert(out0.push(c) + human_emit(rem.drop_first(), true) =~= out0 + human_emit(
                    rem,
                    in_seg,
                ));
            }
        } else {
            let u = uppercase_char(c);
            out.append(u.as_str());
            proof {
                assert(out0 + upper_of(rem[0]) + human_emit(rem.drop_first(), true) =~= out0
                    + human_emit(rem, in_seg));
            }
            in_seg = true;
        }
        i = i + 1;
    }
    proof {
        assert(s@.skip(n as int) =~= Seq::<char>::empty());
        assert(out@ + Seq::<char>::empty() =~= out@);
    }
    out
}

/// Derives the slug of a human-readable name: every character is lowercased
/// and every space becomes a hyphen.
pub fn slugify_name(s: &str) -> (r: String)
    ensures
        r@ == slug_form(s@),
{
    let n: usize = s.unicode_len();
    let mut out = String::new();
    let mut i: usize = 0;
    proof {
        assert(s@.skip(0) =~= s@);
    }
    while i < n
        invariant
            i <= n,
            n == s@.len(),
            out@ + slug_form(s@.skip(i as int)) == slug_form(s@),
        decreases n - i,
    {
        let ghost rem = s@.skip(i as int);
        proof {
            assert(rem.drop_first() =~= s@.skip(i as int + 1));
            assert(rem[0] == s@[i as int]);
        }
        let ghost out0 = out@;
        let c = s.get_char(i);
        if c == ' ' {
            push_char(&mut out, '-');
            proof {
                assert(out0.push('-') + slug_form(rem.drop_first()) =~= out0 + (seq!['-']
                    + slug_form(rem.drop_first())));
            }
        } else {
            let lc = lowercase_char(c);
            out.append(lc.as_str());
            proof {
                assert(out0 + lower_of(rem[0]) + slug_form(rem.drop_first()) =~= out0 + (lower_of(
                    rem[0],
                ) + slug_form(rem.drop_first())));
            }
        }
        i = i + 1;
    }
    proof {
        assert(s@.skip(n as int) =~= Seq::<char>::empty());
        assert(out@ + Seq::<char>::empty() =~= out@);
    }
    out
}

fn contains_dash(s: &str) -> (r: bool)
    ensures
        r == has_dash(s@),
{
    let n: usize = s.unicode_len();
    let mut i: usize = 0;
    while i < n
        invariant
            i <= n,
            n == s@.len(),
            forall|j: int| 0 <= j < i ==> s@[j] != '-',
        decreases n - i,
    {
        if s.get_char(i) == '-' {
            assert(s@[i as int] == '-');
            return true;
        }
        i = i + 1;
    }
    false
}

/// The two canonical forms of a block name.
pub struct Name {
    /// Space-separated, capitalized display form, e.g. `"My Cool File V23"`.
    pub human_readable: String,
    /// Lowercase, hyphen-separated slug form, e.g. `"my-cool-file-v23"`.
    pub file_readable: String,
}

impl Name {
    /// Normalizes a raw name. An input that contains a hyphen is taken to be
    /// the slug already and the title is derived from it; any other input is
    /// taken to be the title already and the slug is derived from it.
    pub fn from(s: &str) -> (name: Name)
        ensures
            name.human_readable@ == title_form(s@),
            name.file_readable@ == file_form(s@),
    {
        if contains_dash(s) {
            let owned = s.to_owned();
            let human = humanize_name(&owned);
            Name { human_readable: human, file_readable: owned }
        } else {
            Name { human_readable: s.to_owned(), file_readable: slugify_name(s) }
        }
    }
}

/// A name with a space slugifies to something with a hyphen in it.
proof fn lemma_slug_form_space_dash(s: Seq<char>)
    requires
        has_space(s),
    ensures
        has_dash(slug_form(s)),
    decreases s.len(),
{
    let i = choose|i: int| 0 <= i < s.len() && s[i] == ' ';
    if s[0] == ' ' {
        assert(slug_form(s)[0] == '-');
        assert(0 < slug_form(s).len());
    } else {
        assert(s.drop_first()[i - 1] == ' ');
        lemma_slug_form_space_dash(s.drop_first());
        let j = choose|j: int|
            0 <= j < slug_form(s.drop_first()).len() && slug_form(s.drop_first())[j] == '-';
        let k = slug_piece(s[0]).len() + j;
        assert(slug_form(s)[k] == '-');
    }
}

/// Normalization is idempotent on every slug it can be seen to produce:
/// feeding the slug of a raw input that contains a hyphen or a space back in
/// as the raw name yields that same slug.
pub proof fn lemma_file_form_idempotent(s: Seq<char>)
    requires
        has_dash(s) || has_space(s),
    ensures
        file_form(file_form(s)) == file_form(s),
{
    if !has_dash(s) {
        lemma_slug_form_space_dash(s);
    }
}

} // verus!
