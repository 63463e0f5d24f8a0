//! Legacy tagged-corpus cleanup: `<seg>` wrappers, part-of-speech suffixes,
//! inter-character spaces in CJK text and spaces before punctuation.
use vstd::prelude::*;
use crate::text::{is_ws, is_whitespace, trim, trim_start, trim_end, trim_chars, copy_range, views, lemma_views_push};

verus! {

/// The sequence with every non-overlapping occurrence of `pat`, found left
/// to right, removed (`str::replace(pat, "")`).
pub open spec fn remove_all(s: Seq<char>, pat: Seq<char>) -> Seq<char>
    decreases s.len(),
{
    if s.len() == 0 {
        s
    } else if 0 < pat.len() <= s.len() && s.take(pat.len() as int) == pat {
        remove_all(s.skip(pat.len() as int), pat)
    } else {
        seq![s[0]] + remove_all(s.drop_first(), pat)
    }
}

pub open spec fn seg_open() -> Seq<char> { seq!['<', 's', 'e', 'g', '>'] }
pub open spec fn seg_close() -> Seq<char> { seq!['<', '/', 's', 'e', 'g', '>'] }

/// Removes `<seg>` and then `</seg>` markers.
pub open spec fn spec_strip_seg_wrappers(s: Seq<char>) -> Seq<char> {
    remove_all(remove_all(s, seg_open()), seg_close())
}

/// Whether `pat` occurs in `s` at position `i`.
fn matches_at(s: &Vec<char>, i: usize, pat: &Vec<char>) -> (r: bool)
    requires
        i <= s@.len(),
    ensures
        r == (pat@.len() <= s@.len() - i && s@.skip(i as int).take(pat@.len() as int) == pat@),
{
    if pat.len() > s.len() - i {
        return false;
    }
    let n = s.len();
    let mut k: usize = 0;
    while k < pat.len()
        invariant
            0 <= k <= pat@.len() <= s@.len() - i,
            n == s@.len(),
            i + pat@.len() <= n,
            forall|j: int| 0 <= j < k ==> s@[i + j] == pat@[j],
        decreases pat@.len() - k,
    {
        if s[i + k] != pat[k] {
            assert(s@.skip(i as int).take(pat@.len() as int)[k as int] == s@[i + k]);
            return false;
        }
        k += 1;
    }
    assert(s@.skip(i as int).take(pat@.len() as int) =~= pat@);
    true
}

/// `str::replace(pat, "")` on a character vector.
pub fn remove_all_exec(s: &Vec<char>, pat: &Vec<char>) -> (r: Vec<char>)
    requires
        pat@.len() > 0,
    ensures
        r@ == remove_all(s@, pat@),
{
    let mut out: Vec<char> = Vec::new();
    let mut i: usize = 0;
    assert(s@.skip(0) == s@);
    while i < s.len()
        invariant
            0 <= i <= s@.len(),
            pat@.len() > 0,
            out@ + remove_all(s@.skip(i as int), pat@) == remove_all(s@, pat@),
        decreases s@.len() - i,
    {
        let ghost rest = s@.skip(i as int);
        if matches_at(s, i, pat) {
            assert(rest.skip(pat@.len() as int) == s@.skip(i + pat@.len()));
            i += pat.len();
        } else {
            assert(rest.drop_first() == s@.skip(i as int + 1));
            assert(out@ + (seq![rest[0]] + remove_all(rest.drop_first(), pat@)) == out@.push(
                s@[i as int],
            ) + remove_all(rest.drop_first(), pat@));
            out.push(s[i]);
            i += 1;
        }
    }
    assert(s@.skip(i as int).len() == 0);
    assert(out@ + Seq::<char>::empty() == out@);
    out
}

pub fn strip_seg_wrappers(s: &Vec<char>) -> (r: Vec<char>)
    ensures
        r@ == spec_strip_seg_wrappers(s@),
{
    let open = vec!['<', 's', 'e', 'g', '>'];
    let close = vec!['<', '/', 's', 'e', 'g', '>'];
    assert(open@ == seg_open());
    assert(close@ == seg_close());
    let first = remove_all_exec(s, &open);
    remove_all_exec(&first, &close)
}


/// Unicode alphabetic-or-numeric, as `char::is_alphanumeric` decides it.
pub uninterp spec fn alphanumeric(c: char) -> bool;

/// Calls `char::is_alphanumeric`. The Unicode tables it consults are not
/// restated here; the result is named `alphanumeric`.
#[verifier::external_body]
fn is_alphanumeric(c: char) -> (r: bool)
    ensures
        r == alphanumeric(c),
{
    c.is_alphanumeric()
}

pub open spec fn is_ascii_alpha(c: char) -> bool {
    ('a' <= c && c <= 'z') || ('A' <= c && c <= 'Z')
}

pub open spec fn is_ascii_upper_or_digit(c: char) -> bool {
    ('A' <= c && c <= 'Z') || ('0' <= c && c <= '9')
}

/// A part-of-speech tag: one to twelve upper-case ASCII letters and digits,
/// at least one of them a letter.
pub open spec fn is_pos_tag(m: Seq<char>) -> bool {
    &&& 0 < m.len() <= 12
    &&& exists|i: int| 0 <= i < m.len() && is_ascii_alpha(#[trigger] m[i])
    &&& forall|i: int| 0 <= i < m.len() ==> is_ascii_upper_or_digit(#[trigger] m[i])
}

/// A marker made only of characters that are neither letters nor digits.
pub open spec fn is_punctuation_marker(m: Seq<char>) -> bool {
    forall|i: int| 0 <= i < m.len() ==> !alphanumeric(#[trigger] m[i])
}

/// Position of the last `_` (`str::rfind('_')`).
pub open spec fn last_underscore(t: Seq<char>) -> Option<int>
    decreases t.len(),
{
    if t.len() == 0 {
        None
    } else if t.last() == '_' {
        Some(t.len() - 1)
    } else {
        last_underscore(t.drop_last())
    }
}

/// A token with its tag suffix removed: `word_TAG` and `word_,` become `word`.
pub open spec fn strip_token(t: Seq<char>) -> Seq<char> {
    match last_underscore(t) {
        Some(k) => {
            let word = t.take(k);
            let marker = t.skip(k + 1);
            if (is_pos_tag(marker) || is_punctuation_marker(marker)) && word.len() > 0 {
                word
            } else {
                t
            }
        },
        None => t,
    }
}

/// `str::split_whitespace` from a scanning position: `cur` is the current token.
pub open spec fn tokens_from(rest: Seq<char>, cur: Seq<char>) -> Seq<Seq<char>>
    decreases rest.len(),
{
    if rest.len() == 0 {
        if cur.len() > 0 { seq![cur] } else { seq![] }
    } else if is_ws(rest[0]) {
        (if cur.len() > 0 { seq![cur] } else { seq![] }) + tokens_from(rest.drop_first(), seq![])
    } else {
        tokens_from(rest.drop_first(), cur.push(rest[0]))
    }
}

/// The maximal runs of non-white-space characters.
pub open spec fn tokens(s: Seq<char>) -> Seq<Seq<char>> {
    tokens_from(s, seq![])
}

/// The pieces joined with `sep` between consecutive ones.
pub open spec fn join(pieces: Seq<Seq<char>>, sep: Seq<char>) -> Seq<char>
    decreases pieces.len(),
{
    if pieces.len() == 0 {
        seq![]
    } else if pieces.len() == 1 {
        pieces[0]
    } else {
        join(pieces.drop_last(), sep) + sep + pieces.last()
    }
}

/// Tokens re-joined by single spaces, each with its tag suffix removed.
pub open spec fn spec_strip_pos_suffixes(s: Seq<char>) -> Seq<char> {
    join(tokens(s).map_values(|t: Seq<char>| strip_token(t)), seq![' '])
}

fn is_ascii_alphabetic(c: char) -> (r: bool)
    ensures r == is_ascii_alpha(c),
{
    ('a' <= c && c <= 'z') || ('A' <= c && c <= 'Z')
}

fn is_pos_tag_exec(m: &Vec<char>) -> (r: bool)
    ensures r == is_pos_tag(m@),
{
    if m.len() == 0 || m.len() > 12 {
        return false;
    }
    let mut any_alpha = false;
    let mut i: usize = 0;
    while i < m.len()
        invariant
            0 <= i <= m@.len(),
            forall|j: int| 0 <= j < i ==> is_ascii_upper_or_digit(#[trigger] m@[j]),
            any_alpha == exists|j: int| 0 <= j < i && is_ascii_alpha(#[trigger] m@[j]),
        decreases m@.len() - i,
    {
        let c = m[i];
        if !(('A' <= c && c <= 'Z') || ('0' <= c && c <= '9')) {
            return false;
        }
        if is_ascii_alphabetic(c) {
            any_alpha = true;
        }
        i += 1;
    }
    any_alpha
}

fn is_punctuation_marker_exec(m: &Vec<char>) -> (r: bool)
    ensures r == is_punctuation_marker(m@),
{
    let mut i: usize = 0;
    while i < m.len()
        invariant
            0 <= i <= m@.len(),
            forall|j: int| 0 <= j < i ==> !alphanumeric(#[trigger] m@[j]),
        decreases m@.len() - i,
    {
        if is_alphanumeric(m[i]) {
            return false;
        }
        i += 1;
    }
    true
}

fn last_underscore_exec(t: &Vec<char>) -> (r: Option<usize>)
    ensures
        r matches Some(k) ==> last_underscore(t@) == Some(k as int) && k < t.len(),
        r is None ==> last_underscore(t@) is None,
{
    let mut i: usize = t.len();
    assert(t@.take(t@.len() as int) == t@);
    while i > 0
        invariant
            0 <= i <= t@.len(),
            last_underscore(t@) == last_underscore(t@.take(i as int)),
        decreases i,
    {
        assert(t@.take(i as int).drop_last() == t@.take(i as int - 1));
        if t[i - 1] == '_' {
            return Some(i - 1);
        }
        i -= 1;
    }
    None
}

fn strip_token_exec(t: &Vec<char>) -> (r: Vec<char>)
    ensures r@ == strip_token(t@),
{
    match last_underscore_exec(t) {
        Some(k) => {
            let word = copy_range(t, 0, k);
            let marker = copy_range(t, k + 1, t.len());
            assert(word@ == t@.take(k as int));
            assert(marker@ == t@.skip(k as int + 1));
            if (is_pos_tag_exec(&marker) || is_punctuation_marker_exec(&marker)) && word.len() > 0 {
                word
            } else {
                copy_range(t, 0, t.len())
            }
        },
        None => copy_range(t, 0, t.len()),
    }
}

/// `str::split_whitespace` on a character vector.
pub fn split_tokens(v: &Vec<char>) -> (r: Vec<Vec<char>>)
    ensures
        views(r@) == tokens(v@),
{
    let mut r: Vec<Vec<char>> = Vec::new();
    assert(views(r@) =~= Seq::<Seq<char>>::empty());
    assert(v@.skip(0) == v@);
    assert(v@.subrange(0, 0) == Seq::<char>::empty());
    let mut start: usize = 0;
    let mut i: usize = 0;
    while i < v.len()
        invariant
            0 <= start <= i <= v@.len(),
            views(r@) + tokens_from(v@.skip(i as int), v@.subrange(start as int, i as int))
                == tokens(v@),
        decreases v@.len() - i,
    {
        let ghost rest = v@.skip(i as int);
        let ghost cur = v@.subrange(start as int, i as int);
        assert(rest.drop_first() == v@.skip(i as int + 1));
        if is_whitespace(v[i]) {
            assert(v@.subrange(i as int + 1, i as int + 1) == Seq::<char>::empty());
            if start < i {
                let tok = copy_range(v, start, i);
                let ghost old_r = views(r@);
                proof { lemma_views_push(r@, tok); }
                r.push(tok);
                assert(old_r + (seq![cur] + tokens_from(rest.drop_first(), seq![]))
                    == old_r.push(cur) + tokens_from(rest.drop_first(), seq![]));
            } else {
                assert(Seq::<Seq<char>>::empty() + tokens_from(rest.drop_first(), seq![])
                    == tokens_from(rest.drop_first(), seq![]));
            }
            start = i + 1;
        } else {
            assert(cur.push(rest[0]) == v@.subrange(start as int, i as int + 1));
        }
        i += 1;
    }
    let ghost cur = v@.subrange(start as int, i as int);
    if start < v.len() {
        let tok = copy_range(v, start, v.len());
        let ghost old_r = views(r@);
        proof { lemma_views_push(r@, tok); }
        r.push(tok);
        assert(old_r + seq![cur] == old_r.push(cur));
    } else {
        assert(views(r@) + Seq::<Seq<char>>::empty() == views(r@));
    }
    r
}

/// Removes part-of-speech suffixes from each white-space separated token and
/// re-joins the tokens with single spaces.
pub fn strip_pos_suffixes(v: &Vec<char>) -> (r: Vec<char>)
    ensures
        r@ == spec_strip_pos_suffixes(v@),
{
    let toks = split_tokens(v);
    let ghost stripped = tokens(v@).map_values(|t: Seq<char>| strip_token(t));
    let mut out: Vec<char> = Vec::new();
    let mut i: usize = 0;
    while i < toks.len()
        invariant
            0 <= i <= toks@.len(),
            views(toks@) == tokens(v@),
            stripped == tokens(v@).map_values(|t: Seq<char>| strip_token(t)),
            out@ == join(stripped.take(i as int), seq![' ']),
        decreases toks@.len() - i,
    {
        assert(views(toks@)[i as int] == toks@[i as int]@);
        let piece = strip_token_exec(&toks[i]);
        assert(stripped.take(i as int + 1).drop_last() == stripped.take(i as int));
        if i > 0 {
            out.push(' ');
        }
        let mut k: usize = 0;
        let ghost base = out@;
        while k < piece.len()
            invariant
                0 <= k <= piece@.len(),
                out@ == base + piece@.take(k as int),
            decreases piece@.len() - k,
        {
            out.push(piece[k]);
            assert(piece@.take(k as int + 1) == piece@.take(k as int).push(piece@[k as int]));
            k += 1;
        }
        assert(piece@.take(piece@.len() as int) == piece@);
        proof {
            if i == 0 {
                assert(stripped.take(1) == seq![stripped[0]]);
            }
        }
        i += 1;
    }
    assert(stripped.take(toks@.len() as int) == stripped);
    out
}


/// CJK unified ideographs, extension A and compatibility ideographs.
pub open spec fn is_cjk(c: char) -> bool {
    let u = c as u32;
    (0x3400 <= u <= 0x4dbf) || (0x4e00 <= u <= 0x9fff) || (0xf900 <= u <= 0xfaff)
}

/// Full-width and ASCII sentence punctuation.
pub open spec fn is_sentence_punct(c: char) -> bool {
    c == '，' || c == '。' || c == '！' || c == '？' || c == '；' || c == '：' || c == '、' || c == ','
        || c == '.' || c == '!' || c == '?' || c == ';' || c == ':'
}

fn is_cjk_exec(c: char) -> (r: bool)
    ensures r == is_cjk(c),
{
    let u = c as u32;
    (0x3400 <= u && u <= 0x4dbf) || (0x4e00 <= u && u <= 0x9fff) || (0xf900 <= u && u <= 0xfaff)
}

fn is_sentence_punctuation(c: char) -> (r: bool)
    ensures r == is_sentence_punct(c),
{
    c == '，' || c == '。' || c == '！' || c == '？' || c == '；' || c == '：' || c == '、' || c == ','
        || c == '.' || c == '!' || c == '?' || c == ';' || c == ':'
}

/// Output after the first characters: a punctuation mark drops one space
/// directly before it.
pub open spec fn spec_compact_punctuation_spaces(s: Seq<char>) -> Seq<char>
    decreases s.len(),
{
    if s.len() == 0 {
        seq![]
    } else {
        let o = spec_compact_punctuation_spaces(s.drop_last());
        let c = s.last();
        if is_sentence_punct(c) && o.len() > 0 && o.last() == ' ' {
            o.drop_last().push(c)
        } else {
            o.push(c)
        }
    }
}

pub fn compact_punctuation_spaces(v: &Vec<char>) -> (r: Vec<char>)
    ensures
        r@ == spec_compact_punctuation_spaces(v@),
{
    let mut out: Vec<char> = Vec::new();
    let mut i: usize = 0;
    assert(v@.take(0) == Seq::<char>::empty());
    while i < v.len()
        invariant
            0 <= i <= v@.len(),
            out@ == spec_compact_punctuation_spaces(v@.take(i as int)),
        decreases v@.len() - i,
    {
        let c = v[i];
        assert(v@.take(i as int + 1).drop_last() == v@.take(i as int));
        if is_sentence_punctuation(c) && out.len() > 0 && out[out.len() - 1] == ' ' {
            out.pop();
        }
        out.push(c);
        i += 1;
    }
    assert(v@.take(v@.len() as int) == v@);
    out
}

/// The first character that is not white space.
pub open spec fn next_non_ws(s: Seq<char>) -> Option<char>
    decreases s.len(),
{
    if s.len() == 0 {
        None
    } else if !is_ws(s[0]) {
        Some(s[0])
    } else {
        next_non_ws(s.drop_first())
    }
}

/// A gap between two CJK characters, or between CJK and punctuation, carries no space.
pub open spec fn removable_gap(prev: Option<char>, next: Option<char>) -> bool {
    match (prev, next) {
        (Some(l), Some(r)) => (is_cjk(l) && (is_cjk(r) || is_sentence_punct(r))) || (
        is_sentence_punct(l) && is_cjk(r)),
        _ => false,
    }
}

/// Output after the first `i` characters of `s`: white space collapses to one
/// space, except where the gap is removable.
pub open spec fn cjk_prefix(s: Seq<char>, i: nat) -> Seq<char>
    decreases i,
{
    if i == 0 {
        seq![]
    } else {
        let o = cjk_prefix(s, (i - 1) as nat);
        let c = s[i - 1];
        if is_ws(c) {
            let prev = if o.len() > 0 { Some(o.last()) } else { None };
            if removable_gap(prev, next_non_ws(s.skip(i as int))) || (o.len() > 0 && o.last()
                == ' ') {
                o
            } else {
                o.push(' ')
            }
        } else {
            o.push(c)
        }
    }
}

/// Removes spaces between CJK characters and CJK punctuation, collapses other
/// white-space runs to single spaces, and trims.
pub open spec fn spec_compact_cjk_spaces(s: Seq<char>) -> Seq<char> {
    trim(cjk_prefix(s, s.len()))
}

fn next_non_whitespace(v: &Vec<char>, from: usize) -> (r: Option<char>)
    requires
        from <= v@.len(),
    ensures
        r == next_non_ws(v@.skip(from as int)),
{
    let mut j = from;
    while j < v.len()
        invariant
            from <= j <= v@.len(),
            next_non_ws(v@.skip(from as int)) == next_non_ws(v@.skip(j as int)),
        decreases v@.len() - j,
    {
        assert(v@.skip(j as int).drop_first() == v@.skip(j as int + 1));
        if !is_whitespace(v[j]) {
            return Some(v[j]);
        }
        j += 1;
    }
    None
}

fn removable(prev: Option<char>, next: Option<char>) -> (r: bool)
    ensures r == removable_gap(prev, next),
{
    match (prev, next) {
        (Some(l), Some(r)) => (is_cjk_exec(l) && (is_cjk_exec(r) || is_sentence_punctuation(r)))
            || (is_sentence_punctuation(l) && is_cjk_exec(r)),
        _ => false,
    }
}

pub fn compact_cjk_spaces(v: &Vec<char>) -> (r: Vec<char>)
    ensures
        r@ == spec_compact_cjk_spaces(v@),
{
    let mut out: Vec<char> = Vec::new();
    let mut i: usize = 0;
    while i < v.len()
        invariant
            0 <= i <= v@.len(),
            out@ == cjk_prefix(v@, i as nat),
        decreases v@.len() - i,
    {
        let c = v[i];
        if is_whitespace(c) {
            let previous = if out.len() > 0 { Some(out[out.len() - 1]) } else { None };
            let next = next_non_whitespace(v, i + 1);
            if !(removable(previous, next) || (out.len() > 0 && out[out.len() - 1] == ' ')) {
                out.push(' ');
            }
        } else {
            out.push(c);
        }
        i += 1;
    }
    trim_chars(&out)
}


/// The sentence punctuation marks are exactly these thirteen: the full-width
/// comma, full stop, exclamation and question marks, semicolon, colon and
/// enumeration comma, and the ASCII comma, full stop, exclamation and
/// question marks, semicolon and colon.
pub proof fn sentence_marks_are_listed(c: char)
    ensures
        is_sentence_punct(c) <==> seq!['，', '。', '！', '？', '；', '：', '、', ',', '.', '!', '?', ';', ':'].contains(c),
{
    let marks = seq!['，', '。', '！', '？', '；', '：', '、', ',', '.', '!', '?', ';', ':'];
    if is_sentence_punct(c) {
        if c == '，' { assert(marks[0] == c); }
        else if c == '。' { assert(marks[1] == c); }
        else if c == '！' { assert(marks[2] == c); }
        else if c == '？' { assert(marks[3] == c); }
        else if c == '；' { assert(marks[4] == c); }
        else if c == '：' { assert(marks[5] == c); }
        else if c == '、' { assert(marks[6] == c); }
        else if c == ',' { assert(marks[7] == c); }
        else if c == '.' { assert(marks[8] == c); }
        else if c == '!' { assert(marks[9] == c); }
        else if c == '?' { assert(marks[10] == c); }
        else if c == ';' { assert(marks[11] == c); }
        else { assert(marks[12] == c); }
    }
}

/// No two neighbouring characters are both spaces.
pub open spec fn no_double_space(s: Seq<char>) -> bool {
    forall|i: int| 0 <= i < s.len() - 1 ==> !(#[trigger] s[i] == ' ' && s[i + 1] == ' ')
}

proof fn lemma_compact_punctuation(s: Seq<char>)
    requires
        no_double_space(s),
    ensures
        ({
            let o = spec_compact_punctuation_spaces(s);
            &&& o.len() == 0 <==> s.len() == 0
            &&& s.len() > 0 ==> o.last() == s.last()
            &&& no_double_space(o)
            &&& forall|i: int| 0 <= i < o.len() - 1 && #[trigger] o[i] == ' ' ==> !is_sentence_punct(o[i + 1])
        }),
    decreases s.len(),
{
    if s.len() > 0 {
        let front = s.drop_last();
        assert forall|i: int| 0 <= i < front.len() - 1 implies !(#[trigger] front[i] == ' ' && front[i + 1] == ' ') by {
            assert(front[i] == s[i] && front[i + 1] == s[i + 1]);
        }
        lemma_compact_punctuation(front);
        let o = spec_compact_punctuation_spaces(front);
        let c = s.last();
        if front.len() > 0 {
            assert(front.last() == s[s.len() - 2]);
        }
        if is_sentence_punct(c) && o.len() > 0 && o.last() == ' ' {
            let r = o.drop_last().push(c);
            assert forall|i: int| 0 <= i < r.len() - 1 && #[trigger] r[i] == ' ' implies !is_sentence_punct(r[i + 1]) by {
                if i == r.len() - 2 {
                    assert(r[i] == o[o.len() - 2]);
                    assert(o[o.len() - 1] == ' ');
                } else {
                    assert(r[i] == o[i] && r[i + 1] == o[i + 1]);
                }
            }
            assert forall|i: int| 0 <= i < r.len() - 1 implies !(#[trigger] r[i] == ' ' && r[i + 1] == ' ') by {
                if i < r.len() - 2 {
                    assert(r[i] == o[i] && r[i + 1] == o[i + 1]);
                }
            }
        } else {
            let r = o.push(c);
            assert forall|i: int| 0 <= i < r.len() - 1 && #[trigger] r[i] == ' ' implies !is_sentence_punct(r[i + 1]) by {
                if i < r.len() - 2 {
                    assert(r[i] == o[i] && r[i + 1] == o[i + 1]);
                }
            }
            assert forall|i: int| 0 <= i < r.len() - 1 implies !(#[trigger] r[i] == ' ' && r[i + 1] == ' ') by {
                if i < r.len() - 2 {
                    assert(r[i] == o[i] && r[i + 1] == o[i + 1]);
                }
            }
        }
    }
}

/// A text without doubled spaces comes out of punctuation compaction with no
/// space directly before any sentence punctuation mark, and ends as it did.
pub proof fn no_space_before_marks(s: Seq<char>)
    requires
        no_double_space(s),
    ensures
        ({
            let o = spec_compact_punctuation_spaces(s);
            let marks = seq!['，', '。', '！', '？', '；', '：', '、', ',', '.', '!', '?', ';', ':'];
            &&& forall|i: int| 0 <= i < o.len() - 1 && #[trigger] o[i] == ' ' ==> !marks.contains(o[i + 1])
            &&& s.len() > 0 ==> o.len() > 0 && o.last() == s.last()
        }),
{
    lemma_compact_punctuation(s);
    let o = spec_compact_punctuation_spaces(s);
    assert forall|i: int| 0 <= i < o.len() - 1 && #[trigger] o[i] == ' ' implies
        !seq!['，', '。', '！', '？', '；', '：', '、', ',', '.', '!', '?', ';', ':'].contains(o[i + 1]) by {
        sentence_marks_are_listed(o[i + 1]);
    }
}


/// What CJK compaction keeps of a prefix: a space only where its neighbours
/// do not make the gap removable (the last one waits for the next character
/// the text brings), never two spaces in a row, and no other white space.
pub open spec fn cjk_prefix_shape(s: Seq<char>, i: nat, o: Seq<char>) -> bool {
    &&& forall|j: int| 0 < j < o.len() - 1 && #[trigger] o[j] == ' ' ==> !removable_gap(Some(o[j - 1]), Some(o[j + 1]))
    &&& (o.len() >= 2 && o.last() == ' ') ==> !removable_gap(Some(o[o.len() - 2]), next_non_ws(s.skip(i as int)))
    &&& no_double_space(o)
    &&& forall|j: int| 0 <= j < o.len() ==> #[trigger] o[j] == ' ' || !is_ws(o[j])
}

proof fn lemma_cjk_prefix_shape(s: Seq<char>, i: nat)
    requires
        i <= s.len(),
    ensures
        cjk_prefix_shape(s, i, cjk_prefix(s, i)),
    decreases i,
{
    if i > 0 {
        lemma_cjk_prefix_shape(s, (i - 1) as nat);
        let o = cjk_prefix(s, (i - 1) as nat);
        let c = s[i - 1];
        assert(s.skip(i - 1).drop_first() =~= s.skip(i as int));
        assert(s.skip(i - 1)[0] == c);
        let r = cjk_prefix(s, i);
        if is_ws(c) {
            let prev = if o.len() > 0 { Some(o.last()) } else { None };
            if removable_gap(prev, next_non_ws(s.skip(i as int))) || (o.len() > 0 && o.last() == ' ') {
                assert(r == o);
            } else {
                assert(r == o.push(' '));
                assert forall|j: int| 0 < j < r.len() - 1 && #[trigger] r[j] == ' ' implies
                    !removable_gap(Some(r[j - 1]), Some(r[j + 1])) by {
                    assert(r[j] == o[j] && r[j - 1] == o[j - 1]);
                    if j < o.len() - 1 {
                        assert(r[j + 1] == o[j + 1]);
                    }
                }
                assert forall|j: int| 0 <= j < r.len() - 1 implies !(#[trigger] r[j] == ' ' && r[j + 1] == ' ') by {
                    if j < o.len() - 1 {
                        assert(r[j] == o[j] && r[j + 1] == o[j + 1]);
                    }
                }
                assert forall|j: int| 0 <= j < r.len() implies #[trigger] r[j] == ' ' || !is_ws(r[j]) by {
                    if j < o.len() {
                        assert(r[j] == o[j]);
                    }
                }
            }
        } else {
            assert(r == o.push(c));
            assert(next_non_ws(s.skip(i - 1)) == Some(c));
            assert forall|j: int| 0 < j < r.len() - 1 && #[trigger] r[j] == ' ' implies
                !removable_gap(Some(r[j - 1]), Some(r[j + 1])) by {
                assert(r[j] == o[j] && r[j - 1] == o[j - 1]);
                if j < o.len() - 1 {
                    assert(r[j + 1] == o[j + 1]);
                }
            }
            assert forall|j: int| 0 <= j < r.len() - 1 implies !(#[trigger] r[j] == ' ' && r[j + 1] == ' ') by {
                if j < o.len() - 1 {
                    assert(r[j] == o[j] && r[j + 1] == o[j + 1]);
                }
            }
            assert forall|j: int| 0 <= j < r.len() implies #[trigger] r[j] == ' ' || !is_ws(r[j]) by {
                if j < o.len() {
                    assert(r[j] == o[j]);
                }
            }
        }
    }
}

proof fn lemma_trim_start_skips(s: Seq<char>) -> (k: int)
    ensures
        0 <= k <= s.len(),
        trim_start(s) == s.skip(k),
        k == s.len() || !is_ws(s[k]),
        forall|j: int| 0 <= j < k ==> is_ws(#[trigger] s[j]),
    decreases s.len(),
{
    if s.len() > 0 && is_ws(s[0]) {
        let k = lemma_trim_start_skips(s.drop_first());
        assert(s.drop_first().skip(k) =~= s.skip(k + 1));
        if k < s.len() - 1 {
            assert(s.drop_first()[k] == s[k + 1]);
        }
        assert forall|j: int| 0 <= j < k + 1 implies is_ws(#[trigger] s[j]) by {
            if j > 0 {
                assert(s.drop_first()[j - 1] == s[j]);
            }
        }
        k + 1
    } else {
        assert(s.skip(0) =~= s);
        0
    }
}

proof fn lemma_trim_end_takes(s: Seq<char>) -> (k: int)
    ensures
        0 <= k <= s.len(),
        trim_end(s) == s.take(k),
        k == 0 || !is_ws(s[k - 1]),
        forall|j: int| k <= j < s.len() ==> is_ws(#[trigger] s[j]),
    decreases s.len(),
{
    if s.len() > 0 && is_ws(s.last()) {
        let k = lemma_trim_end_takes(s.drop_last());
        assert(s.drop_last().take(k) =~= s.take(k));
        assert forall|j: int| k <= j < s.len() implies is_ws(#[trigger] s[j]) by {
            if j < s.len() - 1 {
                assert(s.drop_last()[j] == s[j]);
            }
        }
        k
    } else {
        assert(s.take(s.len() as int) =~= s);
        s.len() as int
    }
}

/// After CJK compaction the only white space left is single spaces inside
/// the text, and none of them stands between two CJK characters, between a
/// CJK character and a following sentence punctuation mark, or between such
/// a mark and a following CJK character.
pub proof fn cjk_compaction_leaves_no_removable_gap(s: Seq<char>)
    ensures
        ({
            let o = spec_compact_cjk_spaces(s);
            let marks = seq!['，', '。', '！', '？', '；', '：', '、', ',', '.', '!', '?', ';', ':'];
            forall|j: int| 0 <= j < o.len() && is_ws(#[trigger] o[j]) ==> {
                &&& o[j] == ' '
                &&& 0 < j < o.len() - 1
                &&& !is_ws(o[j - 1]) && !is_ws(o[j + 1])
                &&& !(is_cjk(o[j - 1]) && (is_cjk(o[j + 1]) || marks.contains(o[j + 1])))
                &&& !(marks.contains(o[j - 1]) && is_cjk(o[j + 1]))
            }
        }),
{
    let p = cjk_prefix(s, s.len());
    lemma_cjk_prefix_shape(s, s.len());
    let a = lemma_trim_start_skips(p);
    let t0 = p.skip(a);
    let b = lemma_trim_end_takes(t0);
    let o = t0.take(b);
    assert(o == spec_compact_cjk_spaces(s));
    let marks = seq!['，', '。', '！', '？', '；', '：', '、', ',', '.', '!', '?', ';', ':'];
    assert forall|j: int| 0 <= j < o.len() && is_ws(#[trigger] o[j]) implies {
        &&& o[j] == ' '
        &&& 0 < j < o.len() - 1
        &&& !is_ws(o[j - 1]) && !is_ws(o[j + 1])
        &&& !(is_cjk(o[j - 1]) && (is_cjk(o[j + 1]) || marks.contains(o[j + 1])))
        &&& !(marks.contains(o[j - 1]) && is_cjk(o[j + 1]))
    } by {
        assert(o[j] == p[a + j]);
        assert(p[a + j] == ' ' || !is_ws(p[a + j]));
        assert(j != 0);
        assert(j != o.len() - 1);
        assert(o[j - 1] == p[a + j - 1]);
        assert(o[j + 1] == p[a + j + 1]);
        assert(!(p[a + j - 1] == ' ' && p[a + j] == ' '));
        assert(!(p[a + j] == ' ' && p[a + j + 1] == ' '));
        assert(p[a + j - 1] == ' ' || !is_ws(p[a + j - 1]));
        assert(p[a + j + 1] == ' ' || !is_ws(p[a + j + 1]));
        assert(!removable_gap(Some(p[a + j - 1]), Some(p[a + j + 1])));
        sentence_marks_are_listed(o[j - 1]);
        sentence_marks_are_listed(o[j + 1]);
    }
}


/// The characters of a text other than spaces, in order.
pub open spec fn non_spaces(s: Seq<char>) -> Seq<char> {
    s.filter(|c: char| c != ' ')
}

/// The characters of a text other than white space, in order.
pub open spec fn non_white(s: Seq<char>) -> Seq<char> {
    s.filter(|c: char| !is_ws(c))
}

/// Punctuation compaction removes spaces and nothing else: every other
/// character stays, in order, and the text never grows.
pub proof fn punctuation_compaction_removes_only_spaces(s: Seq<char>)
    ensures
        non_spaces(spec_compact_punctuation_spaces(s)) == non_spaces(s),
        spec_compact_punctuation_spaces(s).len() <= s.len(),
    decreases s.len(),
{
    reveal(Seq::filter);
    if s.len() > 0 {
        let front = s.drop_last();
        punctuation_compaction_removes_only_spaces(front);
        let o = spec_compact_punctuation_spaces(front);
        let c = s.last();
        if is_sentence_punct(c) && o.len() > 0 && o.last() == ' ' {
            let r = o.drop_last().push(c);
            assert(r.drop_last() =~= o.drop_last());
            assert(non_spaces(o) == non_spaces(o.drop_last()));
        } else {
            let r = o.push(c);
            assert(r.drop_last() =~= o);
        }
    }
}

proof fn lemma_white_filters_to_nothing(s: Seq<char>)
    requires
        forall|j: int| 0 <= j < s.len() ==> is_ws(#[trigger] s[j]),
    ensures
        non_white(s) == Seq::<char>::empty(),
    decreases s.len(),
{
    reveal(Seq::filter);
    if s.len() > 0 {
        assert(s.drop_last().len() == s.len() - 1);
        assert forall|j: int| 0 <= j < s.drop_last().len() implies is_ws(#[trigger] s.drop_last()[j]) by {
            assert(s.drop_last()[j] == s[j]);
        }
        lemma_white_filters_to_nothing(s.drop_last());
    }
}

proof fn lemma_cjk_prefix_keeps_text(s: Seq<char>, i: nat)
    requires
        i <= s.len(),
    ensures
        non_white(cjk_prefix(s, i)) == non_white(s.take(i as int)),
    decreases i,
{
    reveal(Seq::filter);
    if i > 0 {
        lemma_cjk_prefix_keeps_text(s, (i - 1) as nat);
        let o = cjk_prefix(s, (i - 1) as nat);
        assert(s.take(i as int).drop_last() =~= s.take(i - 1));
        assert(s.take(i as int).last() == s[i - 1]);
        let r = cjk_prefix(s, i);
        if r != o {
            assert(r.drop_last() =~= o);
        }
    }
}

/// CJK compaction removes and collapses white space and nothing else: every
/// other character stays, in order.
pub proof fn cjk_compaction_keeps_text(s: Seq<char>)
    ensures
        non_white(spec_compact_cjk_spaces(s)) == non_white(s),
{
    let p = cjk_prefix(s, s.len());
    lemma_cjk_prefix_keeps_text(s, s.len());
    assert(s.take(s.len() as int) =~= s);
    let a = lemma_trim_start_skips(p);
    let t0 = p.skip(a);
    let b = lemma_trim_end_takes(t0);
    assert(p =~= p.take(a) + t0);
    assert(t0 =~= t0.take(b) + t0.skip(b));
    assert forall|j: int| 0 <= j < p.take(a).len() implies is_ws(#[trigger] p.take(a)[j]) by {
        assert(p.take(a)[j] == p[j]);
    }
    assert forall|j: int| 0 <= j < t0.skip(b).len() implies is_ws(#[trigger] t0.skip(b)[j]) by {
        assert(t0.skip(b)[j] == t0[b + j]);
    }
    lemma_white_filters_to_nothing(p.take(a));
    lemma_white_filters_to_nothing(t0.skip(b));
    Seq::filter_distributes_over_add(p.take(a), t0, |c: char| !is_ws(c));
    Seq::filter_distributes_over_add(t0.take(b), t0.skip(b), |c: char| !is_ws(c));
    assert(non_white(p) =~= non_white(t0));
    assert(non_white(t0) =~= non_white(t0.take(b)));
}


/// The CJK characters are the unified ideographs (U+4E00 to U+9FFF), their
/// extension A (U+3400 to U+4DBF) and the compatibility ideographs (U+F900
/// to U+FAFF).
pub proof fn cjk_blocks(c: char)
    ensures
        is_cjk(c) <==> (0x4e00 <= (c as u32) <= 0x9fff || 0x3400 <= (c as u32) <= 0x4dbf || 0xf900 <= (c as u32) <= 0xfaff),
{
}

} // verus!
