//! Deterministic sentence rules and legacy text cleanup.
use vstd::prelude::*;
use crate::import::{ImportCleanup, ImportProfile, SegmentBoundary, SegmentPreview, SegmentationMode, SegmentationPreview};
use crate::import::cleanup::{
    spec_strip_seg_wrappers, spec_strip_pos_suffixes, spec_compact_cjk_spaces,
    spec_compact_punctuation_spaces, strip_seg_wrappers, strip_pos_suffixes, compact_cjk_spaces,
    compact_punctuation_spaces, join,
};
use crate::text::{lines, split_lines, trim, trim_chars, copy_range, views, lemma_views_push, is_blank, lemma_trim_idempotent};
use crate::strings::{string_of, push_char};

verus! {

/// Characters that end a sentence under the sentence rules.
pub open spec fn is_terminator(c: char) -> bool {
    c == '。' || c == '！' || c == '？' || c == '!' || c == '?' || c == '.'
}

/// A fragment of the text, why it ends, and the punctuation that ended it.
pub type Candidate = (Seq<char>, SegmentBoundary, Option<char>);

/// Sentence fragments from a scanning position; `cur` is the open fragment.
/// A fragment ends after each terminator; fragments that are only white
/// space are dropped; a non-blank remainder ends at the text's end.
pub open spec fn sentences_from(rest: Seq<char>, cur: Seq<char>) -> Seq<Candidate>
    decreases rest.len(),
{
    if rest.len() == 0 {
        if trim(cur).len() > 0 {
            seq![(cur, SegmentBoundary::TextEnd, None)]
        } else {
            seq![]
        }
    } else {
        let c = rest[0];
        let next = cur.push(c);
        if is_terminator(c) {
            (if trim(next).len() > 0 {
                seq![(next, SegmentBoundary::SentencePunctuation, Some(c))]
            } else {
                seq![]
            }) + sentences_from(rest.drop_first(), seq![])
        } else {
            sentences_from(rest.drop_first(), next)
        }
    }
}

pub open spec fn sentences(s: Seq<char>) -> Seq<Candidate> {
    sentences_from(s, seq![])
}

/// The fragments a profile's mode cuts a text into.
pub open spec fn candidates(text: Seq<char>, mode: SegmentationMode) -> Seq<Candidate> {
    match mode {
        SegmentationMode::SentenceRules => sentences(text),
        _ => lines(text).map_values(
            |l: Seq<char>| (l, SegmentBoundary::NonEmptyLine, None::<char>),
        ),
    }
}

/// A fragment as previewed: cleaned content, trimmed original, and the stages that changed it.
pub struct PreviewModel {
    pub content: Seq<char>,
    pub original: Seq<char>,
    pub boundary: SegmentBoundary,
    pub marker: Option<char>,
    pub cleanups: Seq<ImportCleanup>,
}

pub open spec fn apply_cleanup(kind: ImportCleanup, s: Seq<char>) -> Seq<char> {
    match kind {
        ImportCleanup::SegWrappers => spec_strip_seg_wrappers(s),
        ImportCleanup::PosSuffixesAndWhitespace => spec_strip_pos_suffixes(s),
        ImportCleanup::CjkSpaces => spec_compact_cjk_spaces(s),
        ImportCleanup::PunctuationSpaces => spec_compact_punctuation_spaces(s),
    }
}

/// One cleanup stage: applied when enabled, and recorded only when it changed the content.
pub open spec fn stage(
    state: (Seq<char>, Seq<ImportCleanup>),
    kind: ImportCleanup,
    enabled: bool,
) -> (Seq<char>, Seq<ImportCleanup>) {
    if enabled && apply_cleanup(kind, state.0) != state.0 {
        (apply_cleanup(kind, state.0), state.1.push(kind))
    } else {
        state
    }
}

/// The profile flags that matter to cleanup.
pub struct CleanupFlags {
    pub legacy: bool,
    pub seg: bool,
    pub pos: bool,
    pub cjk: bool,
}

/// Content and recorded stages of one trimmed fragment.
pub open spec fn cleaned(original: Seq<char>, flags: CleanupFlags) -> (Seq<char>, Seq<ImportCleanup>) {
    let start = (original, Seq::<ImportCleanup>::empty());
    if flags.legacy {
        let s1 = stage(start, ImportCleanup::SegWrappers, flags.seg);
        let s2 = stage(s1, ImportCleanup::PosSuffixesAndWhitespace, flags.pos);
        let s3 = stage(s2, ImportCleanup::CjkSpaces, flags.cjk);
        stage(s3, ImportCleanup::PunctuationSpaces, true)
    } else {
        start
    }
}

pub open spec fn preview_of(c: Candidate, flags: CleanupFlags) -> PreviewModel {
    let original = trim(c.0);
    let done = cleaned(original, flags);
    PreviewModel {
        content: trim(done.0),
        original,
        boundary: c.1,
        marker: c.2,
        cleanups: done.1,
    }
}

/// Previews of the fragments whose cleaned content is not empty, in order.
pub open spec fn kept_previews(cands: Seq<Candidate>, flags: CleanupFlags) -> Seq<PreviewModel>
    decreases cands.len(),
{
    if cands.len() == 0 {
        seq![]
    } else {
        let prev = kept_previews(cands.drop_last(), flags);
        let p = preview_of(cands.last(), flags);
        if p.content.len() > 0 {
            prev.push(p)
        } else {
            prev
        }
    }
}


pub open spec fn flags(profile: ImportProfile) -> CleanupFlags {
    CleanupFlags {
        legacy: profile.segmentation_mode == SegmentationMode::LegacyTaggedLine,
        seg: profile.strip_seg_wrappers,
        pos: profile.strip_pos_suffixes,
        cjk: profile.compact_cjk_interchar_spaces,
    }
}

/// The previews a profile produces for a text.
pub open spec fn spec_previews(text: Seq<char>, profile: ImportProfile) -> Seq<PreviewModel> {
    kept_previews(candidates(text, profile.segmentation_mode), flags(profile))
}

pub open spec fn model(p: SegmentPreview) -> PreviewModel {
    PreviewModel {
        content: p.content@,
        original: p.original_text@,
        boundary: p.boundary,
        marker: p.boundary_marker,
        cleanups: p.cleanups@,
    }
}

pub open spec fn contents(ps: Seq<PreviewModel>) -> Seq<Seq<char>> {
    ps.map_values(|p: PreviewModel| p.content)
}

pub open spec fn no_segment_warning() -> Seq<char> {
    "文本未产生可用 Segment"@
}

struct RawCandidate {
    text: Vec<char>,
    boundary: SegmentBoundary,
    marker: Option<char>,
}

spec fn cview(c: RawCandidate) -> Candidate {
    (c.text@, c.boundary, c.marker)
}

spec fn cviews(cs: Seq<RawCandidate>) -> Seq<Candidate> {
    cs.map_values(|c: RawCandidate| cview(c))
}

proof fn lemma_cviews_push(cs: Seq<RawCandidate>, c: RawCandidate)
    ensures
        cviews(cs.push(c)) == cviews(cs).push(cview(c)),
{
    assert(cviews(cs.push(c)) =~= cviews(cs).push(cview(c)));
}

fn is_terminator_exec(c: char) -> (r: bool)
    ensures r == is_terminator(c),
{
    c == '。' || c == '！' || c == '？' || c == '!' || c == '?' || c == '.'
}

fn split_sentences(v: &Vec<char>) -> (r: Vec<RawCandidate>)
    ensures
        cviews(r@) == sentences(v@),
{
    let mut r: Vec<RawCandidate> = Vec::new();
    assert(cviews(r@) =~= Seq::<Candidate>::empty());
    assert(v@.skip(0) == v@);
    assert(v@.subrange(0, 0) == Seq::<char>::empty());
    let mut start: usize = 0;
    let mut i: usize = 0;
    while i < v.len()
        invariant
            0 <= start <= i <= v@.len(),
            cviews(r@) + sentences_from(v@.skip(i as int), v@.subrange(start as int, i as int))
                == sentences(v@),
        decreases v@.len() - i,
    {
        let ghost rest = v@.skip(i as int);
        let ghost cur = v@.subrange(start as int, i as int);
        assert(rest.drop_first() == v@.skip(i as int + 1));
        assert(cur.push(rest[0]) == v@.subrange(start as int, i as int + 1));
        let c = v[i];
        if is_terminator_exec(c) {
            let piece = copy_range(v, start, i + 1);
            assert(v@.subrange(i as int + 1, i as int + 1) == Seq::<char>::empty());
            if !is_blank(&piece) {
                let cand = RawCandidate { text: piece, boundary: SegmentBoundary::SentencePunctuation, marker: Some(c) };
                let ghost old_r = cviews(r@);
                proof { lemma_cviews_push(r@, cand); }
                r.push(cand);
                assert(old_r + (seq![cview(cand)] + sentences_from(rest.drop_first(), seq![]))
                    == old_r.push(cview(cand)) + sentences_from(rest.drop_first(), seq![]));
            } else {
                assert(Seq::<Candidate>::empty() + sentences_from(rest.drop_first(), seq![])
                    == sentences_from(rest.drop_first(), seq![]));
            }
            start = i + 1;
        }
        i += 1;
    }
    let piece = copy_range(v, start, v.len());
    assert(v@.skip(i as int).len() == 0);
    if !is_blank(&piece) {
        let cand = RawCandidate { text: piece, boundary: SegmentBoundary::TextEnd, marker: None };
        let ghost old_r = cviews(r@);
        proof { lemma_cviews_push(r@, cand); }
        r.push(cand);
        assert(old_r + seq![cview(cand)] == old_r.push(cview(cand)));
    } else {
        assert(cviews(r@) + Seq::<Candidate>::empty() == cviews(r@));
    }
    r
}

fn line_candidates(v: &Vec<char>) -> (r: Vec<RawCandidate>)
    ensures
        cviews(r@) == candidates(v@, SegmentationMode::NonEmptyLine),
{
    let ls = split_lines(v);
    let ghost target = candidates(v@, SegmentationMode::NonEmptyLine);
    let mut r: Vec<RawCandidate> = Vec::new();
    let mut i: usize = 0;
    while i < ls.len()
        invariant
            0 <= i <= ls@.len(),
            views(ls@) == lines(v@),
            target == lines(v@).map_values(
                |l: Seq<char>| (l, SegmentBoundary::NonEmptyLine, None::<char>),
            ),
            cviews(r@) == target.take(i as int),
        decreases ls@.len() - i,
    {
        assert(views(ls@)[i as int] == ls@[i as int]@);
        let text = copy_range(&ls[i], 0, ls[i].len());
        assert(text@ == ls@[i as int]@);
        let cand = RawCandidate { text, boundary: SegmentBoundary::NonEmptyLine, marker: None };
        proof { lemma_cviews_push(r@, cand); }
        r.push(cand);
        assert(target.take(i as int + 1) == target.take(i as int).push(target[i as int]));
        i += 1;
    }
    assert(target.take(ls@.len() as int) == target);
    r
}

fn chars_equal(a: &Vec<char>, b: &Vec<char>) -> (r: bool)
    ensures r == (a@ == b@),
{
    if a.len() != b.len() {
        return false;
    }
    let mut i: usize = 0;
    while i < a.len()
        invariant
            0 <= i <= a@.len() == b@.len(),
            forall|j: int| 0 <= j < i ==> a@[j] == b@[j],
        decreases a@.len() - i,
    {
        if a[i] != b[i] {
            assert(a@[i as int] != b@[i as int]);
            return false;
        }
        i += 1;
    }
    assert(a@ =~= b@);
    true
}

/// Applies one cleanup stage and records it when it changed the content.
fn record_cleanup(content: &mut Vec<char>, cleanups: &mut Vec<ImportCleanup>, kind: ImportCleanup)
    ensures
        (final(content)@, final(cleanups)@) == stage((old(content)@, old(cleanups)@), kind, true),
{
    let cleaned = match kind {
        ImportCleanup::SegWrappers => strip_seg_wrappers(content),
        ImportCleanup::PosSuffixesAndWhitespace => strip_pos_suffixes(content),
        ImportCleanup::CjkSpaces => compact_cjk_spaces(content),
        ImportCleanup::PunctuationSpaces => compact_punctuation_spaces(content),
    };
    if !chars_equal(&cleaned, content) {
        cleanups.push(kind);
        *content = cleaned;
    }
}

fn preview_fragment(cand: &RawCandidate, profile: &ImportProfile) -> (r: (Vec<char>, Vec<char>, Vec<ImportCleanup>))
    ensures
        r.0@ == preview_of(cview(*cand), flags(*profile)).content,
        r.1@ == preview_of(cview(*cand), flags(*profile)).original,
        r.2@ == preview_of(cview(*cand), flags(*profile)).cleanups,
{
    let original = trim_chars(&cand.text);
    let mut content = copy_range(&original, 0, original.len());
    let mut cleanups: Vec<ImportCleanup> = Vec::new();
    assert(original@.subrange(0, original@.len() as int) == original@);
    let ghost f = flags(*profile);
    let ghost s0 = (original@, Seq::<ImportCleanup>::empty());
    let legacy = match profile.segmentation_mode {
        SegmentationMode::LegacyTaggedLine => true,
        _ => false,
    };
    if legacy {
        if profile.strip_seg_wrappers {
            record_cleanup(&mut content, &mut cleanups, ImportCleanup::SegWrappers);
        }
        let ghost s1 = stage(s0, ImportCleanup::SegWrappers, f.seg);
        assert((content@, cleanups@) == s1);
        if profile.strip_pos_suffixes {
            record_cleanup(&mut content, &mut cleanups, ImportCleanup::PosSuffixesAndWhitespace);
        }
        let ghost s2 = stage(s1, ImportCleanup::PosSuffixesAndWhitespace, f.pos);
        assert((content@, cleanups@) == s2);
        if profile.compact_cjk_interchar_spaces {
            record_cleanup(&mut content, &mut cleanups, ImportCleanup::CjkSpaces);
        }
        let ghost s3 = stage(s2, ImportCleanup::CjkSpaces, f.cjk);
        assert((content@, cleanups@) == s3);
        record_cleanup(&mut content, &mut cleanups, ImportCleanup::PunctuationSpaces);
    }
    let content = trim_chars(&content);
    (content, original, cleanups)
}

/// Cuts a text into previewed segments. Line modes cut at line ends and
/// sentence rules after `。！？!?.`; each fragment is trimmed; legacy tagged
/// lines then pass through the enabled cleanups, each recorded only when it
/// changed the fragment; fragments left empty are dropped and the rest are
/// numbered from zero.
pub fn segment_text(text: &str, profile: &ImportProfile) -> (r: SegmentationPreview)
    ensures
        r.segments@.len() == spec_previews(text@, *profile).len(),
        forall|k: int| 0 <= k < r.segments@.len() ==> (#[trigger] r.segments@[k]).ordinal == k
            && model(r.segments@[k]) == spec_previews(text@, *profile)[k],
        r.cleaned_text@ == join(contents(spec_previews(text@, *profile)), seq!['\n']),
        (spec_previews(text@, *profile).len() == 0 && trim(text@).len() > 0) ==> r.warnings@.len() == 1
            && r.warnings@[0]@ == no_segment_warning(),
        !(spec_previews(text@, *profile).len() == 0 && trim(text@).len() > 0) ==> r.warnings@.len() == 0,
{
    let chars = crate::strings::chars_of(text);
    let cands = match profile.segmentation_mode {
        SegmentationMode::SentenceRules => split_sentences(&chars),
        _ => line_candidates(&chars),
    };
    let ghost all = candidates(text@, profile.segmentation_mode);
    assert(cviews(cands@) == all);
    let ghost f = flags(*profile);
    let mut segments: Vec<SegmentPreview> = Vec::new();
    let mut i: usize = 0;
    assert(all.take(0) == Seq::<Candidate>::empty());
    while i < cands.len()
        invariant
            0 <= i <= cands@.len(),
            cviews(cands@) == all,
            f == flags(*profile),
            segments@.len() == kept_previews(all.take(i as int), f).len(),
            forall|k: int| 0 <= k < segments@.len() ==> (#[trigger] segments@[k]).ordinal == k
                && model(segments@[k]) == kept_previews(all.take(i as int), f)[k],
        decreases cands@.len() - i,
    {
        assert(all.take(i as int + 1).drop_last() == all.take(i as int));
        assert(all.take(i as int + 1).last() == cview(cands@[i as int]));
        let (content, original, cleanups) = preview_fragment(&cands[i], profile);
        if content.len() > 0 {
            let p = SegmentPreview {
                ordinal: segments.len(),
                content: string_of(content.as_slice()),
                original_text: string_of(original.as_slice()),
                boundary: cands[i].boundary,
                boundary_marker: cands[i].marker,
                cleanups,
            };
            segments.push(p);
        }
        i += 1;
    }
    assert(all.take(cands@.len() as int) == all);
    let ghost kept = spec_previews(text@, *profile);
    let mut cleaned_text = String::new();
    let mut k: usize = 0;
    assert(contents(kept).take(0) == Seq::<Seq<char>>::empty());
    while k < segments.len()
        invariant
            0 <= k <= segments@.len() == kept.len(),
            forall|j: int| 0 <= j < segments@.len() ==> model(#[trigger] segments@[j]) == kept[j],
            cleaned_text@ == join(contents(kept).take(k as int), seq!['\n']),
        decreases segments@.len() - k,
    {
        let ghost before = cleaned_text@;
        assert(contents(kept).take(k as int + 1).drop_last() == contents(kept).take(k as int));
        assert(contents(kept)[k as int] == segments@[k as int].content@);
        if k > 0 {
            push_char(&mut cleaned_text, '\n');
        }
        crate::strings::append_str(&mut cleaned_text, segments[k].content.as_str());
        proof {
            if k == 0 {
                assert(contents(kept).take(1) == seq![contents(kept)[0]]);
                assert(before == Seq::<char>::empty());
            }
        }
        k += 1;
    }
    assert(contents(kept).take(segments@.len() as int) == contents(kept));
    let mut warnings: Vec<String> = Vec::new();
    if segments.len() == 0 && !is_blank(&chars) {
        warnings.push("文本未产生可用 Segment".to_owned());
    }
    SegmentationPreview { segments, cleaned_text, warnings }
}

proof fn lemma_kept_from(cands: Seq<Candidate>, f: CleanupFlags, k: int)
    requires
        0 <= k < kept_previews(cands, f).len(),
    ensures
        exists|j: int| 0 <= j < cands.len() && kept_previews(cands, f)[k] == #[trigger] preview_of(cands[j], f),
        kept_previews(cands, f)[k].content.len() > 0,
    decreases cands.len(),
{
    let prev = kept_previews(cands.drop_last(), f);
    if k < prev.len() {
        lemma_kept_from(cands.drop_last(), f, k);
        let j = choose|j: int| 0 <= j < cands.drop_last().len() && prev[k] == #[trigger] preview_of(cands.drop_last()[j], f);
        assert(cands.drop_last()[j] == cands[j]);
    } else {
        assert(preview_of(cands[cands.len() - 1], f) == kept_previews(cands, f)[k]);
    }
}

/// Every previewed segment has content, and its content has no white space at
/// either end, whatever the mode and the cleanup switches.
pub proof fn previews_are_trimmed_and_nonempty(text: Seq<char>, profile: ImportProfile, k: int)
    requires
        0 <= k < spec_previews(text, profile).len(),
    ensures
        spec_previews(text, profile)[k].content.len() > 0,
        trim(spec_previews(text, profile)[k].content) == spec_previews(text, profile)[k].content,
{
    let cands = candidates(text, profile.segmentation_mode);
    lemma_kept_from(cands, flags(profile), k);
    let j = choose|j: int| 0 <= j < cands.len() && spec_previews(text, profile)[k] == #[trigger] preview_of(cands[j], flags(profile));
    lemma_trim_idempotent(cleaned(trim(cands[j].0), flags(profile)).0);
}

/// Outside the legacy tagged-line mode a preview keeps each fragment as
/// written: its content is its trimmed original text and no cleanup stage is
/// recorded.
pub proof fn plain_modes_keep_fragments(text: Seq<char>, profile: ImportProfile, k: int)
    requires
        profile.segmentation_mode != SegmentationMode::LegacyTaggedLine,
        0 <= k < spec_previews(text, profile).len(),
    ensures
        spec_previews(text, profile)[k].content == spec_previews(text, profile)[k].original,
        spec_previews(text, profile)[k].cleanups.len() == 0,
{
    let cands = candidates(text, profile.segmentation_mode);
    lemma_kept_from(cands, flags(profile), k);
    let j = choose|j: int| 0 <= j < cands.len() && spec_previews(text, profile)[k] == #[trigger] preview_of(cands[j], flags(profile));
    lemma_trim_idempotent(cands[j].0);
}

} // verus!
