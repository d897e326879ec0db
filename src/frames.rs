//! Stack frames and the filter that keeps the application's own frames.

use vstd::prelude::*;

verus! {

/// How many raw frames, and how many retained frames, a trace keeps at most.
pub const MAX_FRAMES: usize = 10;

/// One symbol resolution of a raw captured frame. Any of its parts may be
/// missing.
pub struct RawSymbol {
    pub file: Option<String>,
    pub line: Option<u32>,
    pub function: Option<String>,
}

/// One frame of a raw capture: a frame may resolve to several (inlined)
/// symbols.
pub struct RawFrame {
    pub symbols: Vec<RawSymbol>,
}

/// A fully resolved stack frame that belongs to the application.
pub struct StackFrame {
    pub file: String,
    pub line: u32,
    pub function: String,
}

/// The mathematical value of a `StackFrame`.
pub struct FrameModel {
    pub file: Seq<char>,
    pub line: u32,
    pub function: Seq<char>,
}

impl View for StackFrame {
    type V = FrameModel;

    open spec fn view(&self) -> FrameModel {
        FrameModel { file: self.file@, line: self.line, function: self.function@ }
    }
}

/// The rules that decide which source paths are application code: a path
/// must hold the root marker and none of the exclusion markers.
pub struct FilterRules {
    pub root_marker: String,
    pub exclusions: Vec<String>,
}

/// `needle` occurs as a contiguous run of characters in `hay`.
pub open spec fn occurs_in(needle: Seq<char>, hay: Seq<char>) -> bool {
    exists|i: int|
        0 <= i && i + needle.len() <= hay.len() && #[trigger] hay.subrange(i, i + needle.len())
            == needle
}

/// A path is application code when it holds the root marker and no exclusion
/// marker.
pub open spec fn is_application_path_spec(rules: FilterRules, path: Seq<char>) -> bool {
    &&& occurs_in(rules.root_marker@, path)
    &&& forall|k: int| 0 <= k < rules.exclusions@.len() ==> !occurs_in(#[trigger] rules.exclusions@[k]@, path)
}

/// A symbol has a file, a line and a function name.
pub open spec fn is_resolved(s: RawSymbol) -> bool {
    s.file is Some && s.line is Some && s.function is Some
}

/// A symbol is retained when it is resolved and its file is application code.
pub open spec fn keeps(rules: FilterRules, s: RawSymbol) -> bool {
    is_resolved(s) && is_application_path_spec(rules, s.file->Some_0@)
}

/// The frame that a resolved symbol stands for.
pub open spec fn frame_of(s: RawSymbol) -> FrameModel {
    FrameModel { file: s.file->Some_0@, line: s.line->Some_0, function: s.function->Some_0@ }
}

/// The retained frames of a sequence of symbols, in order.
pub open spec fn retained_symbols(rules: FilterRules, syms: Seq<RawSymbol>) -> Seq<FrameModel>
    decreases syms.len(),
{
    if syms.len() == 0 {
        Seq::empty()
    } else {
        let rest = retained_symbols(rules, syms.drop_last());
        if keeps(rules, syms.last()) {
            rest.push(frame_of(syms.last()))
        } else {
            rest
        }
    }
}

/// The retained frames of a sequence of raw frames, each given by its
/// symbols, in order.
pub open spec fn retained_frames(rules: FilterRules, raw: Seq<Seq<RawSymbol>>) -> Seq<FrameModel>
    decreases raw.len(),
{
    if raw.len() == 0 {
        Seq::empty()
    } else {
        retained_frames(rules, raw.drop_last()) + retained_symbols(rules, raw.last())
    }
}

/// The first `MAX_FRAMES` elements of `s`, or all of it when it is shorter.
pub open spec fn bounded<A>(s: Seq<A>) -> Seq<A> {
    if s.len() <= MAX_FRAMES {
        s
    } else {
        s.take(MAX_FRAMES as int)
    }
}

/// The output of the frame filter: the retained frames among the first
/// `MAX_FRAMES` raw frames, of which at most `MAX_FRAMES` are kept.
pub open spec fn filter_spec(rules: FilterRules, raw: Seq<Seq<RawSymbol>>) -> Seq<FrameModel> {
    bounded(retained_frames(rules, bounded(raw)))
}

/// The symbols of each raw frame.
pub open spec fn raw_model(raw: Seq<RawFrame>) -> Seq<Seq<RawSymbol>> {
    raw.map_values(|f: RawFrame| f.symbols@)
}

/// The frames' views.
pub open spec fn frames_model(frames: Seq<StackFrame>) -> Seq<FrameModel> {
    frames.map_values(|f: StackFrame| f@)
}

fn matches_at(hay: &str, needle: &str, at: usize) -> (r: bool)
    requires
        at + needle@.len() <= hay@.len(),
    ensures
        r == (hay@.subrange(at as int, at + needle@.len()) == needle@),
{
    let h = hay.unicode_len();
    let n = needle.unicode_len();
    let mut j: usize = 0;
    while j < n
        invariant
            n == needle@.len(),
            h == hay@.len(),
            at + n <= hay@.len(),
            j <= n,
            forall|k: int| 0 <= k < j ==> hay@[at + k] == needle@[k],
        decreases n - j,
    {
        if hay.get_char(at + j) != needle.get_char(j) {
            assert(hay@.subrange(at as int, at + n)[j as int] != needle@[j as int]);
            return false;
        }
        j = j + 1;
    }
    assert(hay@.subrange(at as int, at + n) =~= needle@);
    true
}

/// Whether `needle` occurs in `hay`.
pub fn contains_text(hay: &str, needle: &str) -> (r: bool)
    ensures
        r == occurs_in(needle@, hay@),
{
    let h = hay.unicode_len();
    let n = needle.unicode_len();
    if n > h {
        return false;
    }
    let mut i: usize = 0;
    while i <= h - n
        invariant
            h == hay@.len(),
            n == needle@.len(),
            n <= h,
            i <= h - n,
            forall|k: int| 0 <= k < i ==> #[trigger] hay@.subrange(k, k + n) != needle@,
        decreases h - n + 1 - i,
    {
        if matches_at(hay, needle, i) {
            return true;
        }
        if i == h - n {
            return false;
        }
        i = i + 1;
    }
    false
}

/// Whether `path` is application code under `rules`.
pub fn is_application_path(rules: &FilterRules, path: &str) -> (r: bool)
    ensures
        r == is_application_path_spec(*rules, path@),
{
    if !contains_text(path, rules.root_marker.as_str()) {
        return false;
    }
    let mut k: usize = 0;
    while k < rules.exclusions.len()
        invariant
            k <= rules.exclusions@.len(),
            forall|m: int| 0 <= m < k ==> !occurs_in(#[trigger] rules.exclusions@[m]@, path@),
        decreases rules.exclusions@.len() - k,
    {
        if contains_text(path, rules.exclusions[k].as_str()) {
            return false;
        }
        k = k + 1;
    }
    true
}

/// Appends the retained frames of `syms`, in order, to `out`.
fn retain_symbols(rules: &FilterRules, syms: &Vec<RawSymbol>, out: &mut Vec<StackFrame>)
    ensures
        frames_model(final(out)@) == frames_model(old(out)@) + retained_symbols(*rules, syms@),
{
    let ghost start = frames_model(out@);
    let mut j: usize = 0;
    while j < syms.len()
        invariant
            j <= syms@.len(),
            frames_model(out@) == start + retained_symbols(*rules, syms@.take(j as int)),
        decreases syms@.len() - j,
    {
        let s = &syms[j];
        let ghost before = out@;
        assert(syms@.take(j + 1).drop_last() =~= syms@.take(j as int));
        if let (Some(file), Some(line), Some(function)) = (&s.file, s.line, &s.function) {
            if is_application_path(rules, file.as_str()) {
                out.push(StackFrame { file: file.clone(), line, function: function.clone() });
                assert(frames_model(out@) =~= frames_model(before).push(frame_of(*s)));
            }
        }
        j = j + 1;
    }
    assert(syms@.take(syms@.len() as int) =~= syms@);
}

/// The frame filter: of the first `MAX_FRAMES` raw frames, the symbols that
/// are resolved and lie in application code, in capture order, at most
/// `MAX_FRAMES` of them.
pub fn filter_frames(rules: &FilterRules, raw: &Vec<RawFrame>) -> (r: Vec<StackFrame>)
    ensures
        frames_model(r@) == filter_spec(*rules, raw_model(raw@)),
        r@.len() <= MAX_FRAMES,
{
    let limit: usize = if raw.len() < MAX_FRAMES {
        raw.len()
    } else {
        MAX_FRAMES
    };
    let ghost model = raw_model(raw@);
    let mut out: Vec<StackFrame> = Vec::new();
    let mut i: usize = 0;
    while i < limit
        invariant
            limit <= raw@.len(),
            limit <= MAX_FRAMES,
            i <= limit,
            model == raw_model(raw@),
            frames_model(out@) == retained_frames(*rules, model.take(i as int)),
        decreases limit - i,
    {
        assert(model.take(i + 1).drop_last() =~= model.take(i as int));
        retain_symbols(rules, &raw[i].symbols, &mut out);
        i = i + 1;
    }
    assert(bounded(model) =~= model.take(limit as int));
    let ghost all = out@;
    out.truncate(MAX_FRAMES);
    assert(frames_model(out@) =~= bounded(frames_model(all)));
    out
}

proof fn lemma_drop_rejected_symbol(rules: FilterRules, syms: Seq<RawSymbol>, j: int)
    requires
        0 <= j < syms.len(),
        !keeps(rules, syms[j]),
    ensures
        retained_symbols(rules, syms.remove(j)) == retained_symbols(rules, syms),
    decreases syms.len(),
{
    if j == syms.len() - 1 {
        assert(syms.remove(j) =~= syms.drop_last());
    } else {
        assert(syms.remove(j).drop_last() =~= syms.drop_last().remove(j));
        assert(syms.remove(j).last() == syms.last());
        lemma_drop_rejected_symbol(rules, syms.drop_last(), j);
    }
}

proof fn lemma_retained_frames_update(
    rules: FilterRules,
    raw: Seq<Seq<RawSymbol>>,
    i: int,
    f: Seq<RawSymbol>,
)
    requires
        0 <= i < raw.len(),
        retained_symbols(rules, f) == retained_symbols(rules, raw[i]),
    ensures
        retained_frames(rules, raw.update(i, f)) == retained_frames(rules, raw),
    decreases raw.len(),
{
    if i == raw.len() - 1 {
        assert(raw.update(i, f).drop_last() =~= raw.drop_last());
    } else {
        assert(raw.update(i, f).drop_last() =~= raw.drop_last().update(i, f));
        lemma_retained_frames_update(rules, raw.drop_last(), i, f);
    }
}

proof fn lemma_filter_update(rules: FilterRules, raw: Seq<Seq<RawSymbol>>, i: int, f: Seq<RawSymbol>)
    requires
        0 <= i < raw.len(),
        retained_symbols(rules, f) == retained_symbols(rules, raw[i]),
    ensures
        filter_spec(rules, raw.update(i, f)) == filter_spec(rules, raw),
{
    if raw.len() <= MAX_FRAMES {
        lemma_retained_frames_update(rules, raw, i, f);
    } else if i < MAX_FRAMES {
        assert(bounded(raw.update(i, f)) =~= bounded(raw).update(i, f));
        lemma_retained_frames_update(rules, bounded(raw), i, f);
    } else {
        assert(bounded(raw.update(i, f)) =~= bounded(raw));
    }
}

/// Of a capture with more than `MAX_FRAMES` frames the filter keeps at most
/// `MAX_FRAMES` frames; what it keeps depends on the first `MAX_FRAMES` raw
/// frames alone, and is a prefix of their retained frames in capture order.
pub proof fn lemma_filter_takes_head(rules: FilterRules, raw: Seq<Seq<RawSymbol>>)
    requires
        raw.len() > MAX_FRAMES,
    ensures
        filter_spec(rules, raw).len() <= MAX_FRAMES,
        filter_spec(rules, raw) == filter_spec(rules, raw.take(MAX_FRAMES as int)),
        filter_spec(rules, raw) == retained_frames(rules, raw.take(MAX_FRAMES as int)).take(
            filter_spec(rules, raw).len() as int,
        ),
{
    let head = raw.take(MAX_FRAMES as int);
    assert(bounded(head) =~= head);
    let all = retained_frames(rules, head);
    assert(all.take(all.len() as int) =~= all);
}

/// A symbol without a file, a line or a function name is never retained:
/// taking it out of its frame leaves the filter's output as it was.
pub proof fn lemma_unresolved_symbol_dropped(
    rules: FilterRules,
    raw: Seq<Seq<RawSymbol>>,
    i: int,
    j: int,
)
    requires
        0 <= i < raw.len(),
        0 <= j < raw[i].len(),
        !is_resolved(raw[i][j]),
    ensures
        filter_spec(rules, raw.update(i, raw[i].remove(j))) == filter_spec(rules, raw),
{
    lemma_drop_rejected_symbol(rules, raw[i], j);
    lemma_filter_update(rules, raw, i, raw[i].remove(j));
}

/// A symbol whose file holds an exclusion marker is never retained, whether
/// or not the file also holds the root marker: taking it out of its frame
/// leaves the filter's output as it was.
pub proof fn lemma_excluded_path_dropped(
    rules: FilterRules,
    raw: Seq<Seq<RawSymbol>>,
    i: int,
    j: int,
    k: int,
)
    requires
        0 <= i < raw.len(),
        0 <= j < raw[i].len(),
        0 <= k < rules.exclusions@.len(),
        raw[i][j].file is Some,
        occurs_in(rules.exclusions@[k]@, raw[i][j].file->Some_0@),
    ensures
        !keeps(rules, raw[i][j]),
        filter_spec(rules, raw.update(i, raw[i].remove(j))) == filter_spec(rules, raw),
{
    lemma_drop_rejected_symbol(rules, raw[i], j);
    lemma_filter_update(rules, raw, i, raw[i].remove(j));
}

} // verus!
