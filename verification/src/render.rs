//! The per-frame layout: a status/input row plus one row per visible
//! filtered entry, as plain styled text spans.  A terminal backend only
//! has to paint these spans; it makes no layout decision of its own.

use vstd::prelude::*;
use vstd::string::*;

use crate::Action;
use crate::Target;
use crate::TargetKind;
use crate::TargetModel;
use crate::color::Color;
use crate::color::ColorTheme;
use crate::text::dec_str;
use crate::text::fmt_usize;
use crate::text::pad_left;
use crate::text::pad_left_str;
use crate::text::pad_right;
use crate::text::pad_right_str;
use crate::text::push_char;
use crate::text::spaces;
use crate::tui::Tui;
use crate::tui::lemma_filter_preserves_order;
use crate::tui::spec_filtered;
use crate::util::digits;

verus! {

/// One styled run of text.
#[derive(Debug)]
pub struct Span {
    pub content: String,
    pub fg: Option<Color>,
    pub bg: Option<Color>,
}

#[verifier::ext_equal]
pub ghost struct SpanModel {
    pub content: Seq<char>,
    pub fg: Option<Color>,
    pub bg: Option<Color>,
}

impl View for Span {
    type V = SpanModel;

    open spec fn view(&self) -> SpanModel {
        SpanModel { content: self.content@, fg: self.fg, bg: self.bg }
    }
}

impl DeepView for Span {
    type V = SpanModel;

    open spec fn deep_view(&self) -> SpanModel {
        self.view()
    }
}

/// One rendered list row; `bg` carries the selection background on the
/// cursor's row and nothing elsewhere.
#[derive(Debug)]
pub struct ListRow {
    pub spans: Vec<Span>,
    pub bg: Option<Color>,
}

#[verifier::ext_equal]
pub ghost struct ListRowModel {
    pub spans: Seq<SpanModel>,
    pub bg: Option<Color>,
}

impl View for ListRow {
    type V = ListRowModel;

    open spec fn view(&self) -> ListRowModel {
        ListRowModel { spans: self.spans.deep_view(), bg: self.bg }
    }
}

impl DeepView for ListRow {
    type V = ListRowModel;

    open spec fn deep_view(&self) -> ListRowModel {
        self.view()
    }
}

/// A whole frame: the input/status row, the caret column within it, and
/// the visible slice of the filtered list.
#[derive(Debug)]
pub struct Rendered {
    pub input_spans: Vec<Span>,
    pub caret_col: usize,
    pub rows: Vec<ListRow>,
}

/// What `console::truncate_str` returns for the given text, width and
/// tail marker, as a function of those three values alone.
pub uninterp spec fn truncated(s: Seq<char>, width: int, tail: Seq<char>) -> Seq<char>;

/// Printable ASCII text, one display column per character.
pub open spec fn all_printable_ascii(s: Seq<char>) -> bool {
    forall|i: int| 0 <= i < s.len() ==> 0x20 <= (#[trigger] s[i]) as u32 <= 0x7e
}

pub open spec fn floor0(x: int) -> int {
    if x >= 0 {
        x
    } else {
        0
    }
}

/// Relies on `console::truncate_str`: a string whose display width fits
/// `width` is returned unchanged, a longer one is cut and the tail is
/// appended.  For printable ASCII text the display width equals the
/// character count, which pins the result exactly.
#[verifier::external_body]
fn truncate_text(s: &str, width: usize, tail: &str) -> (r: String)
    ensures
        r@ == truncated(s@, width as int, tail@),
        all_printable_ascii(s@) && s@.len() <= width ==> r@ == s@,
        all_printable_ascii(s@) && all_printable_ascii(tail@) && s@.len() > width ==> r@
            == s@.take(floor0(width - tail@.len())) + tail@,
{
    console::truncate_str(s, width, tail).into_owned()
}

/// The ellipsis marker appended to clipped cells.
pub open spec fn spec_ellipsis() -> Seq<char> {
    ".."@
}

fn ellipsis() -> (r: &'static str)
    ensures
        r@ == spec_ellipsis(),
{
    ".."
}

/// The display text of a target kind.
pub open spec fn spec_kind_text(k: TargetKind) -> Seq<char> {
    if k == TargetKind::Bin {
        "bin"@
    } else {
        "example"@
    }
}

/// The quoted, comma-separated feature list, as in a debug-printed
/// vector of strings (feature names are plain identifiers, so no
/// escaping is applied).
pub open spec fn quoted_join(fs: Seq<Seq<char>>) -> Seq<char>
    decreases fs.len(),
{
    if fs.len() == 0 {
        Seq::empty()
    } else if fs.len() == 1 {
        "\""@ + fs[0] + "\""@
    } else {
        quoted_join(fs.drop_last()) + ", "@ + "\""@ + fs.last() + "\""@
    }
}

/// The full capabilities text before clipping.
pub open spec fn spec_features_full(fs: Seq<Seq<char>>) -> Seq<char> {
    "--features ["@ + quoted_join(fs) + "]"@
}

/// The capabilities cell: empty without declared features, otherwise the
/// full text clipped to the space the fixed columns leave over.
pub open spec fn spec_features_cell(fs: Seq<Seq<char>>, width: int) -> Seq<char> {
    if fs.len() == 0 {
        Seq::empty()
    } else {
        truncated(spec_features_full(fs), floor0(width - 67), spec_ellipsis())
    }
}

/// The clipped name ends in the ellipsis marker.
pub open spec fn ends_with_ellipsis(s: Seq<char>) -> bool {
    s.len() >= 2 && s[s.len() - 1] == '.' && s[s.len() - 2] == '.'
}

/// Highlighting never touches the ellipsis marker of a clipped name.
pub open spec fn highlight_limit(s: Seq<char>) -> int {
    if ends_with_ellipsis(s) {
        s.len() - 2
    } else {
        s.len() as int
    }
}

/// The name cell: one span per displayed character, matched offsets in
/// the highlight style, the rest in the base style, then padding up to
/// the column width.
pub open spec fn spec_highlighted_name(
    display: Seq<char>,
    pos: Seq<usize>,
    theme: ColorTheme,
) -> Seq<SpanModel> {
    let core = Seq::new(
        display.len(),
        |i: int|
            SpanModel {
                content: seq![display[i]],
                fg: Some(
                    if i < highlight_limit(display) && pos.contains(i as usize) {
                        theme.name_match_fg
                    } else {
                        theme.name_fg
                    },
                ),
                bg: None,
            },
    );
    if display.len() < 25 {
        core.push(SpanModel { content: spaces(25 - display.len()), fg: None, bg: None })
    } else {
        core
    }
}

/// An unstyled single-space separator.
pub open spec fn spec_sep() -> SpanModel {
    SpanModel { content: " "@, fg: None, bg: None }
}

/// The spans of one list row: separator, kind, separator, highlighted
/// name, separator, path, separator, capabilities, separator.
pub open spec fn spec_item_spans(
    t: TargetModel,
    pos: Seq<usize>,
    width: int,
    theme: ColorTheme,
) -> Seq<SpanModel> {
    seq![
        spec_sep(),
        SpanModel {
            content: pad_right(spec_kind_text(t.kind), 7),
            fg: Some(theme.kind_fg),
            bg: None,
        },
        spec_sep(),
    ] + spec_highlighted_name(truncated(t.name, 25, spec_ellipsis()), pos, theme) + seq![
        spec_sep(),
        SpanModel {
            content: pad_right(truncated(t.path, 30, spec_ellipsis()), 30),
            fg: Some(theme.path_fg),
            bg: None,
        },
        spec_sep(),
        SpanModel {
            content: pad_right(
                spec_features_cell(t.required_features, width),
                floor0(width - 67),
            ),
            fg: Some(theme.features_fg),
            bg: None,
        },
        spec_sep(),
    ]
}

/// The action-mode label text.
pub open spec fn spec_label(a: Action) -> Seq<char> {
    if a == Action::Run {
        "  run  "@
    } else {
        " build "@
    }
}

/// The input/status row: label, separator, padded query, separator,
/// "(position / total)" counter, separator.
pub open spec fn spec_input_spans(t: Tui, width: int) -> Seq<SpanModel> {
    let d = dec_str(t.targets@.len() as nat).len() as int;
    let input_w = floor0(width - (7 + (2 * d + 5) + 3));
    let label_fg = if t.action == Action::Run {
        t.theme.action_run_fg
    } else {
        t.theme.action_build_fg
    };
    let label_bg = if t.action == Action::Run {
        t.theme.action_run_bg
    } else {
        t.theme.action_build_bg
    };
    let nums = if t.filtered@.len() == 0 {
        Seq::<char>::empty()
    } else {
        "("@ + pad_left(dec_str((t.cursor + 1) as nat), d) + " / "@ + pad_left(
            dec_str(t.filtered@.len() as nat),
            d,
        ) + ")"@
    };
    seq![
        SpanModel { content: spec_label(t.action), fg: Some(label_fg), bg: Some(label_bg) },
        spec_sep(),
        SpanModel {
            content: pad_right(t.input.text@, input_w),
            fg: Some(t.theme.input_fg),
            bg: None,
        },
        spec_sep(),
        SpanModel { content: nums, fg: Some(t.theme.numbers_fg), bg: None },
        spec_sep(),
    ]
}

/// The caret column on the input row: the label and its separator come
/// first, then the edit cursor's offset into the query.
pub open spec fn spec_caret(t: Tui) -> int {
    if 8 + t.input.cursor <= usize::MAX {
        8 + t.input.cursor
    } else {
        usize::MAX as int
    }
}

/// First visible entry of the filtered list.
pub open spec fn visible_lo(t: Tui) -> int {
    if t.list_offset <= t.filtered@.len() {
        t.list_offset as int
    } else {
        t.filtered@.len() as int
    }
}

/// How many entries are visible.
pub open spec fn visible_count(t: Tui) -> int {
    if t.list_height <= t.filtered@.len() - visible_lo(t) {
        t.list_height as int
    } else {
        t.filtered@.len() - visible_lo(t)
    }
}

/// The row rendered for the filtered entry at absolute position `j`.
pub open spec fn spec_list_row(t: Tui, j: int, width: int) -> ListRowModel {
    ListRowModel {
        spans: spec_item_spans(
            t.targets.deep_view()[t.filtered.deep_view()[j].index],
            t.filtered.deep_view()[j].match_indices,
            width,
            t.theme,
        ),
        bg: if j == t.cursor {
            Some(t.theme.selected_bg)
        } else {
            None
        },
    }
}

/// The visible slice of the filtered list, top to bottom.
pub open spec fn spec_visible_rows(t: Tui, width: int) -> Seq<ListRowModel> {
    Seq::new(visible_count(t) as nat, |k: int| spec_list_row(t, visible_lo(t) + k, width))
}

fn sep_span() -> (r: Span)
    ensures
        r.deep_view() == spec_sep(),
{
    Span { content: String::from_str(" "), fg: None, bg: None }
}

fn pos_contains(pos: &Vec<usize>, i: usize) -> (b: bool)
    ensures
        b == pos@.contains(i),
{
    let mut k: usize = 0;
    while k < pos.len()
        invariant
            k <= pos@.len(),
            forall|q: int| 0 <= q < k ==> pos@[q] != i,
        decreases pos@.len() - k,
    {
        if pos[k] == i {
            assert(pos@[k as int] == i);
            return true;
        }
        k = k + 1;
    }
    false
}

fn highlighted_name_spans(display: &str, pos: &Vec<usize>, theme: ColorTheme) -> (r: Vec<Span>)
    ensures
        r.deep_view() == spec_highlighted_name(display@, pos@, theme),
{
    let dlen = display.unicode_len();
    let truncated_marker = dlen >= 2 && display.get_char(dlen - 2) == '.' && display.get_char(
        dlen - 1,
    ) == '.';
    let hl_limit = if truncated_marker {
        dlen - 2
    } else {
        dlen
    };
    proof {
        assert(hl_limit as int == highlight_limit(display@));
    }
    let mut spans: Vec<Span> = Vec::new();
    let mut i: usize = 0;
    while i < dlen
        invariant
            dlen == display@.len(),
            hl_limit as int == highlight_limit(display@),
            i <= dlen,
            spans.deep_view() =~= Seq::new(
                i as nat,
                |q: int|
                    SpanModel {
                        content: seq![display@[q]],
                        fg: Some(
                            if q < highlight_limit(display@) && pos@.contains(q as usize) {
                                theme.name_match_fg
                            } else {
                                theme.name_fg
                            },
                        ),
                        bg: None,
                    },
            ),
        decreases dlen - i,
    {
        let c = display.get_char(i);
        let matched = i < hl_limit && pos_contains(pos, i);
        let mut cs = String::new();
        push_char(&mut cs, c);
        proof {
            assert(cs@ =~= seq![display@[i as int]]);
        }
        let fg = if matched {
            theme.name_match_fg
        } else {
            theme.name_fg
        };
        let ghost prev = spans.deep_view();
        spans.push(Span { content: cs, fg: Some(fg), bg: None });
        proof {
            assert(prev.len() == i as int);
            assert(spans@.len() == i + 1);
            assert(spans.deep_view().len() == i + 1);
            let target_seq = Seq::new(
                (i + 1) as nat,
                |q: int|
                    SpanModel {
                        content: seq![display@[q]],
                        fg: Some(
                            if q < highlight_limit(display@) && pos@.contains(q as usize) {
                                theme.name_match_fg
                            } else {
                                theme.name_fg
                            },
                        ),
                        bg: None,
                    },
            );
            assert forall|q: int| 0 <= q < i + 1 implies spans.deep_view()[q] == target_seq[q] by {
                if q < i {
                    assert(spans.deep_view()[q] == prev[q]);
                } else {
                    assert(spans.deep_view()[q].content == cs@);
                }
            }
            assert(spans.deep_view() =~= target_seq);
        }
        i = i + 1;
    }
    if dlen < 25 {
        let pad = pad_right_str("", 25 - dlen);
        proof {
            reveal_strlit("");
            assert(pad@ =~= spaces(25 - dlen));
        }
        spans.push(Span { content: pad, fg: None, bg: None });
    }
    proof {
        assert(spans.deep_view() =~~= spec_highlighted_name(display@, pos@, theme));
    }
    spans
}

fn features_full(feats: &Vec<String>) -> (r: String)
    ensures
        r@ == spec_features_full(feats.deep_view()),
{
    let mut r = String::from_str("--features [");
    let mut i: usize = 0;
    while i < feats.len()
        invariant
            i <= feats@.len(),
            r@ == "--features ["@ + quoted_join(feats.deep_view().take(i as int)),
        decreases feats@.len() - i,
    {
        if i > 0 {
            r.append(", ");
        }
        r.append("\"");
        r.append(feats[i].as_str());
        r.append("\"");
        proof {
            let fv = feats.deep_view();
            assert(fv.take(i + 1).drop_last() =~= fv.take(i as int));
            assert(fv.take(i + 1).last() == fv[i as int]);
            assert(r@ =~= "--features ["@ + quoted_join(fv.take(i + 1)));
        }
        i = i + 1;
    }
    proof {
        assert(feats.deep_view().take(feats@.len() as int) =~= feats.deep_view());
    }
    r.append("]");
    r
}

impl Tui {
    /// One list row for `target`, laid out for a terminal `max_w` columns
    /// wide.
    pub fn build_list_item(
        &self,
        target: &Target,
        selected: bool,
        max_w: usize,
        matched_indices: &Vec<usize>,
    ) -> (r: ListRow)
        ensures
            r.deep_view().spans == spec_item_spans(target@, matched_indices@, max_w as int, self.theme),
            r.deep_view().bg == if selected {
                Some(self.theme.selected_bg)
            } else {
                None::<Color>
            },
    {
        let features_w = if max_w >= 67 {
            max_w - 67
        } else {
            0
        };
        let kind = match target.kind {
            TargetKind::Bin => "bin",
            TargetKind::Example => "example",
        };
        let name_t = truncate_text(target.name.as_str(), 25, ellipsis());
        let path_t = truncate_text(target.path.as_str(), 30, ellipsis());
        let features = if target.required_features.len() == 0 {
            String::new()
        } else {
            let full = features_full(&target.required_features);
            truncate_text(full.as_str(), features_w, ellipsis())
        };
        let mut name_spans = highlighted_name_spans(name_t.as_str(), matched_indices, self.theme);
        let ghost name_models = name_spans.deep_view();

        let mut spans: Vec<Span> = Vec::new();
        spans.push(sep_span());
        spans.push(Span { content: pad_right_str(kind, 7), fg: Some(self.theme.kind_fg), bg: None });
        spans.push(sep_span());
        spans.append(&mut name_spans);
        proof {
            assert(spans.deep_view() =~~= seq![
                spec_sep(),
                SpanModel {
                    content: pad_right(spec_kind_text(target@.kind), 7),
                    fg: Some(self.theme.kind_fg),
                    bg: None,
                },
                spec_sep(),
            ] + name_models);
        }
        spans.push(sep_span());
        spans.push(
            Span { content: pad_right_str(path_t.as_str(), 30), fg: Some(self.theme.path_fg), bg: None },
        );
        spans.push(sep_span());
        spans.push(
            Span {
                content: pad_right_str(features.as_str(), features_w),
                fg: Some(self.theme.features_fg),
                bg: None,
            },
        );
        spans.push(sep_span());
        proof {
            assert(spans.deep_view() =~~= spec_item_spans(
                target@,
                matched_indices@,
                max_w as int,
                self.theme,
            ));
        }
        ListRow {
            spans,
            bg: if selected {
                Some(self.theme.selected_bg)
            } else {
                None
            },
        }
    }

    /// The input/status row and the caret column within it.
    pub fn render_input(&self, width: usize) -> (r: (Vec<Span>, usize))
        requires
            self.wf(),
        ensures
            r.0.deep_view() == spec_input_spans(*self, width as int),
            r.1 == spec_caret(*self),
    {
        let d = digits(self.targets.len());
        let num_w = 2 * d + 5;
        let fixed = 7 + num_w + 3;
        let input_w = if width >= fixed {
            width - fixed
        } else {
            0
        };
        let (label, label_bg, label_fg) = match self.action {
            Action::Run => ("  run  ", self.theme.action_run_bg, self.theme.action_run_fg),
            Action::Build => (" build ", self.theme.action_build_bg, self.theme.action_build_fg),
        };
        let query = self.input.value();
        let input_cell = pad_right_str(query.as_str(), input_w);
        let nums = if self.filtered.len() == 0 {
            String::new()
        } else {
            let cur = fmt_usize(self.cursor + 1);
            let total = fmt_usize(self.filtered.len());
            let mut s = String::from_str("(");
            s.append(pad_left_str(cur.as_str(), d).as_str());
            s.append(" / ");
            s.append(pad_left_str(total.as_str(), d).as_str());
            s.append(")");
            s
        };
        let mut spans: Vec<Span> = Vec::new();
        spans.push(Span { content: label.to_owned(), fg: Some(label_fg), bg: Some(label_bg) });
        spans.push(sep_span());
        spans.push(Span { content: input_cell, fg: Some(self.theme.input_fg), bg: None });
        spans.push(sep_span());
        spans.push(Span { content: nums, fg: Some(self.theme.numbers_fg), bg: None });
        spans.push(sep_span());
        let caret = if self.input.cursor <= usize::MAX - 8 {
            8 + self.input.cursor
        } else {
            usize::MAX
        };
        proof {
            assert(spans.deep_view() =~= spec_input_spans(*self, width as int));
        }
        (spans, caret)
    }

    /// The visible rows of the filtered list, top to bottom.
    pub fn render_list(&self, width: usize) -> (rows: Vec<ListRow>)
        requires
            self.wf(),
        ensures
            rows.deep_view() == spec_visible_rows(*self, width as int),
    {
        let len = self.filtered.len();
        let lo = if self.list_offset <= len {
            self.list_offset
        } else {
            len
        };
        let count = if self.list_height <= len - lo {
            self.list_height
        } else {
            len - lo
        };
        let mut rows: Vec<ListRow> = Vec::new();
        let mut k: usize = 0;
        while k < count
            invariant
                self.wf(),
                len == self.filtered@.len(),
                lo as int == visible_lo(*self),
                count as int == visible_count(*self),
                lo + count <= len,
                k <= count,
                rows.deep_view() =~= Seq::new(
                    k as nat,
                    |q: int| spec_list_row(*self, lo + q, width as int),
                ),
            decreases count - k,
        {
            let j = lo + k;
            proof {
                lemma_filter_preserves_order(
                    self.targets.deep_view(),
                    self.input.text@,
                    self.matcher,
                );
                assert(self.filtered.deep_view()[j as int] == spec_filtered(
                    self.targets.deep_view(),
                    self.input.text@,
                    self.matcher,
                )[j as int]);
            }
            let ft = &self.filtered[j];
            let t = &self.targets[ft.index];
            let row = self.build_list_item(t, j == self.cursor, width, &ft.match_indices);
            proof {
                assert(row.deep_view() =~~= spec_list_row(*self, j as int, width as int));
            }
            let ghost prev = rows.deep_view();
            rows.push(row);
            proof {
                assert(prev.len() == k as int);
                assert(rows@.len() == k + 1);
                assert(rows.deep_view().len() == k + 1);
                let target_seq = Seq::new(
                    (k + 1) as nat,
                    |q: int| spec_list_row(*self, lo + q, width as int),
                );
                assert forall|q: int| 0 <= q < k + 1 implies rows.deep_view()[q]
                    == target_seq[q] by {
                    if q < k {
                        assert(rows.deep_view()[q] == prev[q]);
                    } else {
                        assert(rows.deep_view()[q] == row.deep_view());
                    }
                }
                assert(rows.deep_view() =~= target_seq);
            }
            k = k + 1;
        }
        proof {
            assert(rows.deep_view() =~= spec_visible_rows(*self, width as int));
        }
        rows
    }

    /// The whole frame for a terminal `width` columns wide.
    pub fn render(&self, width: usize) -> (r: Rendered)
        requires
            self.wf(),
        ensures
            r.input_spans.deep_view() == spec_input_spans(*self, width as int),
            r.caret_col == spec_caret(*self),
            r.rows.deep_view() == spec_visible_rows(*self, width as int),
    {
        let (input_spans, caret_col) = self.render_input(width);
        let rows = self.render_list(width);
        Rendered { input_spans, caret_col, rows }
    }
}

} // verus!
