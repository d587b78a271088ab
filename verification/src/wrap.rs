//! Text shaping for the preview pane: word wrapping that keeps quote
//! prefixes intact, quote-depth parsing, attribution detection, and
//! ellipsis truncation for table cells.

use vstd::prelude::*;

use crate::text::TrimKind;
use crate::text::chars_to_string;
use crate::text::kind_pred;
use crate::text::lemma_trim_left_len;
use crate::text::str_to_chars;
use crate::text::subvec;
use crate::text::trim_left_spec;
use crate::text::trim_right_spec;
use crate::text::trim_vec_left;
use crate::text::trim_vec_right;

verus! {

/// The views of a vector of strings.
pub open spec fn views_of(v: Seq<String>) -> Seq<Seq<char>> {
    v.map_values(|s: String| s@)
}

/// The greatest position `< k` holding a space, or -1 when there is none.
pub open spec fn last_space_before(s: Seq<char>, k: int) -> int
    decreases k,
{
    if k <= 0 {
        -1
    } else if 0 <= k - 1 < s.len() && s[k - 1] == ' ' {
        k - 1
    } else {
        last_space_before(s, k - 1)
    }
}

pub proof fn lemma_last_space_bounds(s: Seq<char>, k: int)
    ensures
        -1 <= last_space_before(s, k) < k || k <= 0,
        last_space_before(s, k) >= 0 ==> 0 <= last_space_before(s, k) < k,
    decreases k,
{
    if k > 0 {
        lemma_last_space_bounds(s, k - 1);
    }
}

/// Where an over-long line breaks: right after the last space within the
/// first `width` characters, or at `width` (a hard break) when no space
/// occurs there.
pub open spec fn wrap_break(s: Seq<char>, width: int) -> int {
    if last_space_before(s, width) >= 0 {
        last_space_before(s, width) + 1
    } else {
        width
    }
}

/// The wrapped lines of a non-empty text at a positive width: a line that
/// fits is taken whole; an over-long line is split at `wrap_break`, the
/// head loses trailing whitespace, the rest loses leading whitespace.
pub open spec fn wrap_lines(text: Seq<char>, width: int) -> Seq<Seq<char>>
    decreases text.len(),
    when width >= 1
    via wrap_lines_decreases
{
    if text.len() == 0 {
        Seq::empty()
    } else if text.len() <= width {
        seq![text]
    } else {
        let b = wrap_break(text, width);
        seq![trim_right_spec(text.take(b), kind_pred(TrimKind::Space))] + wrap_lines(
            trim_left_spec(text.skip(b), kind_pred(TrimKind::Space)),
            width,
        )
    }
}

#[via_fn]
proof fn wrap_lines_decreases(text: Seq<char>, width: int) {
    if width >= 1 && text.len() > width {
        lemma_last_space_bounds(text, width);
        let b = wrap_break(text, width);
        lemma_trim_left_len(text.skip(b), kind_pred(TrimKind::Space));
    }
}

/// What `word_wrap` returns: a zero width or an empty text yield one line,
/// anything else wraps as `wrap_lines` says.
pub open spec fn wrap_spec(text: Seq<char>, width: int) -> Seq<Seq<char>> {
    if width <= 0 {
        seq![text]
    } else if text.len() == 0 {
        seq![Seq::<char>::empty()]
    } else {
        wrap_lines(text, width)
    }
}

/// Split text into lines of at most `width` characters, breaking after the
/// last space that fits and hard-breaking space-free runs; each line loses
/// trailing whitespace and each remainder loses leading whitespace.
pub fn word_wrap(text: &str, width: usize) -> (r: Vec<String>)
    ensures
        views_of(r@) == wrap_spec(text@, width as int),
{
    let mut lines: Vec<String> = Vec::new();
    if width == 0 {
        lines.push(text.to_owned());
        proof {
            assert(views_of(lines@) =~= wrap_spec(text@, width as int));
        }
        return lines;
    }
    let chars = str_to_chars(text);
    if chars.len() == 0 {
        lines.push(String::new());
        proof {
            assert(views_of(lines@) =~= wrap_spec(text@, width as int));
        }
        return lines;
    }
    let mut rem = chars;
    proof {
        assert(views_of(lines@) + wrap_lines(rem@, width as int) =~= wrap_spec(
            text@,
            width as int,
        ));
    }
    while rem.len() > width
        invariant
            width >= 1,
            views_of(lines@) + wrap_lines(rem@, width as int) == wrap_spec(text@, width as int),
        decreases rem@.len(),
    {
        let ghost rem0 = rem@;
        let mut brk: usize = 0;
        let mut found = false;
        let mut j: usize = 0;
        while j < width
            invariant
                j <= width < rem@.len(),
                found ==> last_space_before(rem@, j as int) == brk - 1 && 1 <= brk <= j,
                !found ==> last_space_before(rem@, j as int) == -1,
            decreases width - j,
        {
            if rem[j] == ' ' {
                brk = j + 1;
                found = true;
            }
            j += 1;
        }
        let break_at = if found {
            brk
        } else {
            width
        };
        proof {
            assert(break_at == wrap_break(rem@, width as int));
            assert(1 <= break_at <= width);
        }
        let chunk = subvec(&rem, 0, break_at);
        proof {
            assert(chunk@ =~= rem@.take(break_at as int));
        }
        let head = trim_vec_right(&chunk, TrimKind::Space);
        lines.push(chars_to_string(&head));
        let rest = subvec(&rem, break_at, rem.len());
        proof {
            assert(rest@ =~= rem@.skip(break_at as int));
        }
        rem = trim_vec_left(&rest, TrimKind::Space);
        proof {
            lemma_trim_left_len(rest@, kind_pred(TrimKind::Space));
            assert(views_of(lines@) + wrap_lines(rem@, width as int) =~= wrap_spec(
                text@,
                width as int,
            )) by {
                assert(views_of(lines@) =~= views_of(lines@.drop_last()).push(head@));
                assert(wrap_lines(rem0, width as int) == seq![head@] + wrap_lines(
                    rem@,
                    width as int,
                ));
            }
        }
    }
    if rem.len() > 0 {
        lines.push(chars_to_string(&rem));
        proof {
            assert(wrap_lines(rem@, width as int) == seq![rem@]);
            assert(views_of(lines@) =~= views_of(lines@.drop_last()).push(rem@));
            assert(views_of(lines@) =~= wrap_spec(text@, width as int));
        }
    } else {
        proof {
            assert(wrap_lines(rem@, width as int) == Seq::<Seq<char>>::empty());
            assert(views_of(lines@) + wrap_lines(rem@, width as int) =~= views_of(lines@));
        }
    }
    lines
}

/// What `truncate` returns: short strings whole; anything longer cut to
/// `w - 1` characters plus an ellipsis; at widths of three or less, a bare
/// prefix of at most `w` characters.
pub open spec fn truncate_spec(s: Seq<char>, w: int) -> Seq<char> {
    if w <= 3 {
        if s.len() <= w {
            s
        } else {
            s.take(w)
        }
    } else if s.len() <= w {
        s
    } else {
        s.take(w - 1).push('\u{2026}')
    }
}

/// Cut a string to at most `max_width` characters, marking a cut with a
/// trailing ellipsis when the width leaves room for one.
pub fn truncate(s: &str, max_width: usize) -> (r: String)
    ensures
        r@ == truncate_spec(s@, max_width as int),
{
    let chars = str_to_chars(s);
    if max_width <= 3 {
        let n = if chars.len() <= max_width {
            chars.len()
        } else {
            max_width
        };
        let head = subvec(&chars, 0, n);
        proof {
            if chars@.len() <= max_width {
                assert(head@ =~= s@);
            }
        }
        return chars_to_string(&head);
    }
    if chars.len() <= max_width {
        proof {
            assert(chars@ =~= truncate_spec(s@, max_width as int));
        }
        return chars_to_string(&chars);
    }
    let mut head = subvec(&chars, 0, max_width - 1);
    head.push('\u{2026}');
    chars_to_string(&head)
}

/// One step past a quote marker: the marker's character and one optional
/// following space.
pub open spec fn quote_step(s: Seq<char>) -> Seq<char> {
    if s.len() >= 2 && s[1] == ' ' {
        s.skip(2)
    } else {
        s.skip(1)
    }
}

/// How many `>` markers (each optionally followed by one space) prefix the
/// sequence.
pub open spec fn quote_depth_of(s: Seq<char>) -> int
    decreases s.len(),
{
    if s.len() > 0 && s[0] == '>' {
        1 + quote_depth_of(quote_step(s))
    } else {
        0
    }
}

/// What remains after the `>` markers.
pub open spec fn quote_rest_of(s: Seq<char>) -> Seq<char>
    decreases s.len(),
{
    if s.len() > 0 && s[0] == '>' {
        quote_rest_of(quote_step(s))
    } else {
        s
    }
}

/// The quote depth of a line and the content after its quote markers,
/// taken from the line with leading whitespace removed.
pub fn parse_quote_depth(line: &str) -> (r: (usize, String))
    ensures
        r.0 as int == quote_depth_of(trim_left_spec(line@, kind_pred(TrimKind::Space))),
        r.1@ == quote_rest_of(trim_left_spec(line@, kind_pred(TrimKind::Space))),
{
    let chars = str_to_chars(line);
    let t = trim_vec_left(&chars, TrimKind::Space);
    let mut pos: usize = 0;
    let mut depth: usize = 0;
    proof {
        assert(t@.skip(0) =~= t@);
    }
    while pos < t.len() && t[pos] == '>'
        invariant
            pos <= t@.len(),
            depth <= pos,
            quote_depth_of(t@) == depth + quote_depth_of(t@.skip(pos as int)),
            quote_rest_of(t@) == quote_rest_of(t@.skip(pos as int)),
        decreases t@.len() - pos,
    {
        let ghost cur = t@.skip(pos as int);
        proof {
            assert(cur[0] == t@[pos as int]);
        }
        depth += 1;
        pos += 1;
        if pos < t.len() && t[pos] == ' ' {
            proof {
                assert(cur[1] == t@[pos as int]);
                assert(quote_step(cur) =~= t@.skip(pos as int + 1));
            }
            pos += 1;
        } else {
            proof {
                if cur.len() >= 2 {
                    assert(cur[1] == t@[pos as int]);
                }
                assert(quote_step(cur) =~= t@.skip(pos as int));
            }
        }
    }
    let rest = subvec(&t, pos, t.len());
    proof {
        assert(rest@ =~= t@.skip(pos as int));
        let cur = t@.skip(pos as int);
        if cur.len() > 0 {
            assert(cur[0] == t@[pos as int]);
        }
        assert(quote_depth_of(cur) == 0);
        assert(quote_rest_of(cur) == cur);
    }
    (depth, chars_to_string(&rest))
}

/// Whether a line reads as a reply attribution: it starts with `On ` and
/// ends with `wrote:`.
pub open spec fn is_attribution_spec(s: Seq<char>) -> bool {
    s.len() >= 6 && s.subrange(0, 3) == "On "@ && s.subrange(s.len() - 6, s.len() as int)
        == "wrote:"@
}

/// Whether a line is a reply attribution (`On ..., ... wrote:`).
pub fn is_attribution(line: &str) -> (r: bool)
    ensures
        r == is_attribution_spec(line@),
{
    proof {
        reveal_strlit("On ");
        reveal_strlit("wrote:");
    }
    let n = line.unicode_len();
    if n < 6 {
        return false;
    }
    let starts = line.get_char(0) == 'O' && line.get_char(1) == 'n' && line.get_char(2) == ' ';
    let ends = line.get_char(n - 6) == 'w' && line.get_char(n - 5) == 'r' && line.get_char(n - 4)
        == 'o' && line.get_char(n - 3) == 't' && line.get_char(n - 2) == 'e' && line.get_char(
        n - 1,
    ) == ':';
    proof {
        if starts {
            assert(line@.subrange(0, 3) =~= "On "@);
        } else {
            assert(line@.subrange(0, 3) != "On "@) by {
                if line@.subrange(0, 3) == "On "@ {
                    assert(line@[0] == "On "@[0]);
                    assert(line@[1] == "On "@[1]);
                    assert(line@[2] == "On "@[2]);
                }
            }
        }
        let tail = line@.subrange(line@.len() - 6, line@.len() as int);
        if ends {
            assert(tail =~= "wrote:"@);
        } else {
            assert(tail != "wrote:"@) by {
                if tail == "wrote:"@ {
                    assert(tail[0] == "wrote:"@[0]);
                    assert(tail[1] == "wrote:"@[1]);
                    assert(tail[2] == "wrote:"@[2]);
                    assert(tail[3] == "wrote:"@[3]);
                    assert(tail[4] == "wrote:"@[4]);
                    assert(tail[5] == "wrote:"@[5]);
                }
            }
        }
    }
    starts && ends
}

} // verus!
