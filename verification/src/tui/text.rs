//! The size of plain text: its lines and the widest of them.

use vstd::prelude::*;

use crate::tui::layout::{clamp_u16, Size};

verus! {

/// The number of characters before the first line feed of `s`, or the length
/// of `s` where it holds none.
pub open spec fn first_line_len(s: Seq<char>) -> nat
    decreases s.len(),
{
    if s.len() == 0 || s[0] == '\n' {
        0
    } else {
        1 + first_line_len(s.drop_first())
    }
}

/// `first_line_len` is the place of the first line feed.
pub proof fn lemma_first_line_len(s: Seq<char>, n: int)
    requires
        0 <= n <= s.len(),
        forall|k: int| 0 <= k < n ==> s[k] != '\n',
        n < s.len() ==> s[n] == '\n',
    ensures
        first_line_len(s) == n,
    decreases s.len(),
{
    if n > 0 {
        let t = s.drop_first();
        assert forall|k: int| 0 <= k < n - 1 implies t[k] != '\n' by {
            assert(t[k] == s[k + 1]);
        }
        lemma_first_line_len(t, n - 1);
    }
}

/// The larger of two numbers.
pub open spec fn larger(a: nat, b: nat) -> nat {
    if a > b {
        a
    } else {
        b
    }
}

/// The width of the widest line of `s` and the number of its lines.
///
/// A line ends at a line feed or at the end of the text. A carriage return
/// directly before the line feed belongs to the line ending. A text that ends
/// with a line ending has no further, empty line after it.
pub open spec fn text_extent(s: Seq<char>) -> (nat, nat)
    decreases s.len(),
{
    if s.len() == 0 {
        (0, 0)
    } else {
        let n = first_line_len(s);
        if n < s.len() {
            let shown = if n > 0 && s[n as int - 1] == '\r' {
                (n - 1) as nat
            } else {
                n
            };
            let rest = text_extent(s.subrange(n as int + 1, s.len() as int));
            (if shown > rest.0 { shown } else { rest.0 }, rest.1 + 1)
        } else {
            (n, 1)
        }
    }
}

/// The size of a plain text: as wide as its widest line and as high as its
/// number of lines, each held to the `u16` range.
pub open spec fn text_size(s: Seq<char>) -> Size {
    Size {
        w: clamp_u16(text_extent(s).0 as int) as u16,
        h: clamp_u16(text_extent(s).1 as int) as u16,
    }
}

/// The size of the plain text `text`: as wide as its widest line, as high as
/// its number of lines.
pub fn measure_text(text: &str) -> (r: Size)
    ensures
        r == text_size(text@),
{
    let mut widest: u16 = 0;
    let mut lines: u16 = 0;
    // Characters of the line being read, counted up to 65536.
    let mut run: u32 = 0;
    let mut after_cr: bool = false;
    let ghost mut start: int = 0;
    let ghost mut gw: nat = 0;
    let ghost mut gh: nat = 0;
    let ghost len: int = text@.len() as int;
    assert(text@.subrange(0, len) =~= text@);
    for c in it: text.chars()
        invariant
            it.seq() == text@,
            len == text@.len(),
            0 <= start <= it.index() <= len,
            forall|k: int| start <= k < it.index() ==> text@[k] != '\n',
            run as int == (if it.index() - start > 65536 { 65536 } else { it.index() - start }),
            after_cr == (it.index() > start && text@[it.index() - 1] == '\r'),
            widest as int == clamp_u16(gw as int),
            lines as int == clamp_u16(gh as int),
            text_extent(text@).0 == larger(gw, text_extent(text@.subrange(start, len)).0),
            text_extent(text@).1 == gh + text_extent(text@.subrange(start, len)).1,
    {
        let ghost i: int = it.index();
        assert(c == text@[i]);
        if c == '\n' {
            let shown: u32 = if after_cr { run - 1 } else { run };
            let shown: u16 = if shown > 65535 { 65535 } else { shown as u16 };
            proof {
                let suffix = text@.subrange(start, len);
                let n = i - start;
                assert forall|k: int| 0 <= k < n implies suffix[k] != '\n' by {
                    assert(suffix[k] == text@[start + k]);
                }
                assert(suffix[n] == text@[i]);
                lemma_first_line_len(suffix, n);
                assert(suffix.subrange(n + 1, suffix.len() as int) =~= text@.subrange(i + 1, len));
                if n > 0 {
                    assert(suffix[n - 1] == text@[i - 1]);
                }
                let gshown: nat = if n > 0 && suffix[n - 1] == '\r' { (n - 1) as nat } else { n as nat };
                gw = larger(gw, gshown);
                gh = gh + 1;
                start = i + 1;
            }
            if shown > widest {
                widest = shown;
            }
            lines = lines.saturating_add(1);
            run = 0;
            after_cr = false;
        } else {
            if run < 65536 {
                run = run + 1;
            }
            after_cr = c == '\r';
        }
    }
    if run > 0 {
        proof {
            let suffix = text@.subrange(start, len);
            let n = len - start;
            assert forall|k: int| 0 <= k < n implies suffix[k] != '\n' by {
                assert(suffix[k] == text@[start + k]);
            }
            lemma_first_line_len(suffix, n);
        }
        let shown: u16 = if run > 65535 { 65535 } else { run as u16 };
        if shown > widest {
            widest = shown;
        }
        lines = lines.saturating_add(1);
    } else {
        assert(text@.subrange(start, len).len() == 0);
    }
    Size { w: widest, h: lines }
}

} // verus!
