//! Splitting assistant markdown into prose and fenced code blocks, so each
//! is laid out on its own, and the plain rendering of a code block.
use vstd::prelude::*;

use crate::runtime::view::style::{Color, Line, Span};
use crate::runtime::view::transcript::{one_span, span_line};
use crate::text::{lines, lines_of, push_all, string_of, sub_vec, trim, trim_bounds, trim_start, trimmed, views};

verus! {

/// A piece of markdown: prose, or a fenced code block with its language tag.
#[derive(Debug)]
pub enum MdBlock {
    Prose(String),
    Code { code: String, lang: Option<String> },
}

/// The mathematical value of an [`MdBlock`].
pub enum MdBlockView {
    Prose(Seq<char>),
    Code(Seq<char>, Option<Seq<char>>),
}

pub open spec fn opt_string_view(o: Option<String>) -> Option<Seq<char>> {
    match o {
        Some(s) => Some(s@),
        None => None,
    }
}

pub open spec fn block_view(b: MdBlock) -> MdBlockView {
    match b {
        MdBlock::Prose(s) => MdBlockView::Prose(s@),
        MdBlock::Code { code, lang } => MdBlockView::Code(code@, opt_string_view(lang)),
    }
}

/// What follows a code fence (three backticks after leading whitespace) on
/// `line`, or `None` when the line is no fence.
pub open spec fn fence_rest(line: Seq<char>) -> Option<Seq<char>> {
    let t = trim_start(line);
    if t.len() >= 3 && t.take(3) == "```"@ {
        Some(t.skip(3))
    } else {
        None
    }
}

/// The state of the splitter between lines: the blocks so far, the prose
/// and code being collected, the open block's language, whether a fence is open.
pub struct MdState {
    pub blocks: Seq<MdBlockView>,
    pub prose: Seq<char>,
    pub code: Seq<char>,
    pub lang: Option<Seq<char>>,
    pub in_code: bool,
}

/// One line through the splitter. A fence closes an open code block, or
/// ends the prose (when there is any) and opens a block whose language is
/// the fence's trimmed tag. Any other line joins the open block or the
/// prose, with its newline.
pub open spec fn md_step(st: MdState, line: Seq<char>) -> MdState {
    match fence_rest(line) {
        Some(rest) => if st.in_code {
            MdState {
                blocks: st.blocks.push(MdBlockView::Code(st.code, st.lang)),
                code: Seq::empty(),
                lang: None,
                in_code: false,
                ..st
            }
        } else {
            MdState {
                blocks: if st.prose.len() > 0 {
                    st.blocks.push(MdBlockView::Prose(st.prose))
                } else {
                    st.blocks
                },
                prose: Seq::empty(),
                lang: if trim(rest).len() > 0 {
                    Some(trim(rest))
                } else {
                    None
                },
                in_code: true,
                ..st
            }
        },
        None => if st.in_code {
            MdState { code: st.code + line + seq!['\n'], ..st }
        } else {
            MdState { prose: st.prose + line + seq!['\n'], ..st }
        },
    }
}

/// The splitter after the lines `ls`.
pub open spec fn md_fold(ls: Seq<Seq<char>>, st: MdState) -> MdState
    decreases ls.len(),
{
    if ls.len() == 0 {
        st
    } else {
        md_fold(ls.drop_first(), md_step(st, ls[0]))
    }
}

/// The blocks once the text ends: a code block left open is kept, and so is
/// the remaining prose.
pub open spec fn md_finish(st: MdState) -> Seq<MdBlockView> {
    if st.in_code {
        st.blocks.push(MdBlockView::Code(st.code, st.lang))
    } else if st.prose.len() > 0 {
        st.blocks.push(MdBlockView::Prose(st.prose))
    } else {
        st.blocks
    }
}

/// The blocks of a markdown text.
pub open spec fn markdown_blocks(text: Seq<char>) -> Seq<MdBlockView> {
    md_finish(
        md_fold(
            lines(text),
            MdState { blocks: Seq::empty(), prose: Seq::empty(), code: Seq::empty(), lang: None, in_code: false },
        ),
    )
}

/// What follows a code fence on `line`, if it is one.
fn fence_rest_of(line: &Vec<char>) -> (r: Option<Vec<char>>)
    ensures
        match r {
            Some(v) => fence_rest(line@) == Some(v@),
            None => fence_rest(line@) is None,
        },
{
    let (a, _b) = trim_bounds(line);
    let t = sub_vec(line, a, line.len());
    assert(t@ == trim_start(line@));
    if t.len() >= 3 && t[0] == '`' && t[1] == '`' && t[2] == '`' {
        let rest = sub_vec(&t, 3, t.len());
        proof {
            reveal_strlit("```");
            assert(t@.take(3) =~= "```"@);
            assert(rest@ =~= t@.skip(3));
        }
        Some(rest)
    } else {
        proof {
            reveal_strlit("```");
            if t@.len() >= 3 && t@.take(3) == "```"@ {
                assert(t@.take(3)[0] == '`');
                assert(t@.take(3)[1] == '`');
                assert(t@.take(3)[2] == '`');
            }
        }
        None
    }
}

/// Split assistant markdown into prose and fenced code blocks.
pub fn markdown_blocks_of(text: &str) -> (blocks: Vec<MdBlock>)
    ensures
        blocks@.map_values(|b: MdBlock| block_view(b)) == markdown_blocks(text@),
{
    let chars = crate::text::chars_of(text);
    let ls = lines_of(&chars);
    let ghost lv = views(ls@);
    let ghost init = MdState { blocks: Seq::empty(), prose: Seq::empty(), code: Seq::empty(), lang: None, in_code: false };
    let mut out: Vec<MdBlock> = Vec::new();
    let mut prose: Vec<char> = Vec::new();
    let mut code: Vec<char> = Vec::new();
    let mut lang: Option<Vec<char>> = None;
    let mut in_code = false;
    let mut i: usize = 0;
    assert(lv.skip(0) =~= lv);
    assert(out@.map_values(|b: MdBlock| block_view(b)) =~= Seq::<MdBlockView>::empty());
    assert(prose@ =~= Seq::<char>::empty());
    assert(code@ =~= Seq::<char>::empty());
    while i < ls.len()
        invariant
            i <= ls.len(),
            lv == views(ls@),
            lv == lines(text@),
            md_fold(lv, init) == md_fold(
                lv.skip(i as int),
                MdState {
                    blocks: out@.map_values(|b: MdBlock| block_view(b)),
                    prose: prose@,
                    code: code@,
                    lang: crate::runtime::view::transcript::opt_chars(lang),
                    in_code,
                },
            ),
        decreases ls.len() - i,
    {
        let ghost st = MdState {
            blocks: out@.map_values(|b: MdBlock| block_view(b)),
            prose: prose@,
            code: code@,
            lang: crate::runtime::view::transcript::opt_chars(lang),
            in_code,
        };
        proof {
            assert(lv.skip(i as int)[0] == ls@[i as int]@);
            assert(lv.skip(i as int).drop_first() =~= lv.skip(i + 1));
        }
        let line = &ls[i];
        match fence_rest_of(line) {
            Some(rest) => {
                if in_code {
                    let block = MdBlock::Code {
                        code: string_of(&code),
                        lang: match &lang {
                            Some(v) => Some(string_of(v)),
                            None => None,
                        },
                    };
                    out.push(block);
                    code = Vec::new();
                    lang = None;
                    in_code = false;
                } else {
                    if prose.len() > 0 {
                        out.push(MdBlock::Prose(string_of(&prose)));
                    }
                    prose = Vec::new();
                    let tag = trimmed(&rest);
                    lang = if tag.len() > 0 {
                        Some(tag)
                    } else {
                        None
                    };
                    in_code = true;
                }
            },
            None => {
                if in_code {
                    push_all(&mut code, line);
                    code.push('\n');
                } else {
                    push_all(&mut prose, line);
                    prose.push('\n');
                }
            },
        }
        proof {
            let next = MdState {
                blocks: out@.map_values(|b: MdBlock| block_view(b)),
                prose: prose@,
                code: code@,
                lang: crate::runtime::view::transcript::opt_chars(lang),
                in_code,
            };
            let want = md_step(st, ls@[i as int]@);
            assert(next.blocks =~= want.blocks);
            assert(next.prose =~= want.prose);
            assert(next.code =~= want.code);
            assert(next.lang == want.lang);
            assert(next.in_code == want.in_code);
            assert(next == want);
        }
        i = i + 1;
    }
    if in_code {
        out.push(
            MdBlock::Code {
                code: string_of(&code),
                lang: match &lang {
                    Some(v) => Some(string_of(v)),
                    None => None,
                },
            },
        );
    } else if prose.len() > 0 {
        out.push(MdBlock::Prose(string_of(&prose)));
    }
    assert(lv.skip(ls.len() as int) =~= Seq::<Seq<char>>::empty());
    assert(out@.map_values(|b: MdBlock| block_view(b)) =~= markdown_blocks(text@));
    out
}

/// The lines of a code block drawn without highlighting: each line of the
/// code as one unstyled span.
pub fn plain_lines(code: &str) -> (out: Vec<Line>)
    ensures
        out@.len() == lines(code@).len(),
        forall|i: int| 0 <= i < out@.len() ==> one_span(#[trigger] out@[i], lines(code@)[i], Color::Reset, false),
{
    let chars = crate::text::chars_of(code);
    let ls = lines_of(&chars);
    let mut out: Vec<Line> = Vec::new();
    let mut i: usize = 0;
    while i < ls.len()
        invariant
            i <= ls.len(),
            views(ls@) == lines(code@),
            out@.len() == i,
            forall|j: int| 0 <= j < i ==> one_span(#[trigger] out@[j], lines(code@)[j], Color::Reset, false),
        decreases ls.len() - i,
    {
        assert(views(ls@)[i as int] == ls@[i as int]@);
        out.push(span_line(string_of(&ls[i]), Color::Reset, false));
        i = i + 1;
    }
    out
}

} // verus!
