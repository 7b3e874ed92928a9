//! The source parser: text to tree.
//!
//! The grammar is intentionally a flat declaration scanner.  Source text is
//! read line by line; every line that, after trimming, starts with
//! *lowercase word, whitespace, identifier, optional whitespace, open
//! brace* contributes one leaf declaration to the program, named
//! `"<target-type>:<app-name>"`.  All other lines are ignored: there is no
//! brace balancing, no nested-content extraction, and no failure for
//! malformed blocks, so parsing is total.  The nested-body grammar is
//! deferred to a future revision; compilers already look for child
//! sections that this parser never produces.

use vstd::prelude::*;

use crate::ast::{ElemView, Element, Node, NodeView, elem_view, node_view};
use crate::strutil::{
    CharClass, in_class, is_lower, is_space, is_word, lemma_index_of, lemma_run_len,
    lemma_run_len_chars, lemma_run_len_le, lemma_trim, run_len, split_lines, strip_cr, trim,
    find_char_from, skip_spaces, rskip_spaces, run_lower, run_word,
};

verus! {

/// The declaration recognized in an already-trimmed line, if any: the
/// target-type keyword and the app name of a line shaped
/// `<lowercase-word> <identifier> {`, with anything after the brace ignored.
pub open spec fn decl_of(t: Seq<char>) -> Option<(Seq<char>, Seq<char>)> {
    let a = run_len(CharClass::Lower, t) as int;
    let b = run_len(CharClass::Space, t.skip(a)) as int;
    let c = run_len(CharClass::Word, t.skip(a + b)) as int;
    let d = run_len(CharClass::Space, t.skip(a + b + c)) as int;
    if a > 0 && b > 0 && c > 0 && a + b + c + d < t.len() && t[a + b + c + d] == '{' {
        Some((t.take(a), t.subrange(a + b, a + b + c)))
    } else {
        None
    }
}

/// The declaration contributed by one raw source line.
pub open spec fn line_decl(line: Seq<char>) -> Option<(Seq<char>, Seq<char>)> {
    decl_of(trim(line))
}

pub open spec fn opt_decl(o: Option<(Seq<char>, Seq<char>)>) -> Seq<(Seq<char>, Seq<char>)> {
    match o {
        Some(p) => seq![p],
        None => Seq::empty(),
    }
}

/// The declarations contributed by a sequence of lines, in line order.
pub open spec fn line_decls(lines: Seq<Seq<char>>) -> Seq<(Seq<char>, Seq<char>)>
    decreases lines.len(),
{
    if lines.len() == 0 {
        Seq::empty()
    } else {
        line_decls(lines.drop_last()) + opt_decl(line_decl(lines.last()))
    }
}

/// The (target-type, app-name) pairs declared in source text, in order.
pub open spec fn decl_pairs(src: Seq<char>) -> Seq<(Seq<char>, Seq<char>)> {
    line_decls(split_lines(src))
}

/// The composite root-level name: target type and app name joined by a colon.
pub open spec fn colon_join(t: Seq<char>, n: Seq<char>) -> Seq<char> {
    t + seq![':'] + n
}

/// The image of the program the parser returns for the given declaration
/// pairs: a root named `Program` with one leaf child per declaration.
pub open spec fn program_view_of(ps: Seq<(Seq<char>, Seq<char>)>) -> ElemView {
    ElemView {
        name: "Program"@,
        annotations: Seq::empty(),
        children: Seq::new(
            ps.len(),
            |i: int|
                NodeView::Element(
                    ElemView {
                        name: colon_join(ps[i].0, ps[i].1),
                        annotations: Seq::empty(),
                        children: Seq::empty(),
                    },
                ),
        ),
    }
}

/// A declaration pair as the scanner produces it: a nonempty lowercase
/// target type and a nonempty word-character app name.
pub open spec fn pair_wf(p: (Seq<char>, Seq<char>)) -> bool {
    &&& p.0.len() > 0
    &&& p.1.len() > 0
    &&& forall|j: int| 0 <= j < p.0.len() ==> is_lower(#[trigger] p.0[j])
    &&& forall|j: int| 0 <= j < p.1.len() ==> is_word(#[trigger] p.1[j])
}

pub proof fn lemma_line_decls_concat(a: Seq<Seq<char>>, b: Seq<Seq<char>>)
    ensures
        line_decls(a + b) == line_decls(a) + line_decls(b),
    decreases b.len(),
{
    if b.len() == 0 {
        assert(a + b =~= a);
        assert(line_decls(a) + line_decls(b) =~= line_decls(a));
    } else {
        assert((a + b).drop_last() =~= a + b.drop_last());
        assert((a + b).last() == b.last());
        lemma_line_decls_concat(a, b.drop_last());
        assert(line_decls(a) + line_decls(b.drop_last()) + opt_decl(line_decl(b.last()))
            =~= line_decls(a) + (line_decls(b.drop_last()) + opt_decl(line_decl(b.last()))));
    }
}

pub proof fn lemma_line_decls_single(l: Seq<char>)
    ensures
        line_decls(seq![l]) == opt_decl(line_decl(l)),
{
    assert(seq![l].drop_last() =~= Seq::<Seq<char>>::empty());
    assert(seq![l].last() == l);
    assert(line_decls(Seq::<Seq<char>>::empty()) == Seq::<(Seq<char>, Seq<char>)>::empty());
    assert(line_decls(seq![l]) == line_decls(seq![l].drop_last()) + opt_decl(line_decl(l)));
    assert(Seq::<(Seq<char>, Seq<char>)>::empty() + opt_decl(line_decl(l)) =~= opt_decl(
        line_decl(l),
    ));
}

/// A recognized declaration is made of the characters its pattern demands.
pub proof fn lemma_decl_of_wf(t: Seq<char>)
    requires
        decl_of(t) is Some,
    ensures
        pair_wf(decl_of(t)->Some_0),
{
    let a = run_len(CharClass::Lower, t) as int;
    let b = run_len(CharClass::Space, t.skip(a)) as int;
    lemma_run_len_le(CharClass::Lower, t);
    lemma_run_len_le(CharClass::Space, t.skip(a));
    lemma_run_len_le(CharClass::Word, t.skip(a + b));
    lemma_run_len_chars(CharClass::Lower, t);
    lemma_run_len_chars(CharClass::Word, t.skip(a + b));
}

/// Every declaration pair of any source text is well formed.
pub proof fn lemma_decl_pairs_wf(src: Seq<char>)
    ensures
        forall|i: int| 0 <= i < decl_pairs(src).len() ==> pair_wf(#[trigger] decl_pairs(src)[i]),
{
    lemma_line_decls_wf(split_lines(src));
}

proof fn lemma_line_decls_wf(lines: Seq<Seq<char>>)
    ensures
        forall|i: int|
            0 <= i < line_decls(lines).len() ==> pair_wf(#[trigger] line_decls(lines)[i]),
    decreases lines.len(),
{
    if lines.len() > 0 {
        lemma_line_decls_wf(lines.drop_last());
        if line_decl(lines.last()) is Some {
            lemma_decl_of_wf(trim(lines.last()));
        }
        let prefix = line_decls(lines.drop_last());
        let tail = opt_decl(line_decl(lines.last()));
        assert forall|i: int|
            0 <= i < line_decls(lines).len() implies pair_wf(#[trigger] line_decls(lines)[i]) by {
            assert(line_decls(lines) == prefix + tail);
            if i < prefix.len() {
                assert(line_decls(lines)[i] == prefix[i]);
                assert(pair_wf(prefix[i]));
            } else {
                assert(line_decls(lines)[i] == tail[i - prefix.len()]);
            }
        }
    }
}

/// Matches the declaration pattern against the trimmed window `[ts, te)` of
/// `s`.  On success returns the end of the target-type run and the bounds
/// of the app-name run, all as absolute character indices.
pub(crate) fn match_decl(s: &str, ts: usize, te: usize) -> (r: Option<(usize, usize, usize)>)
    requires
        ts <= te <= s@.len(),
    ensures
        match r {
            Some(m) => {
                &&& ts < m.0 <= m.1 < m.2 <= te
                &&& decl_of(s@.subrange(ts as int, te as int)) == Some(
                    (s@.subrange(ts as int, m.0 as int), s@.subrange(m.1 as int, m.2 as int)),
                )
            },
            None => decl_of(s@.subrange(ts as int, te as int)) is None,
        },
{
    let ghost t = s@.subrange(ts as int, te as int);
    let ae = run_lower(s, ts, te);
    proof {
        assert forall|j: int| 0 <= j < ae - ts implies in_class(CharClass::Lower, t[j]) by {
            assert(t[j] == s@[ts + j]);
        }
        if ae < te {
            assert(t[ae - ts] == s@[ae as int]);
        }
        lemma_run_len(CharClass::Lower, t, (ae - ts) as nat);
    }
    let be = skip_spaces(s, ae, te);
    proof {
        let sub = t.skip(ae - ts);
        assert forall|j: int| 0 <= j < be - ae implies in_class(CharClass::Space, sub[j]) by {
            assert(sub[j] == s@[ae + j]);
        }
        if be < te {
            assert(sub[be - ae] == s@[be as int]);
        }
        lemma_run_len(CharClass::Space, sub, (be - ae) as nat);
    }
    let ce = run_word(s, be, te);
    proof {
        let sub = t.skip(be - ts);
        assert forall|j: int| 0 <= j < ce - be implies in_class(CharClass::Word, sub[j]) by {
            assert(sub[j] == s@[be + j]);
        }
        if ce < te {
            assert(sub[ce - be] == s@[ce as int]);
        }
        lemma_run_len(CharClass::Word, sub, (ce - be) as nat);
    }
    let de = skip_spaces(s, ce, te);
    proof {
        let sub = t.skip(ce - ts);
        assert forall|j: int| 0 <= j < de - ce implies in_class(CharClass::Space, sub[j]) by {
            assert(sub[j] == s@[ce + j]);
        }
        if de < te {
            assert(sub[de - ce] == s@[de as int]);
        }
        lemma_run_len(CharClass::Space, sub, (de - ce) as nat);
    }
    if ae > ts && be > ae && ce > be && de < te && s.get_char(de) == '{' {
        proof {
            assert(t[de - ts] == s@[de as int]);
            assert(t.take(ae - ts) =~= s@.subrange(ts as int, ae as int));
            assert(t.subrange(be - ts, ce - ts) =~= s@.subrange(be as int, ce as int));
        }
        Some((ae, be, ce))
    } else {
        proof {
            if de < te {
                assert(t[de - ts] == s@[de as int]);
            }
        }
        None
    }
}

/// Parses source text into the program tree.
///
/// Parsing is total: the result is always `Ok`, and its image is exactly
/// the program built from the declaration pairs found in the text.
#[verifier::rlimit(100)]
pub fn parse_source(src: &str) -> (r: Result<Element, String>)
    ensures
        r is Ok,
        elem_view(r->Ok_0) == program_view_of(decl_pairs(src@)),
{
    let n = src.unicode_len();
    let mut children: Vec<Node> = Vec::new();
    let ghost mut done: Seq<(Seq<char>, Seq<char>)> = Seq::empty();
    let mut p: usize = 0;
    proof {
        assert(src@.skip(0) =~= src@);
        assert(Seq::<(Seq<char>, Seq<char>)>::empty() + line_decls(split_lines(src@))
            =~= line_decls(split_lines(src@)));
    }
    while p < n
        invariant
            p <= n,
            n == src@.len(),
            decl_pairs(src@) == done + line_decls(split_lines(src@.skip(p as int))),
            children@.len() == done.len(),
            forall|i: int|
                0 <= i < done.len() ==> node_view(#[trigger] children@[i]) == NodeView::Element(
                    ElemView {
                        name: colon_join(done[i].0, done[i].1),
                        annotations: Seq::empty(),
                        children: Seq::empty(),
                    },
                ),
        decreases n - p,
    {
        let ghost suffix = src@.skip(p as int);
        let q = find_char_from(src, p, n, '\n');
        proof {
            assert forall|j: int| 0 <= j < q - p implies suffix[j] != '\n' by {
                assert(suffix[j] == src@[p + j]);
            }
            if q < n {
                assert(suffix[q - p] == src@[q as int]);
            }
            lemma_index_of(suffix, '\n', (q - p) as nat);
        }
        let has_nl = q < n;
        let line_end: usize = if has_nl && q > p && src.get_char(q - 1) == '\r' {
            q - 1
        } else {
            q
        };
        let ghost piece = if has_nl {
            strip_cr(suffix.take(q as int - p as int))
        } else {
            suffix
        };
        let ghost rest = if has_nl {
            src@.skip(q as int + 1)
        } else {
            Seq::<char>::empty()
        };
        proof {
            if has_nl {
                assert(suffix.take(q as int - p as int) =~= src@.subrange(p as int, q as int));
                assert(suffix.skip(q as int - p as int + 1) =~= src@.skip(q as int + 1));
                assert(split_lines(suffix) == seq![piece] + split_lines(rest));
                if q > p && src@[q as int - 1] == '\r' {
                    assert(suffix.take(q as int - p as int).drop_last() =~= src@.subrange(
                        p as int,
                        line_end as int,
                    ));
                } else {
                    assert(suffix.take(q as int - p as int) =~= src@.subrange(
                        p as int,
                        line_end as int,
                    ));
                }
            } else {
                assert(split_lines(rest) =~= Seq::<Seq<char>>::empty());
                assert(seq![piece] + split_lines(rest) =~= seq![piece]);
                assert(split_lines(suffix) == seq![piece] + split_lines(rest));
                assert(suffix =~= src@.subrange(p as int, line_end as int));
            }
            assert(piece == src@.subrange(p as int, line_end as int));
            lemma_line_decls_concat(seq![piece], split_lines(rest));
            lemma_line_decls_single(piece);
            assert(line_decls(split_lines(suffix)) == opt_decl(line_decl(piece)) + line_decls(
                split_lines(rest),
            ));
        }
        let ts = skip_spaces(src, p, line_end);
        let te = rskip_spaces(src, ts, line_end);
        proof {
            if ts < line_end && te == ts {
                assert(is_space(src@[ts as int]));
                assert(false);
            }
            assert forall|k: int| 0 <= k < ts - p implies is_space(piece[k]) by {
                assert(piece[k] == src@[p + k]);
            }
            assert forall|k: int| te - p <= k < piece.len() implies is_space(piece[k]) by {
                assert(piece[k] == src@[p + k]);
            }
            if ts < te {
                assert(piece[ts - p] == src@[ts as int]);
                assert(piece[te - p - 1] == src@[te as int - 1]);
            }
            lemma_trim(piece, (ts - p) as nat, (te - p) as nat);
            assert(piece.subrange(ts as int - p as int, te as int - p as int) =~= src@.subrange(
                ts as int,
                te as int,
            ));
            assert(trim(piece) == src@.subrange(ts as int, te as int));
        }
        match match_decl(src, ts, te) {
            Some(m) => {
                let (ae, nb, ne) = m;
                let tpart = src.substring_char(ts, ae);
                let npart = src.substring_char(nb, ne);
                let name = String::from_str(tpart).concat(":").concat(npart);
                let ghost pair = (
                    src@.subrange(ts as int, ae as int),
                    src@.subrange(nb as int, ne as int),
                );
                let node = Node::Element(
                    Element { name, annotations: Vec::new(), children: Vec::new() },
                );
                proof {
                    reveal_strlit(":");
                    assert(":"@ =~= seq![':']);
                    assert(line_decl(piece) == Some(pair));
                    let nv = node_view(node);
                    let ev = nv->Element_0;
                    assert(ev.name =~= colon_join(pair.0, pair.1));
                    assert(ev.annotations =~= Seq::<Seq<char>>::empty());
                    assert(ev.children =~= Seq::<NodeView>::empty());
                    assert(nv =~~= NodeView::Element(
                        ElemView {
                            name: colon_join(pair.0, pair.1),
                            annotations: Seq::empty(),
                            children: Seq::empty(),
                        },
                    ));
                }
                children.push(node);
                proof {
                    let prev = done;
                    done = done + seq![pair];
                    assert(opt_decl(line_decl(piece)) =~= seq![pair]);
                    assert(prev + (seq![pair] + line_decls(split_lines(rest))) =~= done
                        + line_decls(split_lines(rest)));
                    assert(decl_pairs(src@) == done + line_decls(split_lines(rest)));
                }
            },
            None => {
                proof {
                    assert(line_decl(piece) is None);
                    assert(opt_decl(line_decl(piece)) =~= Seq::<(Seq<char>, Seq<char>)>::empty());
                    assert(done + (opt_decl(line_decl(piece)) + line_decls(split_lines(rest)))
                        =~= done + line_decls(split_lines(rest)));
                    assert(decl_pairs(src@) == done + line_decls(split_lines(rest)));
                }
            },
        }
        if has_nl {
            p = q + 1;
        } else {
            p = n;
            proof {
                assert(src@.skip(n as int) =~= Seq::<char>::empty());
            }
        }
    }
    proof {
        assert(src@.skip(n as int) =~= Seq::<char>::empty());
        assert(split_lines(src@.skip(p as int)) =~= Seq::<Seq<char>>::empty());
        assert(done + line_decls(split_lines(src@.skip(p as int))) =~= done);
        assert(decl_pairs(src@) == done);
    }
    let prog = Element { name: String::from_str("Program"), annotations: Vec::new(), children };
    proof {
        assert(elem_view(prog).children =~= program_view_of(decl_pairs(src@)).children);
        assert(elem_view(prog).annotations =~= program_view_of(decl_pairs(src@)).annotations);
        assert(elem_view(prog) =~~= program_view_of(decl_pairs(src@)));
    }
    Ok(prog)
}

} // verus!
