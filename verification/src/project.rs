//! Support for running package-manager commands in generated projects:
//! detecting which projects a source file declares, and mapping
//! user-facing commands to the per-target package-manager invocation.
//!
//! Unlike the parser, the project scan tracks brace depth: only
//! declarations at depth zero name a project.

use vstd::prelude::*;

use crate::parser::{decl_of, match_decl};
use crate::strutil::{
    find_char_from, is_space, lemma_index_of, lemma_trim, rskip_spaces, skip_spaces, split_lines,
    str_eq, strip_cr, trim,
};

verus! {

/// How many times `c` occurs in `s`.
pub open spec fn count_char(s: Seq<char>, c: char) -> int
    decreases s.len(),
{
    if s.len() == 0 {
        0
    } else {
        count_char(s.drop_last(), c) + if s.last() == c {
            1int
        } else {
            0int
        }
    }
}

pub proof fn lemma_count_char_bounds(s: Seq<char>, c: char)
    ensures
        0 <= count_char(s, c) <= s.len(),
    decreases s.len(),
{
    if s.len() > 0 {
        lemma_count_char_bounds(s.drop_last(), c);
    }
}

/// The net brace nesting change a trimmed line contributes.
pub open spec fn braces_delta(t: Seq<char>) -> int {
    count_char(t, '{') - count_char(t, '}')
}

/// The (app-name, target-type) pairs of the declarations found at brace
/// depth zero, scanning lines in order while tracking nesting.
pub open spec fn project_types_from(lines: Seq<Seq<char>>, depth: int) -> Seq<
    (Seq<char>, Seq<char>),
>
    decreases lines.len(),
{
    if lines.len() == 0 {
        Seq::empty()
    } else {
        let t = trim(lines[0]);
        let here = if depth == 0 {
            match decl_of(t) {
                Some(p) => seq![(p.1, p.0)],
                None => Seq::empty(),
            }
        } else {
            Seq::empty()
        };
        here + project_types_from(lines.drop_first(), depth + braces_delta(t))
    }
}

/// The projects a source file declares: its depth-zero declarations, as
/// (app-name, target-type) pairs.
pub open spec fn project_types(content: Seq<char>) -> Seq<(Seq<char>, Seq<char>)> {
    project_types_from(split_lines(content), 0)
}

/// Counts `{` and `}` in the window `[from, to)` of `s`.
fn count_braces(s: &str, from: usize, to: usize) -> (r: (usize, usize))
    requires
        from <= to <= s@.len(),
    ensures
        r.0 == count_char(s@.subrange(from as int, to as int), '{'),
        r.1 == count_char(s@.subrange(from as int, to as int), '}'),
        r.0 <= to - from,
        r.1 <= to - from,
{
    let mut opens: usize = 0;
    let mut closes: usize = 0;
    let mut i: usize = from;
    proof {
        assert(s@.subrange(from as int, from as int) =~= Seq::<char>::empty());
    }
    while i < to
        invariant
            from <= i <= to <= s@.len(),
            opens == count_char(s@.subrange(from as int, i as int), '{'),
            closes == count_char(s@.subrange(from as int, i as int), '}'),
            opens <= i - from,
            closes <= i - from,
        decreases to - i,
    {
        let c = s.get_char(i);
        if c == '{' {
            opens = opens + 1;
        } else if c == '}' {
            closes = closes + 1;
        }
        proof {
            assert(s@.subrange(from as int, i + 1).drop_last() =~= s@.subrange(
                from as int,
                i as int,
            ));
            assert(s@.subrange(from as int, i + 1).last() == s@[i as int]);
        }
        i = i + 1;
    }
    (opens, closes)
}

/// Detects the projects declared in source text, in declaration order:
/// each depth-zero declaration line yields one (app-name, target-type)
/// pair.
#[verifier::rlimit(100)]
pub fn detect_project_types(content: &str) -> (r: Vec<(String, String)>)
    ensures
        r.deep_view() == project_types(content@),
{
    let n = content.unicode_len();
    let mut found: Vec<(String, String)> = Vec::new();
    let mut depth: i128 = 0;
    let mut p: usize = 0;
    proof {
        assert(content@.skip(0) =~= content@);
        assert(Seq::<(Seq<char>, Seq<char>)>::empty() + project_types_from(
            split_lines(content@),
            0,
        ) =~= project_types_from(split_lines(content@), 0));
    }
    while p < n
        invariant
            p <= n,
            n == content@.len(),
            -(p as int) <= depth <= p as int,
            project_types(content@) == found.deep_view() + project_types_from(
                split_lines(content@.skip(p as int)),
                depth as int,
            ),
        decreases n - p,
    {
        let ghost suffix = content@.skip(p as int);
        let q = find_char_from(content, p, n, '\n');
        proof {
            assert forall|j: int| 0 <= j < q - p implies suffix[j] != '\n' by {
                assert(suffix[j] == content@[p + j]);
            }
            if q < n {
                assert(suffix[q - p] == content@[q as int]);
            }
            lemma_index_of(suffix, '\n', (q - p) as nat);
        }
        let has_nl = q < n;
        let line_end: usize = if has_nl && q > p && content.get_char(q - 1) == '\r' {
            q - 1
        } else {
            q
        };
        let ghost piece = if has_nl {
            strip_cr(suffix.take(q as int - p as int))
        } else {
            suffix
        };
        let ghost rest = if has_nl {
            content@.skip(q as int + 1)
        } else {
            Seq::<char>::empty()
        };
        proof {
            if has_nl {
                assert(suffix.take(q as int - p as int) =~= content@.subrange(p as int, q as int));
                assert(suffix.skip(q as int - p as int + 1) =~= content@.skip(q as int + 1));
                assert(split_lines(suffix) == seq![piece] + split_lines(rest));
                if q > p && content@[q as int - 1] == '\r' {
                    assert(suffix.take(q as int - p as int).drop_last() =~= content@.subrange(
                        p as int,
                        line_end as int,
                    ));
                } else {
                    assert(suffix.take(q as int - p as int) =~= content@.subrange(
                        p as int,
                        line_end as int,
                    ));
                }
            } else {
                assert(split_lines(rest) =~= Seq::<Seq<char>>::empty());
                assert(seq![piece] + split_lines(rest) =~= seq![piece]);
                assert(split_lines(suffix) == seq![piece] + split_lines(rest));
                assert(suffix =~= content@.subrange(p as int, line_end as int));
            }
            assert(piece == content@.subrange(p as int, line_end as int));
            assert((seq![piece] + split_lines(rest))[0] == piece);
            assert((seq![piece] + split_lines(rest)).drop_first() =~= split_lines(rest));
        }
        let ts = skip_spaces(content, p, line_end);
        let te = rskip_spaces(content, ts, line_end);
        proof {
            if ts < line_end && te == ts {
                assert(is_space(content@[ts as int]));
                assert(false);
            }
            assert forall|k: int| 0 <= k < ts - p implies is_space(piece[k]) by {
                assert(piece[k] == content@[p + k]);
            }
            assert forall|k: int| te - p <= k < piece.len() implies is_space(piece[k]) by {
                assert(piece[k] == content@[p + k]);
            }
            if ts < te {
                assert(piece[ts - p] == content@[ts as int]);
                assert(piece[te - p - 1] == content@[te as int - 1]);
            }
            lemma_trim(piece, (ts - p) as nat, (te - p) as nat);
            assert(piece.subrange(ts as int - p as int, te as int - p as int) =~= content@.subrange(
                ts as int,
                te as int,
            ));
            assert(trim(piece) == content@.subrange(ts as int, te as int));
        }
        let ghost found_dv0 = found.deep_view();
        if depth == 0 {
            match match_decl(content, ts, te) {
                Some(m) => {
                    let (ae, nb, ne) = m;
                    let tpart = content.substring_char(ts, ae);
                    let npart = content.substring_char(nb, ne);
                    found.push((String::from_str(npart), String::from_str(tpart)));
                    proof {
                        assert(found.deep_view() =~= found_dv0 + seq![
                            (
                                content@.subrange(nb as int, ne as int),
                                content@.subrange(ts as int, ae as int),
                            ),
                        ]);
                    }
                },
                None => {
                    proof {
                        assert(found.deep_view() =~= found_dv0 + Seq::<(
                            Seq<char>,
                            Seq<char>,
                        )>::empty());
                    }
                },
            }
        } else {
            proof {
                assert(found.deep_view() =~= found_dv0 + Seq::<(Seq<char>, Seq<char>)>::empty());
            }
        }
        let braces = count_braces(content, ts, te);
        proof {
            lemma_count_char_bounds(trim(piece), '{');
            lemma_count_char_bounds(trim(piece), '}');
        }
        let delta: i128 = braces.0 as i128 - braces.1 as i128;
        proof {
            assert(delta == braces_delta(trim(piece)));
            assert(-((line_end - p) as int) <= delta <= (line_end - p) as int);
            assert(project_types_from(split_lines(suffix), depth as int) == (if depth as int == 0 {
                match decl_of(trim(piece)) {
                    Some(pr) => seq![(pr.1, pr.0)],
                    None => Seq::<(Seq<char>, Seq<char>)>::empty(),
                }
            } else {
                Seq::<(Seq<char>, Seq<char>)>::empty()
            }) + project_types_from(split_lines(rest), depth as int + delta as int));
        }
        depth = depth + delta;
        proof {
            assert(project_types(content@) == found.deep_view() + project_types_from(
                split_lines(rest),
                depth as int,
            ));
        }
        if has_nl {
            p = q + 1;
        } else {
            p = n;
            proof {
                assert(content@.skip(n as int) =~= Seq::<char>::empty());
            }
        }
    }
    proof {
        assert(content@.skip(n as int) =~= Seq::<char>::empty());
        assert(project_types_from(split_lines(content@.skip(p as int)), depth as int) =~= Seq::<(
            Seq<char>,
            Seq<char>,
        )>::empty());
        assert(project_types(content@) =~= found.deep_view());
    }
    found
}

/// The package-manager invocation for a native-shell project: the first
/// command word may need the shell tool's own prefix, the rest pass
/// through unchanged.
pub open spec fn tauri_args(args: Seq<Seq<char>>) -> Seq<Seq<char>>
    recommends
        args.len() > 0,
{
    let first = args[0];
    (if first == "dev"@ || first == "build"@ || first == "info"@ || first == "init"@ || first
        == "icon"@ {
        seq!["tauri"@, first]
    } else {
        seq![first]
    }) + args.drop_first()
}

/// Maps the user's command words to the invocation for a desktop-shell
/// project, or `None` when no command was given.
pub fn tauri_command_line(args: &Vec<String>) -> (r: Option<(String, Vec<String>)>)
    ensures
        r is None <==> args@.len() == 0,
        r matches Some(c) ==> c.0@ == "pnpm"@ && c.1.deep_view() == tauri_args(args.deep_view()),
{
    if args.len() == 0 {
        return None;
    }
    let first = &args[0];
    let mut full: Vec<String> = Vec::new();
    if str_eq(first.as_str(), "dev") || str_eq(first.as_str(), "build") || str_eq(
        first.as_str(),
        "info",
    ) || str_eq(first.as_str(), "init") || str_eq(first.as_str(), "icon") {
        full.push(String::from_str("tauri"));
        full.push(first.clone());
        proof {
            assert(full.deep_view() =~= seq!["tauri"@, args.deep_view()[0]]);
        }
    } else {
        full.push(first.clone());
        proof {
            assert(full.deep_view() =~= seq![args.deep_view()[0]]);
        }
    }
    let ghost prefix = full.deep_view();
    let mut k: usize = 1;
    proof {
        assert(args.deep_view().subrange(1, 1) =~= Seq::<Seq<char>>::empty());
        assert(full.deep_view() =~= prefix + args.deep_view().subrange(1, 1));
    }
    while k < args.len()
        invariant
            1 <= k <= args@.len(),
            full.deep_view() == prefix + args.deep_view().subrange(1, k as int),
        decreases args@.len() - k,
    {
        let ghost full_dv0 = full.deep_view();
        full.push(args[k].clone());
        proof {
            assert(full.deep_view() =~= full_dv0.push(args.deep_view()[k as int]));
            assert(args.deep_view().subrange(1, k + 1).drop_last() =~= args.deep_view().subrange(
                1,
                k as int,
            ));
            assert(args.deep_view().subrange(1, k + 1).last() == args.deep_view()[k as int]);
            assert(full.deep_view() =~= prefix + args.deep_view().subrange(1, k + 1));
        }
        k = k + 1;
    }
    proof {
        assert(args.deep_view().subrange(1, args@.len() as int) =~= args.deep_view().drop_first());
        assert(full.deep_view() =~= tauri_args(args.deep_view()));
    }
    Some((String::from_str("pnpm"), full))
}

/// The cargo invocation for a systems-language project: install builds,
/// start and dev run, anything else passes through; no command builds.
pub open spec fn cargo_args(args: Seq<Seq<char>>) -> Seq<Seq<char>> {
    if args.len() == 0 {
        seq!["build"@]
    } else if args[0] == "install"@ {
        seq!["build"@]
    } else if args[0] == "start"@ || args[0] == "dev"@ {
        seq!["run"@]
    } else {
        args
    }
}

/// Maps the user's command words to the cargo invocation for a
/// systems-language project.
pub fn cargo_command_line(args: &Vec<String>) -> (r: Vec<String>)
    ensures
        r.deep_view() == cargo_args(args.deep_view()),
{
    let mut full: Vec<String> = Vec::new();
    if args.len() == 0 {
        full.push(String::from_str("build"));
        proof {
            assert(full.deep_view() =~= seq!["build"@]);
        }
        return full;
    }
    let first = &args[0];
    if str_eq(first.as_str(), "install") {
        full.push(String::from_str("build"));
        proof {
            assert(full.deep_view() =~= seq!["build"@]);
        }
        return full;
    }
    if str_eq(first.as_str(), "start") || str_eq(first.as_str(), "dev") {
        full.push(String::from_str("run"));
        proof {
            assert(full.deep_view() =~= seq!["run"@]);
        }
        return full;
    }
    let mut k: usize = 0;
    proof {
        assert(args.deep_view().take(0) =~= Seq::<Seq<char>>::empty());
        assert(full.deep_view() =~= args.deep_view().take(0));
    }
    while k < args.len()
        invariant
            k <= args@.len(),
            full.deep_view() == args.deep_view().take(k as int),
        decreases args@.len() - k,
    {
        full.push(args[k].clone());
        proof {
            assert(args.deep_view().take(k + 1).drop_last() =~= args.deep_view().take(k as int));
            assert(args.deep_view().take(k + 1).last() == args.deep_view()[k as int]);
            assert(full.deep_view() =~= args.deep_view().take(k + 1));
        }
        k = k + 1;
    }
    proof {
        assert(args.deep_view().take(args@.len() as int) =~= args.deep_view());
    }
    full
}

} // verus!
