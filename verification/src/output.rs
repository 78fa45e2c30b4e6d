//! Output Formatter: renders the final changed-path set into the exact
//! NUL-delimited text the calling tool reads from standard output — no
//! trailing newline, no other framing.

use vstd::prelude::*;

verus! {

/// The final answer of one invocation: the changed paths and, for V2, the
/// continuation token, or the conservative "everything changed" marker used
/// right after a watch is first established.
#[derive(Debug, PartialEq, Eq)]
pub enum ChangedSet {
    /// V1 success: the changed paths, in the order the service gave them.
    V1 { paths: Vec<String> },
    /// V1 full invalidation: the caller treats every file as changed.
    V1Everything,
    /// V2 success: the new continuation token, then the changed paths.
    V2 { token: String, paths: Vec<String> },
    /// V2 full invalidation, with a fresh token for the next incremental
    /// query.
    V2Everything { token: String },
}

/// Each path followed by a NUL byte, concatenated in order.
pub open spec fn render_paths(ps: Seq<Seq<char>>) -> Seq<char>
    decreases ps.len(),
{
    if ps.len() == 0 {
        Seq::empty()
    } else {
        render_paths(ps.drop_last()) + ps.last() + seq!['\0']
    }
}

/// The exact text a changed set renders to. V1: the NUL-terminated paths
/// alone, or a single empty NUL-terminated field for full invalidation. V2:
/// the continuation token first, NUL-terminated, then the paths; full
/// invalidation keeps the token and marks the paths with the sentinel
/// segment `/`.
pub open spec fn spec_render(set: ChangedSet) -> Seq<char> {
    match set {
        ChangedSet::V1 { paths } => render_paths(paths.deep_view()),
        ChangedSet::V1Everything => seq!['\0'],
        ChangedSet::V2 { token, paths } => token@ + seq!['\0'] + render_paths(paths.deep_view()),
        ChangedSet::V2Everything { token } => token@ + seq!['\0', '/', '\0'],
    }
}

/// No NUL byte anywhere in the text: the service's guarantee for every path
/// it reports, and what makes NUL usable as the output field separator.
pub open spec fn no_nul(s: Seq<char>) -> bool {
    forall|i: int| 0 <= i < s.len() ==> s[i] != '\0'
}

/// Every path in the list is NUL-free.
pub open spec fn all_no_nul(ps: Seq<Seq<char>>) -> bool {
    forall|i: int| 0 <= i < ps.len() ==> no_nul(#[trigger] ps[i])
}

proof fn lemma_render_paths_len(ps: Seq<Seq<char>>)
    ensures
        ps.len() == 0 ==> render_paths(ps).len() == 0,
        ps.len() > 0 ==> render_paths(ps).len() >= 1,
        ps.len() > 0 ==> render_paths(ps).last() == '\0',
{
    if ps.len() > 0 {
        let r = render_paths(ps.drop_last()) + ps.last() + seq!['\0'];
        assert(r.last() == '\0');
    }
}

/// The NUL-delimited framing is lossless: two NUL-free path lists that
/// render to the same text are the same list, so the caller can always
/// recover the paths from the output.
pub proof fn lemma_render_paths_lossless(ps1: Seq<Seq<char>>, ps2: Seq<Seq<char>>)
    requires
        all_no_nul(ps1),
        all_no_nul(ps2),
        render_paths(ps1) == render_paths(ps2),
    ensures
        ps1 == ps2,
    decreases ps1.len(),
{
    lemma_render_paths_len(ps1);
    lemma_render_paths_len(ps2);
    if ps1.len() == 0 || ps2.len() == 0 {
        assert(ps1.len() == 0 && ps2.len() == 0);
        assert(ps1 =~= ps2);
    } else {
        let r = render_paths(ps1);
        let a1 = render_paths(ps1.drop_last());
        let a2 = render_paths(ps2.drop_last());
        let p1 = ps1.last();
        let p2 = ps2.last();
        assert(r =~= a1 + p1 + seq!['\0']);
        assert(r =~= a2 + p2 + seq!['\0']);
        assert(no_nul(p1));
        assert(no_nul(p2));
        lemma_render_paths_len(ps1.drop_last());
        lemma_render_paths_len(ps2.drop_last());
        // The last path is the maximal NUL-free run before the final NUL,
        // so both lists agree on its extent.
        assert(p1.len() == p2.len()) by {
            if p1.len() < p2.len() {
                // The character just before p1 is the last of a1, a NUL
                // (a1 cannot be empty, since p2 and the final NUL already
                // fill more than r without a1's room); yet the same position
                // falls inside p2, which holds no NUL.
                assert(a1.len() > 0);
                assert(r[a1.len() - 1] == a1.last());
                assert(a1.last() == '\0');
                let off = a1.len() - 1 - (r.len() - 1 - p2.len());
                assert(r[a1.len() - 1] == p2[off]);
                assert(false);
            }
            if p2.len() < p1.len() {
                assert(a2.len() > 0);
                assert(r[a2.len() - 1] == a2.last());
                assert(a2.last() == '\0');
                let off = a2.len() - 1 - (r.len() - 1 - p1.len());
                assert(r[a2.len() - 1] == p1[off]);
                assert(false);
            }
        }
        assert(p1 =~= p2) by {
            assert(forall|i: int|
                0 <= i < p1.len() ==> #[trigger] p1[i] == r[a1.len() + i] && p2[i] == r[a2.len()
                    + i]);
        }
        assert(a1 =~= a2) by {
            assert(forall|i: int| 0 <= i < a1.len() ==> #[trigger] a1[i] == r[i] && a2[i] == r[i]);
        }
        assert(all_no_nul(ps1.drop_last()));
        assert(all_no_nul(ps2.drop_last()));
        lemma_render_paths_lossless(ps1.drop_last(), ps2.drop_last());
        assert(ps1 =~= ps2) by {
            assert(ps1.drop_last() == ps2.drop_last());
            assert(ps1.len() == ps2.len());
            assert(forall|i: int|
                0 <= i < ps1.len() - 1 ==> #[trigger] ps1[i] == ps1.drop_last()[i] && ps2[i]
                    == ps2.drop_last()[i]);
            assert(ps1.last() == ps2.last());
        }
    }
}

proof fn lemma_render_paths_snoc(ps: Seq<Seq<char>>, i: int)
    requires
        0 <= i < ps.len(),
    ensures
        render_paths(ps.subrange(0, i + 1)) == render_paths(ps.subrange(0, i)) + ps[i] + seq![
            '\0',
        ],
{
    let longer = ps.subrange(0, i + 1);
    assert(longer.drop_last() =~= ps.subrange(0, i));
    assert(longer.last() == ps[i]);
}

/// Appends every path of `paths`, each NUL-terminated, onto `out`.
fn append_paths(out: &mut String, paths: &Vec<String>)
    ensures
        final(out)@ == old(out)@ + render_paths(paths.deep_view()),
{
    let ghost base = out@;
    let mut i: usize = 0;
    proof {
        assert(paths.deep_view().subrange(0, 0) =~= Seq::<Seq<char>>::empty());
    }
    while i < paths.len()
        invariant
            0 <= i <= paths.len(),
            paths.deep_view().len() == paths.len(),
            out@ == base + render_paths(paths.deep_view().subrange(0, i as int)),
        decreases paths.len() - i,
    {
        out.append(paths[i].as_str());
        out.append("\u{0}");
        proof {
            reveal_strlit("\u{0}");
            assert(paths.deep_view()[i as int] == paths[i as int]@);
            lemma_render_paths_snoc(paths.deep_view(), i as int);
        }
        i = i + 1;
    }
    proof {
        assert(paths.deep_view().subrange(0, paths.len() as int) =~= paths.deep_view());
    }
}

/// Renders a changed set to its exact output text.
pub fn render(set: &ChangedSet) -> (out: String)
    ensures
        out@ == spec_render(*set),
{
    match set {
        ChangedSet::V1 { paths } => {
            let mut out = String::new();
            append_paths(&mut out, paths);
            out
        },
        ChangedSet::V1Everything => {
            proof {
                reveal_strlit("\u{0}");
            }
            let out = String::from_str("\u{0}");
            proof {
                assert(out@ =~= seq!['\0']);
            }
            out
        },
        ChangedSet::V2 { token, paths } => {
            let mut out = token.clone();
            out.append("\u{0}");
            proof {
                reveal_strlit("\u{0}");
                assert(out@ =~= token@ + seq!['\0']);
            }
            append_paths(&mut out, paths);
            out
        },
        ChangedSet::V2Everything { token } => {
            let mut out = token.clone();
            out.append("\u{0}/\u{0}");
            proof {
                reveal_strlit("\u{0}/\u{0}");
                assert(out@ =~= token@ + seq!['\0', '/', '\0']);
            }
            out
        },
    }
}

} // verus!
