//! The URL rewrite policy: which sub-repository URLs move to the mirror,
//! and under which repository name.
use vstd::prelude::*;

verus! {

/// `p` is a prefix of `s`.
pub open spec fn has_prefix(s: Seq<char>, p: Seq<char>) -> bool {
    p.len() <= s.len() && s.subrange(0, p.len() as int) == p
}

/// The marker of a repository hosted two directories above its parent: `../../`.
pub open spec fn relative_parent_marker() -> Seq<char> {
    seq!['.', '.', '/', '.', '.', '/']
}

/// The canonical public host of the ecosystem: `https://github.com`.
pub open spec fn public_host_prefix() -> Seq<char> {
    seq!['h', 't', 't', 'p', 's', ':', '/', '/', 'g', 'i', 't', 'h', 'u', 'b', '.', 'c', 'o', 'm']
}

/// A URL that the mirror takes over.
pub open spec fn is_eligible(url: Seq<char>) -> bool {
    has_prefix(url, relative_parent_marker()) || has_prefix(url, public_host_prefix())
}

/// Position `i` holds the last `/` of `url`.
pub open spec fn is_last_slash(url: Seq<char>, i: int) -> bool {
    0 <= i < url.len() && url[i] == '/' && forall|j: int| i < j < url.len() ==> url[j] != '/'
}

/// What follows the last `/` of `url`; all of `url` where it holds none.
pub open spec fn last_segment(url: Seq<char>) -> Seq<char> {
    if exists|i: int| is_last_slash(url, i) {
        let i = choose|i: int| is_last_slash(url, i);
        url.subrange(i + 1, url.len() as int)
    } else {
        url
    }
}

/// The name corrections, as (prefix, canonical name) pairs, tried in order.
pub open spec fn correction_table() -> Seq<(Seq<char>, Seq<char>)> {
    seq![
        (seq!['u', 'n', 'i', 't', 'y'], seq!['U', 'n', 'i', 't', 'y']),
        (
            seq!['c', 'e', 'x', 'c', 'e', 'p', 't', 'i', 'o', 'n'],
            seq!['C', 'E', 'x', 'c', 'e', 'p', 't', 'i', 'o', 'n'],
        ),
    ]
}

/// The canonical name of the first entry of `table` whose prefix starts
/// `name`; `name` itself where none does.
pub open spec fn corrected_by(name: Seq<char>, table: Seq<(Seq<char>, Seq<char>)>) -> Seq<char>
    decreases table.len(),
{
    if table.len() == 0 {
        name
    } else if has_prefix(name, table[0].0) {
        table[0].1
    } else {
        corrected_by(name, table.drop_first())
    }
}

/// A repository name after correction.
pub open spec fn corrected_name(name: Seq<char>) -> Seq<char> {
    corrected_by(name, correction_table())
}

/// The mirror URL of an eligible URL.
pub open spec fn rewritten_url(url: Seq<char>, mirror_base: Seq<char>) -> Seq<char> {
    mirror_base + corrected_name(last_segment(url))
}

/// The outcome of the policy for one URL.
#[derive(Clone, Debug, PartialEq, Eq)]
pub enum Decision {
    Rewrite(String),
    Skip,
}

/// `d` is the policy's decision for `url` under `mirror_base`.
pub open spec fn is_decision(d: Decision, url: Seq<char>, mirror_base: Seq<char>) -> bool {
    match d {
        Decision::Rewrite(u) => is_eligible(url) && u@ == rewritten_url(url, mirror_base),
        Decision::Skip => !is_eligible(url),
    }
}

/// Whether `s` starts with `p`.
pub fn starts_with(s: &str, p: &str) -> (r: bool)
    ensures
        r == has_prefix(s@, p@),
{
    let n = s.unicode_len();
    let m = p.unicode_len();
    if m > n {
        return false;
    }
    let mut i: usize = 0;
    while i < m
        invariant
            m == p@.len(),
            n == s@.len(),
            m <= n,
            i <= m,
            forall|j: int| 0 <= j < i ==> s@[j] == p@[j],
        decreases m - i,
    {
        if s.get_char(i) != p.get_char(i) {
            assert(s@.subrange(0, m as int)[i as int] != p@[i as int]);
            return false;
        }
        i = i + 1;
    }
    assert(s@.subrange(0, m as int) =~= p@);
    true
}

/// What follows the last `/` of `url`.
pub fn last_path_segment(url: &str) -> (r: String)
    ensures
        r@ == last_segment(url@),
{
    let n = url.unicode_len();
    let mut i: usize = n;
    while i > 0
        invariant
            n == url@.len(),
            i <= n,
            forall|j: int| i <= j < n ==> url@[j] != '/',
        decreases i,
    {
        if url.get_char(i - 1) == '/' {
            let k = i - 1;
            assert(is_last_slash(url@, k as int));
            let ghost c = choose|c: int| is_last_slash(url@, c);
            assert(c == k as int) by {
                if c < k as int {
                    assert(url@[k as int] == '/');
                } else if c > k as int {
                    assert(url@[c] == '/');
                }
            }
            return String::from_str(url.substring_char(i, n));
        }
        i = i - 1;
    }
    assert(!exists|c: int| is_last_slash(url@, c));
    String::from_str(url)
}

/// One name correction: names starting with `prefix` become `canonical`.
#[derive(Clone, Debug, PartialEq, Eq)]
pub struct NameCorrection {
    pub prefix: String,
    pub canonical: String,
}

/// The pairs of a list of corrections.
pub open spec fn corrections_view(v: Seq<NameCorrection>) -> Seq<(Seq<char>, Seq<char>)> {
    v.map_values(|c: NameCorrection| (c.prefix@, c.canonical@))
}

/// The name corrections, in the order in which they are tried.
pub fn name_corrections() -> (r: Vec<NameCorrection>)
    ensures
        corrections_view(r@) == correction_table(),
{
    let mut r: Vec<NameCorrection> = Vec::new();
    r.push(NameCorrection { prefix: String::from_str("unity"), canonical: String::from_str("Unity") });
    r.push(
        NameCorrection {
            prefix: String::from_str("cexception"),
            canonical: String::from_str("CException"),
        },
    );
    proof {
        reveal_strlit("unity");
        reveal_strlit("Unity");
        reveal_strlit("cexception");
        reveal_strlit("CException");
        let t = correction_table();
        assert("unity"@ =~= t[0].0);
        assert("Unity"@ =~= t[0].1);
        assert("cexception"@ =~= t[1].0);
        assert("CException"@ =~= t[1].1);
        assert(corrections_view(r@) =~= t);
    }
    r
}

proof fn lemma_corrected_by_skip(
    name: Seq<char>,
    table: Seq<(Seq<char>, Seq<char>)>,
    i: int,
)
    requires
        0 <= i <= table.len(),
        forall|j: int| 0 <= j < i ==> !has_prefix(name, #[trigger] table[j].0),
    ensures
        corrected_by(name, table) == corrected_by(name, table.subrange(i, table.len() as int)),
    decreases i,
{
    if i > 0 {
        lemma_corrected_by_skip(name, table.drop_first(), i - 1);
        assert(table.drop_first().subrange(i - 1, table.drop_first().len() as int) =~= table.subrange(
            i,
            table.len() as int,
        ));
    } else {
        assert(table.subrange(0, table.len() as int) =~= table);
    }
}

/// Name correction is idempotent: correcting a corrected name changes nothing.
pub proof fn lemma_correction_idempotent(name: Seq<char>)
    ensures
        corrected_name(corrected_name(name)) == corrected_name(name),
{
    reveal_with_fuel(corrected_by, 3);
    let t = correction_table();
    let c = corrected_name(name);
    if has_prefix(name, t[0].0) {
        assert(c == t[0].1);
        assert(c.subrange(0, 5)[0] != t[0].0[0]);
        assert(!has_prefix(c, t[0].0));
        assert(!has_prefix(c, t[1].0));
    } else if has_prefix(name, t[1].0) {
        assert(c == t[1].1);
        assert(c.subrange(0, 5)[0] != t[0].0[0]);
        assert(!has_prefix(c, t[0].0));
        assert(c.subrange(0, 10)[0] != t[1].0[0]);
        assert(!has_prefix(c, t[1].0));
    } else {
        assert(c == name);
    }
}

/// A repository name after correction.
pub fn correct_name(name: &str) -> (r: String)
    ensures
        r@ == corrected_name(name@),
{
    let table = name_corrections();
    let mut i: usize = 0;
    while i < table.len()
        invariant
            corrections_view(table@) == correction_table(),
            i <= table@.len(),
            forall|j: int| 0 <= j < i ==> !has_prefix(name@, #[trigger] correction_table()[j].0),
        decreases table.len() - i,
    {
        if starts_with(name, table[i].prefix.as_str()) {
            proof {
                let t = correction_table();
                lemma_corrected_by_skip(name@, t, i as int);
                assert(t.subrange(i as int, t.len() as int)[0] == t[i as int]);
            }
            return table[i].canonical.clone();
        }
        i = i + 1;
    }
    proof {
        let t = correction_table();
        lemma_corrected_by_skip(name@, t, i as int);
        assert(t.subrange(i as int, t.len() as int).len() == 0);
    }
    String::from_str(name)
}

/// The policy's decision for one URL: eligible URLs move to
/// `mirror_base` followed by their corrected name, the others stay.
pub fn decide(original_url: &str, mirror_base: &str) -> (r: Decision)
    ensures
        is_decision(r, original_url@, mirror_base@),
{
    let relative = starts_with(original_url, "../../");
    let public = starts_with(original_url, "https://github.com");
    proof {
        reveal_strlit("../../");
        reveal_strlit("https://github.com");
        assert("../../"@ =~= relative_parent_marker());
        assert("https://github.com"@ =~= public_host_prefix());
    }
    if !(relative || public) {
        return Decision::Skip;
    }
    let name = last_path_segment(original_url);
    let corrected = correct_name(name.as_str());
    let url = String::from_str(mirror_base).concat(corrected.as_str());
    Decision::Rewrite(url)
}

} // verus!
