//! Output-path derivation: the source stem, the constructed file name, and
//! collision avoidance under the two conflict policies.
//!
//! The caller (outside the library) lists the names already present in the
//! destination directory and passes them in; everything decided from that
//! list is verified here.

use vstd::prelude::*;
use crate::decimal::{dec_spec, u64_to_string};
use crate::settings::{ConflictResolution, ConversionSettings};

verus! {

/// `s` with every trailing `/` removed.
pub open spec fn strip_trailing_slashes(s: Seq<char>) -> Seq<char>
    decreases s.len(),
{
    if s.len() > 0 && s.last() == '/' {
        strip_trailing_slashes(s.drop_last())
    } else {
        s
    }
}

/// The suffix of `s` after its last `/`, or all of `s` if it has none.
pub open spec fn suffix_after_slash(s: Seq<char>) -> Seq<char>
    decreases s.len(),
{
    if s.len() == 0 {
        s
    } else if s.last() == '/' {
        Seq::empty()
    } else {
        suffix_after_slash(s.drop_last()) + seq![s.last()]
    }
}

/// The index of the last `.` in `f`, or `-1` if there is none.
pub open spec fn last_dot_index(f: Seq<char>) -> int
    decreases f.len(),
{
    if f.len() == 0 {
        -1
    } else if f.last() == '.' {
        f.len() - 1
    } else {
        last_dot_index(f.drop_last())
    }
}

/// The file name without its extension.  A `.` at the very start marks a
/// hidden file, not an extension.
pub open spec fn stem_of_filename(f: Seq<char>) -> Seq<char> {
    let p = last_dot_index(f);
    if p >= 1 {
        f.take(p)
    } else {
        f
    }
}

/// The stem of a whole path: the file name part without its extension, or
/// `None` when the path has no usable file name component.
pub open spec fn spec_stem(path: Seq<char>) -> Option<Seq<char>> {
    let f = suffix_after_slash(strip_trailing_slashes(path));
    if f.len() == 0 || f == "."@ || f == ".."@ {
        None
    } else {
        Some(stem_of_filename(f))
    }
}

/// The stem actually used: the literal `image` stands in when the path has
/// no usable file name component.
pub open spec fn spec_stem_or_default(path: Seq<char>) -> Seq<char> {
    match spec_stem(path) {
        Some(s) => s,
        None => "image"@,
    }
}

/// The default output name: `{prefix}{stem}.{ext}`.
pub open spec fn default_name(prefix: Seq<char>, stem: Seq<char>, ext: Seq<char>) -> Seq<char> {
    prefix + stem + "."@ + ext
}

/// The `n`-th collision-avoidance candidate: `{prefix}{stem}_{n}.{ext}`.
pub open spec fn numbered_name(prefix: Seq<char>, stem: Seq<char>, n: nat, ext: Seq<char>) -> Seq<
    char,
> {
    prefix + stem + "_"@ + dec_spec(n) + "."@ + ext
}

/// Whether some entry of `taken` reads as `name`.
pub open spec fn name_taken(taken: Seq<String>, name: Seq<char>) -> bool {
    exists|i: int| 0 <= i < taken.len() && taken[i]@ == name
}

/// What `resolve_output_name` may return: under `Overwrite` always the
/// default name; under `Numbering` the default name when it is free, else
/// the first numbered candidate that is free.
pub open spec fn resolved_name_ok(
    settings: ConversionSettings,
    stem: Seq<char>,
    ext: Seq<char>,
    taken: Seq<String>,
    name: Seq<char>,
) -> bool {
    let prefix = settings.file_prefix@;
    match settings.conflict_resolution {
        ConflictResolution::Overwrite => name == default_name(prefix, stem, ext),
        ConflictResolution::Numbering => {
            if !name_taken(taken, default_name(prefix, stem, ext)) {
                name == default_name(prefix, stem, ext)
            } else {
                exists|n: nat|
                    1 <= n && name == #[trigger] numbered_name(prefix, stem, n, ext) && !name_taken(
                        taken,
                        numbered_name(prefix, stem, n, ext),
                    ) && (forall|m: nat|
                        1 <= m < n ==> name_taken(taken, numbered_name(prefix, stem, m, ext)))
            }
        },
    }
}

/// Distinct counters give distinct numbered names: the shared prefix and
/// suffix cancel, and distinct numbers render to distinct decimals.
pub proof fn lemma_numbered_name_injective(
    prefix: Seq<char>,
    stem: Seq<char>,
    ext: Seq<char>,
    n1: nat,
    n2: nat,
)
    requires
        numbered_name(prefix, stem, n1, ext) == numbered_name(prefix, stem, n2, ext),
    ensures
        n1 == n2,
{
    let p = prefix + stem + "_"@;
    let d1 = dec_spec(n1);
    let d2 = dec_spec(n2);
    let name1 = numbered_name(prefix, stem, n1, ext);
    let name2 = numbered_name(prefix, stem, n2, ext);
    assert(name1.len() == p.len() + d1.len() + "."@.len() + ext.len());
    assert(name2.len() == p.len() + d2.len() + "."@.len() + ext.len());
    assert forall|i: int| 0 <= i < d1.len() implies d1[i] == d2[i] by {
        assert(name1[p.len() + i] == d1[i]);
        assert(name2[p.len() + i] == d2[i]);
    }
    assert(d1 =~= d2);
    crate::decimal::lemma_dec_injective(n1, n2);
}

/// The numbered candidates from 1 to `count`, as a set of names.
spec fn candidate_names(prefix: Seq<char>, stem: Seq<char>, ext: Seq<char>, count: nat) -> Set<
    Seq<char>,
> {
    Set::new(
        |c: Seq<char>|
            exists|n: nat| 1 <= n <= count && c == #[trigger] numbered_name(prefix, stem, n, ext),
    )
}

proof fn lemma_candidate_names_card(prefix: Seq<char>, stem: Seq<char>, ext: Seq<char>, count: nat)
    ensures
        candidate_names(prefix, stem, ext, count).finite(),
        candidate_names(prefix, stem, ext, count).len() == count,
    decreases count,
{
    broadcast use vstd::set::group_set_axioms;

    if count == 0 {
        assert(candidate_names(prefix, stem, ext, 0) =~= Set::<Seq<char>>::empty());
    } else {
        let prev = (count - 1) as nat;
        lemma_candidate_names_card(prefix, stem, ext, prev);
        let c = numbered_name(prefix, stem, count, ext);
        assert(!candidate_names(prefix, stem, ext, prev).contains(c)) by {
            if candidate_names(prefix, stem, ext, prev).contains(c) {
                let n = choose|n: nat|
                    1 <= n <= prev && c == #[trigger] numbered_name(prefix, stem, n, ext);
                lemma_numbered_name_injective(prefix, stem, ext, n, count);
            }
        }
        assert forall|x: Seq<char>|
            candidate_names(prefix, stem, ext, count).contains(x) implies candidate_names(
            prefix,
            stem,
            ext,
            prev,
        ).insert(c).contains(x) by {
            let n = choose|n: nat|
                1 <= n <= count && x == #[trigger] numbered_name(prefix, stem, n, ext);
            if n <= prev {
                assert(candidate_names(prefix, stem, ext, prev).contains(x));
            } else {
                assert(x == c);
            }
        }
        assert forall|x: Seq<char>|
            candidate_names(prefix, stem, ext, prev).insert(c).contains(x) implies candidate_names(
            prefix,
            stem,
            ext,
            count,
        ).contains(x) by {
            if candidate_names(prefix, stem, ext, prev).contains(x) {
                let n = choose|n: nat|
                    1 <= n <= prev && x == #[trigger] numbered_name(prefix, stem, n, ext);
                assert(1 <= n <= count && x == numbered_name(prefix, stem, n, ext));
            } else {
                assert(x == numbered_name(prefix, stem, count, ext));
            }
        }
        assert(candidate_names(prefix, stem, ext, count) =~= candidate_names(
            prefix,
            stem,
            ext,
            prev,
        ).insert(c));
    }
}

/// Among the first `len(taken) + 1` numbered candidates some name is always
/// free: the candidates are pairwise distinct, and a list cannot hold more
/// distinct names than its length.  This is why the numbering probe needs
/// no unbounded search.
pub proof fn lemma_free_candidate_exists(
    prefix: Seq<char>,
    stem: Seq<char>,
    ext: Seq<char>,
    taken: Seq<String>,
)
    ensures
        exists|n: nat|
            1 <= n <= taken.len() + 1 && !name_taken(
                taken,
                #[trigger] numbered_name(prefix, stem, n, ext),
            ),
{
    broadcast use vstd::set::group_set_axioms, vstd::seq_lib::seq_to_set_is_finite;

    let count = (taken.len() + 1) as nat;
    if forall|n: nat|
        1 <= n <= count ==> name_taken(taken, #[trigger] numbered_name(prefix, stem, n, ext)) {
        let cands = candidate_names(prefix, stem, ext, count);
        lemma_candidate_names_card(prefix, stem, ext, count);
        let taken_vals = taken.map_values(|s: String| s@);
        assert forall|x: Seq<char>| cands.contains(x) implies taken_vals.to_set().contains(x) by {
            let n = choose|n: nat|
                1 <= n <= count && x == #[trigger] numbered_name(prefix, stem, n, ext);
            assert(name_taken(taken, numbered_name(prefix, stem, n, ext)));
            let i = choose|i: int| 0 <= i < taken.len() && taken[i]@ == x;
            assert(taken_vals[i] == x);
            assert(taken_vals.contains(x));
        }
        taken_vals.lemma_cardinality_of_set();
        vstd::set_lib::lemma_len_subset(cands, taken_vals.to_set());
        assert(false);
    }
}

proof fn lemma_strip_trailing(s: Seq<char>, end: int)
    requires
        0 <= end <= s.len(),
        forall|j: int| end <= j < s.len() ==> s[j] == '/',
        end == 0 || s[end - 1] != '/',
    ensures
        strip_trailing_slashes(s) == s.take(end),
    decreases s.len(),
{
    if s.len() > end {
        assert(s.last() == '/');
        lemma_strip_trailing(s.drop_last(), end);
        assert(s.drop_last().take(end) =~= s.take(end));
    } else {
        assert(s.take(end) =~= s);
    }
}

proof fn lemma_suffix_after(s: Seq<char>, start: int)
    requires
        0 <= start <= s.len(),
        forall|j: int| start <= j < s.len() ==> s[j] != '/',
        start == 0 || s[start - 1] == '/',
    ensures
        suffix_after_slash(s) == s.skip(start),
    decreases s.len(),
{
    if s.len() == 0 {
        assert(s.skip(start) =~= s);
    } else if s.len() == start {
        assert(s.last() == '/');
        assert(s.skip(start) =~= Seq::<char>::empty());
    } else {
        assert(s.last() != '/');
        lemma_suffix_after(s.drop_last(), start);
        assert(suffix_after_slash(s.drop_last()) + seq![s.last()] =~= s.skip(start));
    }
}

proof fn lemma_last_dot_at(f: Seq<char>, p: int)
    requires
        0 <= p < f.len(),
        f[p] == '.',
        forall|j: int| p < j < f.len() ==> f[j] != '.',
    ensures
        last_dot_index(f) == p,
    decreases f.len(),
{
    if f.len() - 1 > p {
        assert(f.last() != '.');
        lemma_last_dot_at(f.drop_last(), p);
    }
}

proof fn lemma_no_dot(f: Seq<char>)
    requires
        forall|j: int| 0 <= j < f.len() ==> f[j] != '.',
    ensures
        last_dot_index(f) == -1,
    decreases f.len(),
{
    if f.len() > 0 {
        lemma_no_dot(f.drop_last());
    }
}

/// The stem of `path`: the file name without directories and without its
/// extension; the literal `image` when the path has no file name component.
pub fn source_stem(path: &str) -> (r: String)
    ensures
        r@ == spec_stem_or_default(path@),
{
    let len = path.unicode_len();
    // Strip trailing separators.
    let mut end: usize = len;
    while end > 0 && path.get_char(end - 1) == '/'
        invariant
            end <= len,
            len == path@.len(),
            forall|j: int| end <= j < len ==> path@[j] == '/',
        decreases end,
    {
        end = end - 1;
    }
    proof {
        lemma_strip_trailing(path@, end as int);
    }
    // Find the start of the file name.
    let mut start: usize = end;
    while start > 0 && path.get_char(start - 1) != '/'
        invariant
            start <= end <= len,
            len == path@.len(),
            forall|j: int| start <= j < end ==> path@[j] != '/',
        decreases start,
    {
        start = start - 1;
    }
    proof {
        lemma_suffix_after(path@.take(end as int), start as int);
    }
    let fname = path.substring_char(start, end);
    proof {
        assert(path@.take(end as int).skip(start as int) =~= path@.subrange(
            start as int,
            end as int,
        ));
        assert(fname@ == suffix_after_slash(strip_trailing_slashes(path@)));
    }
    let flen = end - start;
    if flen == 0 || str_is(fname, ".") || str_is(fname, "..") {
        proof {
            reveal_strlit("image");
        }
        return String::from_str("image");
    }
    // Find the last dot, if any.
    let mut q: usize = flen;
    while q > 0 && fname.get_char(q - 1) != '.'
        invariant
            q <= flen,
            flen == fname@.len(),
            forall|j: int| q <= j < flen ==> fname@[j] != '.',
        decreases q,
    {
        q = q - 1;
    }
    if q >= 2 {
        // A dot at index q - 1 >= 1 ends the stem.
        proof {
            lemma_last_dot_at(fname@, q - 1);
        }
        let stem = fname.substring_char(0, q - 1);
        proof {
            assert(stem@ =~= stem_of_filename(fname@));
        }
        String::from_str(stem)
    } else {
        // No dot, or only a leading dot: the whole name is the stem.
        proof {
            if q == 0 {
                lemma_no_dot(fname@);
            } else {
                lemma_last_dot_at(fname@, 0);
            }
        }
        String::from_str(fname)
    }
}

/// Whether `s` reads exactly as `t`.
fn str_is(s: &str, t: &str) -> (r: bool)
    ensures
        r == (s@ == t@),
{
    let sl = s.unicode_len();
    let tl = t.unicode_len();
    if sl != tl {
        proof {
            assert(s@.len() != t@.len());
        }
        return false;
    }
    let mut i: usize = 0;
    while i < sl
        invariant
            i <= sl,
            sl == s@.len(),
            sl == t@.len(),
            forall|j: int| 0 <= j < i ==> s@[j] == t@[j],
        decreases sl - i,
    {
        if s.get_char(i) != t.get_char(i) {
            return false;
        }
        i = i + 1;
    }
    proof {
        assert(s@ =~= t@);
    }
    true
}

/// Builds `{prefix}{stem}.{ext}`.
pub fn make_default_name(prefix: &str, stem: &str, ext: &str) -> (r: String)
    ensures
        r@ == default_name(prefix@, stem@, ext@),
{
    let mut s = String::from_str(prefix);
    s.append(stem);
    s.append(".");
    s.append(ext);
    s
}

/// Builds `{prefix}{stem}_{n}.{ext}`.
pub fn make_numbered_name(prefix: &str, stem: &str, n: u64, ext: &str) -> (r: String)
    ensures
        r@ == numbered_name(prefix@, stem@, n as nat, ext@),
{
    let mut s = String::from_str(prefix);
    s.append(stem);
    s.append("_");
    let num = u64_to_string(n);
    s.append(num.as_str());
    s.append(".");
    s.append(ext);
    s
}

/// Whether `name` occurs in `taken`.
fn contains_name(taken: &Vec<String>, name: &String) -> (r: bool)
    ensures
        r == name_taken(taken@, name@),
{
    let mut i: usize = 0;
    while i < taken.len()
        invariant
            i <= taken@.len(),
            forall|j: int| 0 <= j < i ==> taken@[j]@ != name@,
        decreases taken@.len() - i,
    {
        if taken[i].eq(name) {
            return true;
        }
        i = i + 1;
    }
    false
}

/// Picks the output file name for one item: the default name under
/// `Overwrite`; under `Numbering` the default name when no file of that name
/// is present, else the first numbered candidate whose name is free.
///
/// `taken` lists the file names already present in the destination
/// directory.  The numbering probe needs at most one candidate more than
/// that list is long: the candidates are pairwise distinct, so a free one
/// exists among them (`lemma_free_candidate_exists`).
pub fn resolve_output_name(
    settings: &ConversionSettings,
    stem: &str,
    ext: &str,
    taken: &Vec<String>,
) -> (r: String)
    requires
        taken@.len() < usize::MAX,
    ensures
        resolved_name_ok(*settings, stem@, ext@, taken@, r@),
{
    let base = make_default_name(settings.file_prefix.as_str(), stem, ext);
    if settings.conflict_resolution == ConflictResolution::Overwrite {
        base
    } else {
        {
            if !contains_name(taken, &base) {
                return base;
            }
            let cap: usize = taken.len() + 1;
            let mut i: usize = 0;
            while i < cap
                invariant
                    settings.conflict_resolution is Numbering,
                    cap == taken@.len() + 1,
                    taken@.len() < usize::MAX,
                    i <= cap,
                    forall|m: nat|
                        1 <= m <= i ==> name_taken(
                            taken@,
                            numbered_name(settings.file_prefix@, stem@, m, ext@),
                        ),
                    name_taken(taken@, default_name(settings.file_prefix@, stem@, ext@)),
                decreases cap - i,
            {
                let n: u64 = (i as u64) + 1;
                let cand = make_numbered_name(settings.file_prefix.as_str(), stem, n, ext);
                if !contains_name(taken, &cand) {
                    proof {
                        let nn = n as nat;
                        assert(1 <= nn && cand@ == numbered_name(
                            settings.file_prefix@,
                            stem@,
                            nn,
                            ext@,
                        ) && !name_taken(
                            taken@,
                            numbered_name(settings.file_prefix@, stem@, nn, ext@),
                        ) && (forall|m: nat|
                            1 <= m < nn ==> name_taken(
                                taken@,
                                numbered_name(settings.file_prefix@, stem@, m, ext@),
                            )));
                    }
                    return cand;
                }
                i = i + 1;
            }
            proof {
                lemma_free_candidate_exists(settings.file_prefix@, stem@, ext@, taken@);
                assert(false);
            }
            base
        }
    }
}

} // verus!
