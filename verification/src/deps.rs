//! Dependency-closure resolution over the manifest catalog.
//!
//! A catalog entry declares the names of the components it needs.  Starting
//! from a seed of selected names, `find_all_deps` computes the transitive
//! closure of those declarations: the least set of names that contains the
//! seed and, for every catalog entry whose name it contains, that entry's
//! dependencies.  A name with no catalog entry stays in the result as an
//! unresolved leaf, and cycles between entries cannot make the computation
//! diverge, because a name is expanded at most once.

use vstd::prelude::*;
use vstd::seq_lib::*;
use vstd::set_lib::lemma_len_subset;

use crate::request::ConfigYaml;

verus! {

/// The contents of a sequence of strings, as mathematical character
/// sequences.
pub open spec fn names_of(v: Seq<String>) -> Seq<Seq<char>> {
    Seq::new(v.len(), |i: int| v[i]@)
}

/// Every dependency name declared anywhere in the catalog, in declaration
/// order.
pub open spec fn declared_deps(catalog: Seq<ConfigYaml>) -> Seq<Seq<char>>
    decreases catalog.len(),
{
    if catalog.len() == 0 {
        Seq::empty()
    } else {
        declared_deps(catalog.drop_last()) + names_of(catalog.last().dependencies@)
    }
}

/// A set of names is closed under the catalog when, for every catalog entry
/// whose name is in the set, each of that entry's declared dependencies is in
/// the set as well.
pub open spec fn deps_closed(catalog: Seq<ConfigYaml>, s: Set<Seq<char>>) -> bool {
    forall|i: int|
        0 <= i < catalog.len() && s.contains(#[trigger] catalog[i].name@) ==> deps_in(
            catalog[i],
            s,
        )
}

/// Every dependency declared by `entry` is in `s`.
pub open spec fn deps_in(entry: ConfigYaml, s: Set<Seq<char>>) -> bool {
    forall|j: int|
        0 <= j < entry.dependencies@.len() ==> s.contains(#[trigger] entry.dependencies@[j]@)
}

/// Every catalog entry named `n` has all of its dependencies in `s`.
pub open spec fn name_expanded(catalog: Seq<ConfigYaml>, n: Seq<char>, s: Set<Seq<char>>) -> bool {
    forall|i: int|
        0 <= i < catalog.len() && #[trigger] catalog[i].name@ == n ==> deps_in(catalog[i], s)
}

/// The sequence with every later repetition of a name dropped: first
/// occurrences survive, in their original order.
pub open spec fn first_occurrences(s: Seq<Seq<char>>) -> Seq<Seq<char>>
    decreases s.len(),
{
    if s.len() == 0 {
        Seq::empty()
    } else {
        let prev = first_occurrences(s.drop_last());
        if prev.contains(s.last()) {
            prev
        } else {
            prev.push(s.last())
        }
    }
}

/// `r` is the dependency closure of `seed` under `catalog`: it repeats no
/// name, contains every seed name, is closed under the declared dependencies,
/// and is contained in every set with those two properties.
pub open spec fn is_closure(
    seed: Seq<Seq<char>>,
    catalog: Seq<ConfigYaml>,
    r: Seq<Seq<char>>,
) -> bool {
    &&& r.no_duplicates()
    &&& seed.to_set().subset_of(r.to_set())
    &&& deps_closed(catalog, r.to_set())
    &&& forall|t: Set<Seq<char>>|
        seed.to_set().subset_of(t) && #[trigger] deps_closed(catalog, t) ==> r.to_set().subset_of(
            t,
        )
}

/// Keeping only first occurrences repeats no name, keeps exactly the names of
/// the input, and never lengthens it.
pub proof fn lemma_first_occurrences(s: Seq<Seq<char>>)
    ensures
        first_occurrences(s).no_duplicates(),
        first_occurrences(s).to_set() =~= s.to_set(),
        first_occurrences(s).len() <= s.len(),
    decreases s.len(),
{
    if s.len() > 0 {
        lemma_first_occurrences(s.drop_last());
        let prev = first_occurrences(s.drop_last());
        assert forall|x: Seq<char>| s.to_set().contains(x) && x != s.last() implies s
            .drop_last()
            .to_set()
            .contains(x) by {
            let i = choose|i: int| 0 <= i < s.len() && s[i] == x;
            assert(s.drop_last()[i] == x);
        }
        assert forall|x: Seq<char>| s.drop_last().to_set().contains(x) implies s.to_set().contains(
            x,
        ) by {
            let i = choose|i: int| 0 <= i < s.len() - 1 && s.drop_last()[i] == x;
            assert(s[i] == x);
        }
        if !prev.contains(s.last()) {
            assert(prev.push(s.last()).no_duplicates()) by {
                assert(forall|i: int|
                    0 <= i < prev.len() ==> prev.push(s.last())[i] == #[trigger] prev[i]);
            }
        }
        assert(first_occurrences(s).to_set() =~= s.to_set()) by {
            assert forall|x: Seq<char>| s.to_set().contains(x) implies first_occurrences(
                s,
            ).to_set().contains(x) by {
                let i = choose|i: int| 0 <= i < s.len() && s[i] == x;
                if i < s.len() - 1 {
                    assert(s.drop_last()[i] == x);
                    assert(prev.to_set().contains(x));
                    if !prev.contains(s.last()) {
                        let k = choose|k: int| 0 <= k < prev.len() && prev[k] == x;
                        assert(prev.push(s.last())[k] == x);
                    }
                } else {
                    if prev.contains(s.last()) {
                        assert(first_occurrences(s).contains(x));
                    } else {
                        assert(prev.push(s.last())[prev.len() as int] == x);
                    }
                }
            }
        }
    }
}

/// On a sequence that already repeats no name, keeping first occurrences
/// changes nothing.
pub proof fn lemma_first_occurrences_of_unique(s: Seq<Seq<char>>)
    requires
        s.no_duplicates(),
    ensures
        first_occurrences(s) == s,
    decreases s.len(),
{
    if s.len() > 0 {
        assert(s.drop_last().no_duplicates()) by {
            assert(forall|i: int| 0 <= i < s.len() - 1 ==> s.drop_last()[i] == #[trigger] s[i]);
        }
        lemma_first_occurrences_of_unique(s.drop_last());
        assert(!s.drop_last().contains(s.last())) by {
            if s.drop_last().contains(s.last()) {
                let i = choose|i: int| 0 <= i < s.len() - 1 && s.drop_last()[i] == s.last();
                assert(s[i] == s[s.len() - 1]);
            }
        }
        assert(first_occurrences(s) =~= s);
    }
}

/// Every dependency declared by a catalog entry occurs in `declared_deps`.
pub proof fn lemma_declared_deps_contains(catalog: Seq<ConfigYaml>, i: int, j: int)
    requires
        0 <= i < catalog.len(),
        0 <= j < catalog[i].dependencies@.len(),
    ensures
        declared_deps(catalog).contains(catalog[i].dependencies@[j]@),
    decreases catalog.len(),
{
    let d = catalog[i].dependencies@[j]@;
    if i == catalog.len() - 1 {
        let prefix = declared_deps(catalog.drop_last());
        assert(declared_deps(catalog)[prefix.len() + j] == d);
    } else {
        lemma_declared_deps_contains(catalog.drop_last(), i, j);
        let k = choose|k: int|
            0 <= k < declared_deps(catalog.drop_last()).len() && declared_deps(
                catalog.drop_last(),
            )[k] == d;
        assert(declared_deps(catalog)[k] == d);
    }
}

/// Pushing a fresh name keeps a sequence free of repetitions.
proof fn lemma_push_no_dup(s: Seq<Seq<char>>, x: Seq<char>)
    requires
        s.no_duplicates(),
        !s.contains(x),
    ensures
        s.push(x).no_duplicates(),
{
    assert(forall|i: int| 0 <= i < s.len() ==> s.push(x)[i] == #[trigger] s[i]);
}

/// The names of a pushed sequence are the pushed names.
proof fn lemma_push_to_set(s: Seq<Seq<char>>, x: Seq<char>)
    ensures
        s.push(x).to_set() =~= s.to_set().insert(x),
{
    assert forall|y: Seq<char>| s.push(x).to_set().contains(y) implies s.to_set().insert(
        x,
    ).contains(y) by {
        let i = choose|i: int| 0 <= i < s.push(x).len() && s.push(x)[i] == y;
        if i < s.len() {
            assert(s[i] == y);
        }
    }
    assert forall|y: Seq<char>| s.to_set().insert(x).contains(y) implies s.push(x).to_set().contains(
        y,
    ) by {
        if y == x {
            assert(s.push(x)[s.len() as int] == y);
        } else {
            let i = choose|i: int| 0 <= i < s.len() && s[i] == y;
            assert(s.push(x)[i] == y);
        }
    }
}

/// Both halves of a concatenation contribute all of their names.
proof fn lemma_concat_to_set(a: Seq<Seq<char>>, b: Seq<Seq<char>>)
    ensures
        a.to_set().subset_of((a + b).to_set()),
        b.to_set().subset_of((a + b).to_set()),
{
    assert forall|x: Seq<char>| a.to_set().contains(x) implies (a + b).to_set().contains(x) by {
        let i = choose|i: int| 0 <= i < a.len() && a[i] == x;
        assert((a + b)[i] == x);
    }
    assert forall|x: Seq<char>| b.to_set().contains(x) implies (a + b).to_set().contains(x) by {
        let i = choose|i: int| 0 <= i < b.len() && b[i] == x;
        assert((a + b)[a.len() + i] == x);
    }
}

/// Expansion of a name only gets easier as the surrounding set grows.
proof fn lemma_expanded_monotone(
    catalog: Seq<ConfigYaml>,
    n: Seq<char>,
    s1: Set<Seq<char>>,
    s2: Set<Seq<char>>,
)
    requires
        name_expanded(catalog, n, s1),
        s1.subset_of(s2),
    ensures
        name_expanded(catalog, n, s2),
{
    assert forall|i: int| 0 <= i < catalog.len() && #[trigger] catalog[i].name@ == n implies deps_in(
        catalog[i],
        s2,
    ) by {
        assert(deps_in(catalog[i], s1));
        assert forall|j: int| 0 <= j < catalog[i].dependencies@.len() implies s2.contains(
            #[trigger] catalog[i].dependencies@[j]@,
        ) by {
            assert(s1.contains(catalog[i].dependencies@[j]@));
        }
    }
}

/// Whether some string in `v` has the same contents as `x`.
pub fn contains_name(v: &Vec<String>, x: &String) -> (b: bool)
    ensures
        b == names_of(v@).contains(x@),
{
    let mut i: usize = 0;
    while i < v.len()
        invariant
            i <= v.len(),
            forall|k: int| 0 <= k < i ==> names_of(v@)[k] != x@,
        decreases v.len() - i,
    {
        if v[i] == *x {
            assert(names_of(v@)[i as int] == x@);
            return true;
        }
        i = i + 1;
    }
    false
}

/// Resolves the transitive dependency closure of the seed names `deps` under
/// the catalog `list`.
///
/// The result repeats no name, keeps the first occurrence of each seed name
/// as a prefix (in seed order), and its set of names is exactly the least set
/// that contains the seed and is closed under the catalog's declared
/// dependencies.  A seed name without a catalog entry simply stays in the
/// result, and dependency cycles in the catalog cannot prevent termination.
pub fn find_all_deps(deps: Vec<String>, list: Vec<ConfigYaml>) -> (r: Vec<String>)
    ensures
        is_closure(names_of(deps@), list@, names_of(r@)),
        first_occurrences(names_of(deps@)).len() <= r@.len(),
        names_of(r@).take(first_occurrences(names_of(deps@)).len() as int) == first_occurrences(
            names_of(deps@),
        ),
{
    let ghost seed = names_of(deps@);
    let ghost catalog = list@;
    let ghost universe = (seed + declared_deps(catalog)).to_set();

    let mut result: Vec<String> = Vec::new();
    let mut pending: Vec<String> = Vec::new();

    // Deduplicate the seed, keeping first occurrences in order.
    let mut k: usize = 0;
    while k < deps.len()
        invariant
            k <= deps.len(),
            seed == names_of(deps@),
            names_of(result@) == first_occurrences(seed.take(k as int)),
            pending@ == result@,
        decreases deps.len() - k,
    {
        proof {
            assert(seed.take(k + 1).drop_last() =~= seed.take(k as int));
            assert(seed.take(k + 1).last() == deps@[k as int]@);
        }
        let d = &deps[k];
        if !contains_name(&result, d) {
            result.push(d.clone());
            pending.push(d.clone());
            proof {
                assert(names_of(result@) =~= first_occurrences(seed.take(k as int)).push(d@));
                assert(pending@ =~= result@);
            }
        }
        k = k + 1;
    }
    proof {
        assert(seed.take(deps.len() as int) =~= seed);
        lemma_first_occurrences(seed);
        lemma_concat_to_set(seed, declared_deps(catalog));
        seq_to_set_is_finite::<Seq<char>>(seed + declared_deps(catalog));
        names_of(result@).unique_seq_to_set();
        assert(names_of(result@).take(first_occurrences(seed).len() as int) =~= first_occurrences(
            seed,
        ));
        lemma_len_subset(names_of(result@).to_set(), universe);
    }

    // Expand pending names until a fixed point is reached.
    while pending.len() > 0
        invariant
            seed == names_of(deps@),
            catalog == list@,
            universe == (seed + declared_deps(catalog)).to_set(),
            universe.finite(),
            names_of(result@).no_duplicates(),
            seed.to_set().subset_of(names_of(result@).to_set()),
            names_of(pending@).to_set().subset_of(names_of(result@).to_set()),
            names_of(result@).to_set().subset_of(universe),
            result@.len() == names_of(result@).to_set().len(),
            result@.len() <= universe.len(),
            forall|t: Set<Seq<char>>|
                seed.to_set().subset_of(t) && #[trigger] deps_closed(catalog, t) ==> names_of(
                    result@,
                ).to_set().subset_of(t),
            forall|n: Seq<char>|
                names_of(result@).to_set().contains(n) && !names_of(pending@).contains(n)
                    ==> #[trigger] name_expanded(catalog, n, names_of(result@).to_set()),
            first_occurrences(seed).len() <= result@.len(),
            names_of(result@).take(first_occurrences(seed).len() as int) == first_occurrences(seed),
        decreases universe.len() - result@.len(), pending@.len(),
    {
        let ghost start_result_len = result@.len();
        let ghost start_pending_len = pending@.len();
        let ghost pending0 = pending@;
        let name = pending.pop().unwrap();
        proof {
            assert(name == pending0[pending0.len() - 1]);
            assert(names_of(pending0)[pending0.len() - 1] == name@);
            assert(names_of(pending0).to_set().contains(name@));
            assert(names_of(result@).to_set().contains(name@));
            assert forall|n: Seq<char>| names_of(pending@).contains(n) implies names_of(
                pending0,
            ).contains(n) by {
                let q = choose|q: int| 0 <= q < pending@.len() && names_of(pending@)[q] == n;
                assert(names_of(pending0)[q] == n);
            }
            assert forall|n: Seq<char>|
                names_of(pending@).to_set().contains(n) implies names_of(
                result@,
            ).to_set().contains(n) by {
                assert(names_of(pending0).to_set().contains(n));
            }
            // A name gone from the worklist is either the popped one or was
            // never there.
            assert forall|n: Seq<char>|
                names_of(pending0).contains(n) && n != name@ implies names_of(pending@).contains(
                n,
            ) by {
                let q = choose|q: int| 0 <= q < pending0.len() && names_of(pending0)[q] == n;
                assert(q < pending0.len() - 1);
                assert(names_of(pending@)[q] == n);
            }
        }
        let mut i: usize = 0;
        while i < list.len()
            invariant
                seed == names_of(deps@),
                catalog == list@,
                universe == (seed + declared_deps(catalog)).to_set(),
                universe.finite(),
                i <= list.len(),
                names_of(result@).no_duplicates(),
                seed.to_set().subset_of(names_of(result@).to_set()),
                names_of(pending@).to_set().subset_of(names_of(result@).to_set()),
                names_of(result@).to_set().subset_of(universe),
                result@.len() == names_of(result@).to_set().len(),
                result@.len() <= universe.len(),
                names_of(result@).to_set().contains(name@),
                forall|t: Set<Seq<char>>|
                    seed.to_set().subset_of(t) && #[trigger] deps_closed(catalog, t) ==> names_of(
                        result@,
                    ).to_set().subset_of(t),
                forall|n: Seq<char>|
                    names_of(result@).to_set().contains(n) && !names_of(pending@).contains(n) && n
                        != name@ ==> #[trigger] name_expanded(
                        catalog,
                        n,
                        names_of(result@).to_set(),
                    ),
                forall|ii: int|
                    0 <= ii < i && #[trigger] catalog[ii].name@ == name@ ==> deps_in(
                        catalog[ii],
                        names_of(result@).to_set(),
                    ),
                start_result_len <= result@.len(),
                result@.len() - start_result_len == pending@.len() - (start_pending_len - 1),
                first_occurrences(seed).len() <= result@.len(),
                names_of(result@).take(first_occurrences(seed).len() as int) == first_occurrences(
                    seed,
                ),
            decreases list.len() - i,
        {
            if list[i].name == name {
                let mut j: usize = 0;
                while j < list[i].dependencies.len()
                    invariant
                        seed == names_of(deps@),
                        catalog == list@,
                        universe == (seed + declared_deps(catalog)).to_set(),
                        universe.finite(),
                        i < list.len(),
                        j <= catalog[i as int].dependencies@.len(),
                        catalog[i as int].name@ == name@,
                        names_of(result@).no_duplicates(),
                        seed.to_set().subset_of(names_of(result@).to_set()),
                        names_of(pending@).to_set().subset_of(names_of(result@).to_set()),
                        names_of(result@).to_set().subset_of(universe),
                        result@.len() == names_of(result@).to_set().len(),
                        result@.len() <= universe.len(),
                        names_of(result@).to_set().contains(name@),
                        forall|t: Set<Seq<char>>|
                            seed.to_set().subset_of(t) && #[trigger] deps_closed(catalog, t)
                                ==> names_of(result@).to_set().subset_of(t),
                        forall|n: Seq<char>|
                            names_of(result@).to_set().contains(n) && !names_of(
                                pending@,
                            ).contains(n) && n != name@ ==> #[trigger] name_expanded(
                                catalog,
                                n,
                                names_of(result@).to_set(),
                            ),
                        forall|ii: int|
                            0 <= ii < i && #[trigger] catalog[ii].name@ == name@ ==> deps_in(
                                catalog[ii],
                                names_of(result@).to_set(),
                            ),
                        forall|jj: int|
                            0 <= jj < j ==> names_of(result@).to_set().contains(
                                #[trigger] catalog[i as int].dependencies@[jj]@,
                            ),
                        start_result_len <= result@.len(),
                        result@.len() - start_result_len == pending@.len() - (start_pending_len
                            - 1),
                        first_occurrences(seed).len() <= result@.len(),
                        names_of(result@).take(first_occurrences(seed).len() as int)
                            == first_occurrences(seed),
                    decreases catalog[i as int].dependencies@.len() - j,
                {
                    let d = &list[i].dependencies[j];
                    if !contains_name(&result, d) {
                        let ghost old_result = result@;
                        let ghost old_pending = pending@;
                        result.push(d.clone());
                        pending.push(d.clone());
                        proof {
                            let old_names = names_of(old_result);
                            let new_names = names_of(result@);
                            assert(new_names =~= old_names.push(d@));
                            assert(names_of(pending@) =~= names_of(old_pending).push(d@));
                            lemma_push_no_dup(old_names, d@);
                            lemma_push_to_set(old_names, d@);
                            lemma_declared_deps_contains(catalog, i as int, j as int);
                            lemma_concat_to_set(seed, declared_deps(catalog));
                            assert(universe.contains(d@));
                            lemma_push_to_set(names_of(old_pending), d@);
                            // The fresh dependency lands in every closed superset of the seed.
                            assert forall|t: Set<Seq<char>>|
                                seed.to_set().subset_of(t) && #[trigger] deps_closed(
                                    catalog,
                                    t,
                                ) implies new_names.to_set().subset_of(t) by {
                                assert(old_names.to_set().subset_of(t));
                                assert(t.contains(catalog[i as int].name@));
                                assert(deps_in(catalog[i as int], t));
                                assert(t.contains(d@));
                            }
                            // Names already expanded stay expanded in the grown set.
                            assert forall|n: Seq<char>|
                                names_of(result@).to_set().contains(n) && !names_of(
                                    pending@,
                                ).contains(n) && n != name@ implies name_expanded(
                                catalog,
                                n,
                                names_of(result@).to_set(),
                            ) by {
                                assert(names_of(pending@)[pending@.len() - 1] == d@);
                                assert(n != d@);
                                assert(old_names.to_set().contains(n));
                                assert forall|q: Seq<char>|
                                    names_of(old_pending).contains(q) implies names_of(
                                    pending@,
                                ).contains(q) by {
                                    let w = choose|w: int|
                                        0 <= w < old_pending.len() && names_of(old_pending)[w]
                                            == q;
                                    assert(names_of(pending@)[w] == q);
                                }
                                assert(name_expanded(catalog, n, old_names.to_set()));
                                lemma_expanded_monotone(
                                    catalog,
                                    n,
                                    old_names.to_set(),
                                    new_names.to_set(),
                                );
                            }
                            assert(new_names.take(first_occurrences(seed).len() as int)
                                =~= old_names.take(first_occurrences(seed).len() as int));
                            lemma_len_subset(new_names.to_set(), universe);
                        }
                    }
                    j = j + 1;
                }
            }
            i = i + 1;
        }
        proof {
            assert(name_expanded(catalog, name@, names_of(result@).to_set()));
            assert forall|n: Seq<char>|
                names_of(result@).to_set().contains(n) && !names_of(pending@).contains(
                    n,
                ) implies name_expanded(catalog, n, names_of(result@).to_set()) by {
            }
        }
    }
    proof {
        assert(names_of(pending@).len() == 0);
        assert(forall|n: Seq<char>| !names_of(pending@).contains(n));
        let rset = names_of(result@).to_set();
        assert(deps_closed(catalog, rset)) by {
            assert forall|i: int|
                0 <= i < catalog.len() && rset.contains(#[trigger] catalog[i].name@) implies
            deps_in(catalog[i], rset) by {
                assert(name_expanded(catalog, catalog[i].name@, rset));
            }
        }
    }
    result
}

/// Law: every seed name survives into the closure — in particular a name
/// that no catalog entry declares is kept unchanged as an unresolved leaf.
pub proof fn lemma_seed_name_kept(
    seed: Seq<Seq<char>>,
    catalog: Seq<ConfigYaml>,
    r: Seq<Seq<char>>,
    n: Seq<char>,
)
    requires
        is_closure(seed, catalog, r),
        seed.contains(n),
    ensures
        r.contains(n),
{
    assert(seed.to_set().contains(n));
    assert(r.to_set().contains(n));
}

/// Law: closure resolution is idempotent.  Resolving the result of a
/// resolution once more, under the same catalog, gives that result back
/// unchanged.  The two `take` hypotheses are exactly what `find_all_deps`
/// promises about the order of its output.
pub proof fn lemma_closure_idempotent(
    seed: Seq<Seq<char>>,
    catalog: Seq<ConfigYaml>,
    r1: Seq<Seq<char>>,
    r2: Seq<Seq<char>>,
)
    requires
        is_closure(seed, catalog, r1),
        is_closure(r1, catalog, r2),
        first_occurrences(r1).len() <= r2.len(),
        r2.take(first_occurrences(r1).len() as int) == first_occurrences(r1),
    ensures
        r2 == r1,
{
    lemma_first_occurrences_of_unique(r1);
    // Minimality of the second closure, instantiated at the first result.
    assert(r1.to_set().subset_of(r1.to_set()));
    assert(deps_closed(catalog, r1.to_set()));
    assert(r2.to_set().subset_of(r1.to_set()));
    r2.unique_seq_to_set();
    r1.unique_seq_to_set();
    seq_to_set_is_finite::<Seq<char>>(r1);
    lemma_len_subset(r2.to_set(), r1.to_set());
    assert(r2.len() == r1.len());
    assert(r2 =~= r2.take(r2.len() as int));
}

} // verus!

