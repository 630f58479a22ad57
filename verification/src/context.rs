use vstd::prelude::*;

verus! {

/// The first value recorded under the key, if any: error annotations are
/// set-if-absent, so the first entry wins.
pub open spec fn spec_lookup_key(m: Seq<(String, String)>, k: Seq<char>) -> Option<Seq<char>>
    decreases m.len(),
{
    if m.len() == 0 {
        None
    } else if m[0].0@ == k {
        Some(m[0].1@)
    } else {
        spec_lookup_key(m.drop_first(), k)
    }
}

/// What the lookup finds is the first entry under the key; when it finds
/// nothing, no entry carries the key.
pub proof fn lemma_lookup_key_props(m: Seq<(String, String)>, k: Seq<char>)
    ensures
        spec_lookup_key(m, k) is Some ==> exists|i: int|
            0 <= i < m.len() && (#[trigger] m[i]).0@ == k,
        spec_lookup_key(m, k) is None ==> forall|i: int|
            0 <= i < m.len() ==> (#[trigger] m[i]).0@ != k,
    decreases m.len(),
{
    if m.len() > 0 && m[0].0@ != k {
        lemma_lookup_key_props(m.drop_first(), k);
        if spec_lookup_key(m, k) is None {
            assert forall|i: int| 0 <= i < m.len() implies (#[trigger] m[i]).0@ != k by {
                if i > 0 {
                    assert(m.drop_first()[i - 1] == m[i]);
                }
            }
        }
    }
}

/// Appending an entry does not disturb the lookup of another key, and
/// supplies the value of a key not yet present.
pub proof fn lemma_lookup_key_push(m: Seq<(String, String)>, k: Seq<char>, p: (String, String))
    ensures
        p.0@ != k ==> spec_lookup_key(m.push(p), k) == spec_lookup_key(m, k),
        p.0@ == k && spec_lookup_key(m, k) is None ==> spec_lookup_key(m.push(p), k) == Some(
            p.1@,
        ),
        spec_lookup_key(m, k) is Some ==> spec_lookup_key(m.push(p), k) == spec_lookup_key(m, k),
    decreases m.len(),
{
    reveal_with_fuel(spec_lookup_key, 3);
    if m.len() == 0 {
        assert(m.push(p)[0] == p);
        assert(m.push(p).drop_first() =~= Seq::<(String, String)>::empty());
    } else {
        assert(m.push(p)[0] == m[0]);
        assert(m.push(p).drop_first() =~= m.drop_first().push(p));
        lemma_lookup_key_push(m.drop_first(), k, p);
        if m[0].0@ == k {
            assert(spec_lookup_key(m.push(p), k) == Some(m[0].1@));
            assert(spec_lookup_key(m, k) == Some(m[0].1@));
        } else {
            assert(spec_lookup_key(m.push(p), k) == spec_lookup_key(m.drop_first().push(p), k));
            assert(spec_lookup_key(m, k) == spec_lookup_key(m.drop_first(), k));
        }
    }
}

/// Records an annotation unless the key already carries one: the lazy
/// error-context convention — the innermost report of a field path or
/// data type wins, outer layers only fill gaps.
pub fn set_default(annotations: &mut Vec<(String, String)>, key: &str, value: &str)
    ensures
        spec_lookup_key(final(annotations)@, key@) == (match spec_lookup_key(
            old(annotations)@,
            key@,
        ) {
            Some(v) => Some(v),
            None => Some(value@),
        }),
        final(annotations)@.len() == old(annotations)@.len() + (if spec_lookup_key(
            old(annotations)@,
            key@,
        ) is Some {
            0int
        } else {
            1int
        }),
        final(annotations)@.subrange(0, old(annotations)@.len() as int) == old(annotations)@,
        forall|k2: Seq<char>|
            k2 != key@ ==> spec_lookup_key(final(annotations)@, k2) == spec_lookup_key(
                old(annotations)@,
                k2,
            ),
{
    let needle: String = key.to_owned();
    let n = annotations.len();
    let mut j: usize = 0;
    let mut found = false;
    while j < n
        invariant
            n == annotations@.len(),
            j <= n,
            needle@ == key@,
            *annotations == *old(annotations),
            if found {
                j == n && (exists|i: int|
                    0 <= i < n && (#[trigger] annotations@[i]).0@ == key@)
            } else {
                forall|i: int| 0 <= i < j ==> (#[trigger] annotations@[i]).0@ != key@
            },
        decreases n - j,
    {
        if annotations[j].0.eq(&needle) {
            found = true;
            j = n;
        } else {
            j += 1;
        }
    }
    proof {
        lemma_lookup_key_props(annotations@, key@);
    }
    if !found {
        let pair = (key.to_owned(), value.to_owned());
        let ghost prev = annotations@;
        annotations.push(pair);
        proof {
            assert(annotations@.subrange(0, prev.len() as int) =~= prev);
            lemma_lookup_key_push(prev, key@, annotations@[prev.len() as int]);
            assert forall|k2: Seq<char>|
                k2 != key@ implies spec_lookup_key(annotations@, k2) == spec_lookup_key(
                prev,
                k2,
            ) by {
                lemma_lookup_key_push(prev, k2, annotations@[prev.len() as int]);
            }
        }
    } else {
        proof {
            assert(spec_lookup_key(annotations@, key@) is Some) by {
                lemma_lookup_key_some(annotations@, key@);
            }
        }
    }
}

/// A map holding the key somewhere answers the lookup.
proof fn lemma_lookup_key_some(m: Seq<(String, String)>, k: Seq<char>)
    requires
        exists|i: int| 0 <= i < m.len() && (#[trigger] m[i]).0@ == k,
    ensures
        spec_lookup_key(m, k) is Some,
    decreases m.len(),
{
    if m.len() > 0 && m[0].0@ != k {
        let i = choose|i: int| 0 <= i < m.len() && (#[trigger] m[i]).0@ == k;
        assert(m.drop_first()[i - 1] == m[i]);
        lemma_lookup_key_some(m.drop_first(), k);
    }
}

/// What annotating an error context with a field path and a data-type
/// name guarantees: both keys answer afterwards — with the value already
/// present, or the one supplied — at most two entries were appended, and
/// everything already recorded is untouched.
pub open spec fn spec_annotated(
    old_m: Seq<(String, String)>,
    new_m: Seq<(String, String)>,
    path: Seq<char>,
    dt: Seq<char>,
) -> bool {
    &&& spec_lookup_key(new_m, "field"@) == (match spec_lookup_key(old_m, "field"@) {
        Some(v) => Some(v),
        None => Some(path),
    })
    &&& spec_lookup_key(new_m, "data_type"@) == (match spec_lookup_key(old_m, "data_type"@) {
        Some(v) => Some(v),
        None => Some(dt),
    })
    &&& old_m.len() <= new_m.len() <= old_m.len() + 2
    &&& new_m.subrange(0, old_m.len() as int) == old_m
}

/// Annotates an error context, set-if-absent, with the reader's field
/// path under "field" and its physical type name under "data_type".
pub fn annotate_with(annotations: &mut Vec<(String, String)>, path: &str, dt: &str)
    ensures
        spec_annotated(old(annotations)@, final(annotations)@, path@, dt@),
{
    proof {
        reveal_strlit("field");
        reveal_strlit("data_type");
    }
    let ghost m0 = annotations@;
    set_default(annotations, "field", path);
    let ghost m1 = annotations@;
    set_default(annotations, "data_type", dt);
    proof {
        assert("field"@ != "data_type"@) by {
            assert("field"@.len() == 5);
            assert("data_type"@.len() == 9);
        }
        assert(spec_lookup_key(annotations@, "field"@) == spec_lookup_key(m1, "field"@));
        assert(spec_lookup_key(m1, "data_type"@) == spec_lookup_key(m0, "data_type"@));
        assert(annotations@.subrange(0, m0.len() as int) =~= m0);
    }
}

} // verus!
