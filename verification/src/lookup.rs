//! Name-keyed lookup: the datastore and the character keep their entries in
//! vectors and address them by name, so the specifications here describe
//! first-match lookup, insert-or-replace, and membership of string sets.

use vstd::prelude::*;

verus! {

/// Compares two string slices by their character sequences.
pub fn str_eq(a: &str, b: &str) -> (r: bool)
    ensures
        r == (a@ == b@),
{
    let sa: String = a.to_string();
    let sb: String = b.to_string();
    sa == sb
}

/// The first element of `s` whose name under `name_of` is `name`.
pub open spec fn find_named<T>(
    s: Seq<T>,
    name_of: spec_fn(T) -> Seq<char>,
    name: Seq<char>,
) -> Option<T>
    decreases s.len(),
{
    if s.len() <= 0 {
        None
    } else if name_of(s[0]) == name {
        Some(s[0])
    } else {
        find_named(s.drop_first(), name_of, name)
    }
}

/// A lookup skips over any prefix of elements with other names.
pub proof fn lemma_find_named_skip<T>(
    s: Seq<T>,
    name_of: spec_fn(T) -> Seq<char>,
    name: Seq<char>,
    i: int,
)
    requires
        0 <= i <= s.len(),
        forall|j: int| 0 <= j < i ==> name_of(#[trigger] s[j]) != name,
    ensures
        find_named(s, name_of, name) == find_named(s.skip(i), name_of, name),
    decreases i,
{
    if i > 0 {
        assert(s.drop_first() =~= s.skip(1));
        lemma_find_named_skip(s.drop_first(), name_of, name, i - 1);
        assert(s.drop_first().skip(i - 1) =~= s.skip(i));
    } else {
        assert(s.skip(0) =~= s);
    }
}

/// If no element of `s` has the name, lookup finds nothing.
pub proof fn lemma_find_named_absent<T>(
    s: Seq<T>,
    name_of: spec_fn(T) -> Seq<char>,
    name: Seq<char>,
)
    requires
        forall|j: int| 0 <= j < s.len() ==> name_of(#[trigger] s[j]) != name,
    ensures
        find_named(s, name_of, name) is None,
{
    lemma_find_named_skip(s, name_of, name, s.len() as int);
    assert(s.skip(s.len() as int) =~= Seq::<T>::empty());
}

/// If the first match is at position `i`, lookup finds that element.
pub proof fn lemma_find_named_at<T>(
    s: Seq<T>,
    name_of: spec_fn(T) -> Seq<char>,
    name: Seq<char>,
    i: int,
)
    requires
        0 <= i < s.len(),
        forall|j: int| 0 <= j < i ==> name_of(#[trigger] s[j]) != name,
        name_of(s[i]) == name,
    ensures
        find_named(s, name_of, name) == Some(s[i]),
{
    lemma_find_named_skip(s, name_of, name, i);
    assert(s.skip(i)[0] == s[i]);
}

/// Replacing the first element that carries a name changes the lookup for
/// that name alone.
pub proof fn lemma_find_named_update<T>(
    s: Seq<T>,
    name_of: spec_fn(T) -> Seq<char>,
    i: int,
    x: T,
    n: Seq<char>,
)
    requires
        0 <= i < s.len(),
        forall|j: int| 0 <= j < i ==> name_of(#[trigger] s[j]) != name_of(x),
        name_of(s[i]) == name_of(x),
    ensures
        find_named(s.update(i, x), name_of, n) == if n == name_of(x) {
            Some(x)
        } else {
            find_named(s, name_of, n)
        },
    decreases i,
{
    let t = s.update(i, x);
    if i == 0 {
        assert(t[0] == x);
        if n != name_of(x) {
            assert(t.drop_first() =~= s.drop_first());
        }
    } else {
        assert(t[0] == s[0]);
        assert(t.drop_first() =~= s.drop_first().update(i - 1, x));
        lemma_find_named_update(s.drop_first(), name_of, i - 1, x, n);
    }
}

/// Appending an element with a fresh name changes the lookup for that name
/// alone.
pub proof fn lemma_find_named_push<T>(
    s: Seq<T>,
    name_of: spec_fn(T) -> Seq<char>,
    x: T,
    n: Seq<char>,
)
    requires
        forall|j: int| 0 <= j < s.len() ==> name_of(#[trigger] s[j]) != name_of(x),
    ensures
        find_named(s.push(x), name_of, n) == if n == name_of(x) {
            Some(x)
        } else {
            find_named(s, name_of, n)
        },
    decreases s.len(),
{
    let t = s.push(x);
    if s.len() == 0 {
        assert(t[0] == x);
        if n != name_of(x) {
            assert(t.drop_first() =~= Seq::<T>::empty());
            assert(find_named(Seq::<T>::empty(), name_of, n) is None);
        }
    } else {
        assert(t[0] == s[0]);
        assert(t.drop_first() =~= s.drop_first().push(x));
        lemma_find_named_push(s.drop_first(), name_of, x, n);
    }
}

/// Membership of a name in a sequence of strings.
pub open spec fn contains_name(s: Seq<String>, name: Seq<char>) -> bool {
    exists|i: int| 0 <= i < s.len() && #[trigger] s[i]@ == name
}

/// Whatever the lookup finds carries the looked-up name.
pub proof fn lemma_find_named_key<T>(s: Seq<T>, name_of: spec_fn(T) -> Seq<char>, n: Seq<char>)
    requires
        find_named(s, name_of, n) is Some,
    ensures
        name_of(find_named(s, name_of, n)->Some_0) == n,
    decreases s.len(),
{
    if s.len() > 0 && name_of(s[0]) != n {
        lemma_find_named_key(s.drop_first(), name_of, n);
    }
}

/// Extending a prefix by one element extends its membership by exactly
/// that element.
pub proof fn lemma_contains_take_extend<T>(s: Seq<T>, i: int)
    requires
        0 <= i < s.len(),
    ensures
        forall|x: T|
            #[trigger] s.take(i + 1).contains(x) <==> s.take(i).contains(x) || s[i] == x,
{
    assert(s.take(i + 1) =~= s.take(i).push(s[i]));
    assert forall|x: T|
        #[trigger] s.take(i + 1).contains(x) <==> s.take(i).contains(x) || s[i] == x by {
        vstd::seq_lib::lemma_seq_contains_after_push(s.take(i), s[i], x);
    }
}

/// The set of names a string sequence holds.
pub open spec fn names_set(s: Seq<String>) -> Set<Seq<char>> {
    Set::new(|n: Seq<char>| contains_name(s, n))
}

/// No two entries of the string set share a name.
pub open spec fn unique_names(s: Seq<String>) -> bool {
    forall|i: int, j: int| 0 <= i < j < s.len() ==> #[trigger] s[i]@ != #[trigger] s[j]@
}

/// Whether the string set holds `x`.
pub fn contains_string(v: &Vec<String>, x: &str) -> (r: bool)
    ensures
        r == contains_name(v@, x@),
{
    let n = v.len();
    let mut i: usize = 0;
    while i < n
        invariant
            n == v@.len(),
            0 <= i <= n,
            forall|j: int| 0 <= j < i ==> #[trigger] v@[j]@ != x@,
        decreases n - i,
    {
        if str_eq(v[i].as_str(), x) {
            return true;
        }
        i += 1;
    }
    false
}

/// Adds `x` to the string set if it is not already there.
pub fn insert_string(v: &mut Vec<String>, x: String)
    requires
        unique_names(old(v)@),
    ensures
        unique_names(final(v)@),
        forall|n: Seq<char>| #[trigger] contains_name(final(v)@, n) <==> contains_name(old(v)@, n) || n == x@,
{
    if !contains_string(v, x.as_str()) {
        let ghost s = v@;
        v.push(x);
        proof {
            assert forall|n: Seq<char>| #[trigger] contains_name(v@, n) implies contains_name(s, n)
                || n == x@ by {
                let i = choose|i: int| 0 <= i < v@.len() && v@[i]@ == n;
                if i < s.len() {
                    assert(s[i]@ == n);
                }
            }
            assert forall|n: Seq<char>| contains_name(s, n) || n == x@ implies #[trigger] contains_name(
                v@,
                n,
            ) by {
                if contains_name(s, n) {
                    let i = choose|i: int| 0 <= i < s.len() && s[i]@ == n;
                    assert(v@[i]@ == n);
                } else {
                    assert(v@[s.len() as int]@ == n);
                }
            }
        }
    }
}

/// Removes `x` from the string set; removing an absent entry is a no-op.
pub fn remove_string(v: &mut Vec<String>, x: &str)
    requires
        unique_names(old(v)@),
    ensures
        unique_names(final(v)@),
        forall|n: Seq<char>| #[trigger] contains_name(final(v)@, n) <==> contains_name(old(v)@, n) && n != x@,
{
    let n = v.len();
    let mut i: usize = 0;
    while i < n
        invariant
            n == v@.len(),
            0 <= i <= n,
            v@ == old(v)@,
            unique_names(v@),
            forall|j: int| 0 <= j < i ==> #[trigger] v@[j]@ != x@,
        decreases n - i,
    {
        if str_eq(v[i].as_str(), x) {
            let ghost s = v@;
            v.remove(i);
            proof {
                assert(v@ =~= s.subrange(0, i as int) + s.subrange(i + 1, s.len() as int));
                assert forall|p: int, q: int| 0 <= p < q < v@.len() implies #[trigger] v@[p]@
                    != #[trigger] v@[q]@ by {
                    let p0 = if p < i { p } else { p + 1 };
                    let q0 = if q < i { q } else { q + 1 };
                    assert(v@[p] == s[p0] && v@[q] == s[q0]);
                }
                assert forall|m: Seq<char>| #[trigger] contains_name(v@, m) implies contains_name(
                    s,
                    m,
                ) && m != x@ by {
                    let p = choose|p: int| 0 <= p < v@.len() && v@[p]@ == m;
                    let p0 = if p < i { p } else { p + 1 };
                    assert(s[p0]@ == m);
                    assert(s[i as int]@ == x@);
                    if m == x@ {
                        assert(s[p0]@ == s[i as int]@ && p0 != i);
                    }
                }
                assert forall|m: Seq<char>| contains_name(s, m) && m != x@ implies #[trigger] contains_name(
                    v@,
                    m,
                ) by {
                    let p = choose|p: int| 0 <= p < s.len() && s[p]@ == m;
                    if p < i {
                        assert(v@[p]@ == m);
                    } else {
                        assert(v@[p - 1]@ == m);
                    }
                }
            }
            return ;
        }
        i += 1;
    }
    proof {
        assert forall|m: Seq<char>| #[trigger] contains_name(v@, m) implies m != x@ by {
            let p = choose|p: int| 0 <= p < v@.len() && v@[p]@ == m;
            assert(v@[p]@ != x@);
        }
    }
}

} // verus!

verus! {

/// An entry addressed by name in one of the datastore's tables.
pub trait Named: Sized {
    /// The entry's key: the character sequence of its name.
    spec fn key(&self) -> Seq<char>;

    /// The entry's name as a string slice.
    fn name_str(&self) -> (r: &str)
        ensures
            r@ == self.key(),
    ;
}

/// The key function of a named entry type, as a single spec value so that
/// every lookup specification speaks of the same function.
pub open spec fn key_fn<T: Named>() -> spec_fn(T) -> Seq<char> {
    |t: T| t.key()
}

/// The first entry of `s` named `name`.
pub open spec fn find_by_key<T: Named>(s: Seq<T>, name: Seq<char>) -> Option<T> {
    find_named(s, key_fn::<T>(), name)
}

/// Looks an entry up by name.
pub fn find_by_name<'a, T: Named>(v: &'a Vec<T>, name: &str) -> (r: Option<&'a T>)
    ensures
        match r {
            Some(x) => find_by_key(v@, name@) == Some(*x),
            None => find_by_key(v@, name@) is None,
        },
{
    let n = v.len();
    let mut i: usize = 0;
    while i < n
        invariant
            n == v@.len(),
            0 <= i <= n,
            forall|j: int| 0 <= j < i ==> (#[trigger] v@[j]).key() != name@,
        decreases n - i,
    {
        if str_eq(v[i].name_str(), name) {
            proof {
                lemma_find_named_at(v@, key_fn::<T>(), name@, i as int);
            }
            return Some(&v[i]);
        }
        i += 1;
    }
    proof {
        lemma_find_named_absent(v@, key_fn::<T>(), name@);
    }
    None
}

/// Inserts an entry, replacing any entry of the same name: afterwards the
/// new entry is found under its name and every other name finds what it
/// found before.
pub fn insert_by_name<T: Named>(v: &mut Vec<T>, x: T)
    ensures
        forall|n: Seq<char>|
            #[trigger] find_by_key(final(v)@, n) == if n == x.key() {
                Some(x)
            } else {
                find_by_key(old(v)@, n)
            },
{
    let n = v.len();
    let mut i: usize = 0;
    while i < n
        invariant
            n == v@.len(),
            0 <= i <= n,
            v@ == old(v)@,
            forall|j: int| 0 <= j < i ==> (#[trigger] v@[j]).key() != x.key(),
        decreases n - i,
    {
        if str_eq(v[i].name_str(), x.name_str()) {
            let ghost s = v@;
            v[i] = x;
            proof {
                assert(v@ == s.update(i as int, x));
                assert forall|m: Seq<char>|
                    #[trigger] find_by_key(v@, m) == if m == x.key() {
                        Some(x)
                    } else {
                        find_by_key(s, m)
                    } by {
                    lemma_find_named_update(s, key_fn::<T>(), i as int, x, m);
                }
            }
            return ;
        }
        i += 1;
    }
    let ghost s = v@;
    v.push(x);
    proof {
        assert forall|m: Seq<char>|
            #[trigger] find_by_key(v@, m) == if m == x.key() {
                Some(x)
            } else {
                find_by_key(s, m)
            } by {
            lemma_find_named_push(s, key_fn::<T>(), x, m);
        }
    }
}

} // verus!
