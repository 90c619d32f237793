//! Account addresses and the searches over lists of them.

use vstd::prelude::*;

verus! {

broadcast use vstd::array::group_array_axioms;

/// A 32-byte account address.
#[derive(Clone, Copy, Debug, PartialEq, Eq)]
pub struct Pubkey {
    pub bytes: [u8; 32],
}

impl Pubkey {
    /// Builds an address from its bytes.
    pub fn new_from_array(bytes: [u8; 32]) -> (r: Pubkey)
        ensures
            r.bytes == bytes,
    {
        Pubkey { bytes }
    }

    /// The bytes of the address.
    pub fn to_bytes(&self) -> (r: [u8; 32])
        ensures
            r == self.bytes,
    {
        self.bytes
    }
}

/// Whether two addresses are the same, byte for byte.
pub fn key_eq(a: &Pubkey, b: &Pubkey) -> (r: bool)
    ensures
        r == (*a == *b),
{
    let mut i: usize = 0;
    while i < 32
        invariant
            i <= 32,
            forall|j: int| 0 <= j < i ==> a.bytes[j] == b.bytes[j],
        decreases 32 - i,
    {
        if a.bytes[i] != b.bytes[i] {
            return false;
        }
        i = i + 1;
    }
    assert(a.bytes =~= b.bytes);
    true
}

/// The first position at which `k` occurs in `s` (meaningful when `s` contains `k`).
pub open spec fn first_index_of<T>(s: Seq<T>, k: T) -> int {
    choose|i: int| 0 <= i < s.len() && s[i] == k && forall|j: int| 0 <= j < i ==> s[j] != k
}

/// `s` with every occurrence of `k` taken out, the rest in order.
pub open spec fn without<T>(s: Seq<T>, k: T) -> Seq<T> {
    s.filter(|x: T| x != k)
}

/// Whether a list of addresses holds `k`.
pub fn contains_key(v: &Vec<Pubkey>, k: &Pubkey) -> (r: bool)
    ensures
        r == v@.contains(*k),
{
    let mut i: usize = 0;
    while i < v.len()
        invariant
            i <= v.len(),
            forall|j: int| 0 <= j < i ==> v@[j] != *k,
        decreases v.len() - i,
    {
        if key_eq(&v[i], k) {
            return true;
        }
        i = i + 1;
    }
    false
}

/// Whether a list of bytes holds `x`.
pub fn contains_byte(v: &Vec<u8>, x: u8) -> (r: bool)
    ensures
        r == v@.contains(x),
{
    let mut i: usize = 0;
    while i < v.len()
        invariant
            i <= v.len(),
            forall|j: int| 0 <= j < i ==> v@[j] != x,
        decreases v.len() - i,
    {
        if v[i] == x {
            return true;
        }
        i = i + 1;
    }
    false
}

/// The first position of `k` in a list of addresses, if it is there.
pub fn position(v: &Vec<Pubkey>, k: &Pubkey) -> (r: Option<usize>)
    ensures
        match r {
            Some(i) => i < v.len() && v@[i as int] == *k && i == first_index_of(v@, *k),
            None => !v@.contains(*k),
        },
{
    let mut i: usize = 0;
    while i < v.len()
        invariant
            i <= v.len(),
            forall|j: int| 0 <= j < i ==> v@[j] != *k,
        decreases v.len() - i,
    {
        if key_eq(&v[i], k) {
            proof {
                lemma_first_index_of(v@, *k, i as int);
            }
            return Some(i);
        }
        i = i + 1;
    }
    None
}

/// A position holding `k` with no `k` before it is the first position of `k`.
pub proof fn lemma_first_index_of<T>(s: Seq<T>, k: T, i: int)
    requires
        0 <= i < s.len(),
        s[i] == k,
        forall|j: int| 0 <= j < i ==> s[j] != k,
    ensures
        first_index_of(s, k) == i,
{
    let c = first_index_of(s, k);
    assert(0 <= c < s.len() && s[c] == k && forall|j: int| 0 <= j < c ==> s[j] != k);
    if c < i {
        assert(s[c] != k);
    }
    if i < c {
        assert(s[i] != k);
    }
}

/// The list of addresses with every occurrence of `k` taken out.
pub fn remove_key(v: &Vec<Pubkey>, k: &Pubkey) -> (r: Vec<Pubkey>)
    ensures
        r@ == without(v@, *k),
{
    let mut out: Vec<Pubkey> = Vec::new();
    let mut i: usize = 0;
    while i < v.len()
        invariant
            i <= v.len(),
            out@ == without(v@.take(i as int), *k),
        decreases v.len() - i,
    {
        proof {
            assert(v@.take(i as int + 1).drop_last() =~= v@.take(i as int));
            reveal_with_fuel(Seq::filter, 1);
        }
        if !key_eq(&v[i], k) {
            out.push(v[i]);
        }
        i = i + 1;
    }
    assert(v@.take(v.len() as int) =~= v@);
    out
}

/// Whether the bytes in the list are distinct and all below `n`.
pub fn distinct_below(v: &Vec<u8>, n: usize) -> (r: bool)
    ensures
        r == (v@.no_duplicates() && forall|i: int| 0 <= i < v@.len() ==> (#[trigger] v@[i]) < n),
{
    let mut i: usize = 0;
    while i < v.len()
        invariant
            i <= v.len(),
            forall|a: int, b: int| 0 <= a < b < v.len() && a < i ==> v@[a] != v@[b],
            forall|a: int| 0 <= a < i ==> (#[trigger] v@[a]) < n,
        decreases v.len() - i,
    {
        if v[i] as usize >= n {
            return false;
        }
        let mut j: usize = i + 1;
        while j < v.len()
            invariant
                i < v.len(),
                i + 1 <= j <= v.len(),
                forall|a: int, b: int| 0 <= a < b < v.len() && a < i ==> v@[a] != v@[b],
                forall|b: int| i < b < j ==> v@[i as int] != v@[b],
            decreases v.len() - j,
        {
            if v[i] == v[j] {
                return false;
            }
            j = j + 1;
        }
        i = i + 1;
    }
    true
}

/// A copy of a list of addresses.
pub fn copy_keys(v: &Vec<Pubkey>) -> (r: Vec<Pubkey>)
    ensures
        r@ == v@,
{
    let mut out: Vec<Pubkey> = Vec::new();
    let mut i: usize = 0;
    while i < v.len()
        invariant
            i <= v.len(),
            out@ == v@.take(i as int),
        decreases v.len() - i,
    {
        out.push(v[i]);
        proof {
            assert(v@.take(i as int + 1) =~= v@.take(i as int).push(v@[i as int]));
        }
        i = i + 1;
    }
    assert(v@.take(v.len() as int) =~= v@);
    out
}

/// The first list of addresses followed by the second.
pub fn concat_keys(a: &Vec<Pubkey>, b: &Vec<Pubkey>) -> (r: Vec<Pubkey>)
    ensures
        r@ == a@ + b@,
{
    let mut out = copy_keys(a);
    let mut i: usize = 0;
    while i < b.len()
        invariant
            i <= b.len(),
            out@ == a@ + b@.take(i as int),
        decreases b.len() - i,
    {
        out.push(b[i]);
        proof {
            assert(b@.take(i as int + 1) =~= b@.take(i as int).push(b@[i as int]));
            assert(a@ + b@.take(i as int + 1) =~= (a@ + b@.take(i as int)).push(b@[i as int]));
        }
        i = i + 1;
    }
    assert(b@.take(b.len() as int) =~= b@);
    out
}

/// Whether some address occurs twice in the list.
pub fn has_duplicates(v: &Vec<Pubkey>) -> (r: bool)
    ensures
        r == !v@.no_duplicates(),
{
    let mut i: usize = 0;
    while i < v.len()
        invariant
            i <= v.len(),
            forall|a: int, b: int| 0 <= a < b < v.len() && a < i ==> v@[a] != v@[b],
        decreases v.len() - i,
    {
        let mut j: usize = i + 1;
        while j < v.len()
            invariant
                i < v.len(),
                i + 1 <= j <= v.len(),
                forall|a: int, b: int| 0 <= a < b < v.len() && a < i ==> v@[a] != v@[b],
                forall|b: int| i < b < j ==> v@[i as int] != v@[b],
            decreases v.len() - j,
        {
            if key_eq(&v[i], &v[j]) {
                return true;
            }
            j = j + 1;
        }
        i = i + 1;
    }
    false
}

/// Taking out an element that is not there changes nothing.
pub proof fn lemma_without_absent<T>(s: Seq<T>, k: T)
    requires
        !s.contains(k),
    ensures
        without(s, k) == s,
    decreases s.len(),
{
    reveal(Seq::filter);
    if s.len() > 0 {
        assert(!s.drop_last().contains(k)) by {
            if s.drop_last().contains(k) {
                let j = choose|j: int| 0 <= j < s.drop_last().len() && s.drop_last()[j] == k;
                assert(s[j] == k);
            }
        }
        lemma_without_absent(s.drop_last(), k);
        assert(s.drop_last().push(s.last()) =~= s);
    }
}

/// Taking out an element that occurs once removes exactly that position.
pub proof fn lemma_without_unique<T>(s: Seq<T>, k: T, i: int)
    requires
        0 <= i < s.len(),
        s[i] == k,
        forall|j: int| 0 <= j < s.len() && j != i ==> s[j] != k,
    ensures
        without(s, k) == s.remove(i),
    decreases s.len(),
{
    reveal(Seq::filter);
    if i == s.len() - 1 {
        assert(!s.drop_last().contains(k)) by {
            if s.drop_last().contains(k) {
                let j = choose|j: int| 0 <= j < s.drop_last().len() && s.drop_last()[j] == k;
                assert(s[j] == k);
            }
        }
        lemma_without_absent(s.drop_last(), k);
        assert(s.remove(i) =~= s.drop_last());
    } else {
        lemma_without_unique(s.drop_last(), k, i);
        assert(s.remove(i) =~= s.drop_last().remove(i).push(s.last()));
    }
}

/// In a list without repeats, taking out a present element removes its one position.
pub proof fn lemma_without_no_dup<T>(s: Seq<T>, k: T)
    requires
        s.no_duplicates(),
        s.contains(k),
    ensures
        without(s, k) == s.remove(first_index_of(s, k)),
        without(s, k).len() == s.len() - 1,
        without(s, k).no_duplicates(),
        !without(s, k).contains(k),
        forall|x: T| x != k ==> (without(s, k).contains(x) <==> s.contains(x)),
{
    let i = choose|i: int| 0 <= i < s.len() && s[i] == k;
    assert forall|j: int| 0 <= j < s.len() && j != i implies s[j] != k by {
        if s[j] == k {
            assert(s[j] == s[i]);
        }
    }
    lemma_first_index_of(s, k, i);
    lemma_without_unique(s, k, i);
    let r = s.remove(i);
    assert forall|a: int, b: int| 0 <= a < r.len() && 0 <= b < r.len() && a != b implies r[a] != r[b] by {
        let a2 = if a < i { a } else { a + 1 };
        let b2 = if b < i { b } else { b + 1 };
        assert(r[a] == s[a2] && r[b] == s[b2]);
    }
    assert forall|x: T| x != k implies (r.contains(x) <==> s.contains(x)) by {
        if s.contains(x) {
            let j = choose|j: int| 0 <= j < s.len() && s[j] == x;
            if j < i {
                assert(r[j] == x);
            } else {
                assert(j != i);
                assert(r[j - 1] == x);
            }
        }
        if r.contains(x) {
            let j = choose|j: int| 0 <= j < r.len() && r[j] == x;
            if j < i {
                assert(s[j] == x);
            } else {
                assert(s[j + 1] == x);
            }
        }
    }
    if r.contains(k) {
        let j = choose|j: int| 0 <= j < r.len() && r[j] == k;
        if j < i {
            assert(s[j] == k);
        } else {
            assert(s[j + 1] == k);
        }
    }
}

/// Distinct positions below `n` number at most `n`.
pub proof fn lemma_distinct_positions_bounded(s: Seq<u8>, n: nat)
    requires
        s.no_duplicates(),
        forall|i: int| 0 <= i < s.len() ==> (#[trigger] s[i]) < n,
    ensures
        s.len() <= n,
    decreases n,
{
    if n == 0 {
        if s.len() > 0 {
            assert(s[0] < n);
        }
    } else {
        let top = (n - 1) as u8;
        let rest = without(s, top);
        if s.contains(top) {
            lemma_without_no_dup(s, top);
        } else {
            lemma_without_absent(s, top);
        }
        assert forall|i: int| 0 <= i < rest.len() implies (#[trigger] rest[i]) < (n - 1) as nat by {
            assert(rest.contains(rest[i]));
            assert(rest[i] != top);
            assert(s.contains(rest[i]));
            let j = choose|j: int| 0 <= j < s.len() && s[j] == rest[i];
            assert(s[j] < n);
        }
        lemma_distinct_positions_bounded(rest, (n - 1) as nat);
    }
}

/// A list without repeats whose elements all occur in `b` is no longer than `b`.
pub proof fn lemma_distinct_subset_len<T>(a: Seq<T>, b: Seq<T>)
    requires
        a.no_duplicates(),
        forall|i: int| 0 <= i < a.len() ==> b.contains(#[trigger] a[i]),
    ensures
        a.len() <= b.len(),
{
    broadcast use {vstd::set::group_set_axioms, vstd::seq_lib::seq_to_set_is_finite};
    a.unique_seq_to_set();
    b.lemma_cardinality_of_set();
    assert(a.to_set().subset_of(b.to_set())) by {
        assert forall|x: T| a.to_set().contains(x) implies b.to_set().contains(x) by {
            let i = choose|i: int| 0 <= i < a.len() && a[i] == x;
            assert(b.contains(a[i]));
        }
    }
    vstd::set_lib::lemma_len_subset(a.to_set(), b.to_set());
}

} // verus!
