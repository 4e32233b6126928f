//! Byte-string primitives the loader's search machinery is built from:
//! separator splitting, joining, trimming and prefix/suffix tests.

use vstd::prelude::*;

verus! {

/// Whether two byte strings hold the same bytes.
pub fn bytes_eq(a: &[u8], b: &[u8]) -> (r: bool)
    ensures
        r <==> a@ == b@,
{
    if a.len() != b.len() {
        return false;
    }
    let mut i: usize = 0;
    while i < a.len()
        invariant
            a@.len() == b@.len(),
            i <= a@.len(),
            forall|j: int| 0 <= j < i ==> a@[j] == b@[j],
        decreases a@.len() - i,
    {
        if a[i] != b[i] {
            return false;
        }
        i += 1;
    }
    proof {
        assert(a@ =~= b@);
    }
    true
}

/// Whether `long` starts with `prefix`.
pub open spec fn spec_has_prefix(long: Seq<u8>, prefix: Seq<u8>) -> bool {
    prefix.len() <= long.len() && long.take(prefix.len() as int) == prefix
}

/// Whether `long` ends with `suffix`.
pub open spec fn spec_has_suffix(long: Seq<u8>, suffix: Seq<u8>) -> bool {
    suffix.len() <= long.len() && long.skip(long.len() - suffix.len()) == suffix
}

/// Tests whether `long` starts with `prefix`.
pub fn has_prefix(long: &[u8], prefix: &[u8]) -> (r: bool)
    ensures
        r <==> spec_has_prefix(long@, prefix@),
{
    if long.len() < prefix.len() {
        return false;
    }
    let mut i: usize = 0;
    while i < prefix.len()
        invariant
            prefix@.len() <= long@.len(),
            i <= prefix@.len(),
            forall|j: int| 0 <= j < i ==> long@[j] == prefix@[j],
        decreases prefix@.len() - i,
    {
        if long[i] != prefix[i] {
            proof {
                assert(long@.take(prefix@.len() as int)[i as int] != prefix@[i as int]);
            }
            return false;
        }
        i += 1;
    }
    proof {
        assert(long@.take(prefix@.len() as int) =~= prefix@);
    }
    true
}

/// Tests whether `long` ends with `suffix`.
pub fn has_suffix(long: &[u8], suffix: &[u8]) -> (r: bool)
    ensures
        r <==> spec_has_suffix(long@, suffix@),
{
    if long.len() < suffix.len() {
        return false;
    }
    let n = long.len() - suffix.len();
    let mut i: usize = 0;
    while i < suffix.len()
        invariant
            suffix@.len() <= long@.len(),
            long@.len() <= usize::MAX,
            n == long@.len() - suffix@.len(),
            i <= suffix@.len(),
            forall|j: int| 0 <= j < i ==> long@[n + j] == suffix@[j],
        decreases suffix@.len() - i,
    {
        if long[n + i] != suffix[i] {
            proof {
                assert(long@.skip(n as int)[i as int] != suffix@[i as int]);
            }
            return false;
        }
        i += 1;
    }
    proof {
        assert(long@.skip(n as int) =~= suffix@);
    }
    true
}

/// The position of the first occurrence of `b` in `s`, if any.
pub open spec fn spec_find(s: Seq<u8>, b: u8) -> Option<nat>
    decreases s.len(),
{
    if s.len() == 0 {
        None
    } else if s[0] == b {
        Some(0nat)
    } else {
        match spec_find(s.skip(1), b) {
            Some(i) => Some((i + 1) as nat),
            None => None,
        }
    }
}

/// What a found position means: the first occurrence really is at that
/// position, and a missing one means the byte does not occur at all.
pub proof fn lemma_spec_find(s: Seq<u8>, b: u8)
    ensures
        match spec_find(s, b) {
            Some(i) => i < s.len() && s[i as int] == b && forall|j: int| 0 <= j < i ==> s[j] != b,
            None => forall|j: int| 0 <= j < s.len() ==> s[j] != b,
        },
    decreases s.len(),
{
    if s.len() != 0 && s[0] != b {
        lemma_spec_find(s.skip(1), b);
        let t = s.skip(1);
        assert forall|j: int| 0 <= j < t.len() implies t[j] == s[j + 1] by {}
        if spec_find(t, b) is Some {
            let i = spec_find(t, b)->Some_0;
            assert(s[i as int + 1] == b);
            assert forall|j: int| 0 <= j < i + 1 implies s[j] != b by {
                if j > 0 {
                    assert(t[j - 1] != b);
                }
            }
        } else {
            assert forall|j: int| 0 <= j < s.len() implies s[j] != b by {
                if j > 0 {
                    assert(t[j - 1] != b);
                }
            }
        }
    }
}

/// Splitting `s` on `sep`: an empty string has no items; otherwise the
/// bytes before the first separator form the first item and the rest are
/// split after it (so a trailing separator adds no empty item).
pub open spec fn spec_split(s: Seq<u8>, sep: u8) -> Seq<Seq<u8>>
    decreases s.len(),
    via spec_split_decreases
{
    if s.len() == 0 {
        seq![]
    } else {
        match spec_find(s, sep) {
            Some(i) => seq![s.take(i as int)] + spec_split(s.skip(i as int + 1), sep),
            None => seq![s],
        }
    }
}

#[via_fn]
proof fn spec_split_decreases(s: Seq<u8>, sep: u8) {
    lemma_spec_find(s, sep);
}

/// Joining: each item followed by one separator byte.
pub open spec fn spec_join(items: Seq<Seq<u8>>, sep: u8) -> Seq<u8>
    decreases items.len(),
{
    if items.len() == 0 {
        seq![]
    } else {
        items[0] + seq![sep] + spec_join(items.skip(1), sep)
    }
}

/// Finds the first occurrence of `b` in `s` at or after `from`.
fn find_byte_from(s: &[u8], b: u8, from: usize) -> (r: Option<usize>)
    requires
        from <= s@.len(),
    ensures
        match r {
            Some(i) => {
                &&& from <= i < s@.len()
                &&& s@[i as int] == b
                &&& forall|j: int| from <= j < i ==> s@[j] != b
            },
            None => forall|j: int| from <= j < s@.len() ==> s@[j] != b,
        },
{
    let mut i = from;
    while i < s.len()
        invariant
            from <= i <= s@.len(),
            forall|j: int| from <= j < i ==> s@[j] != b,
        decreases s@.len() - i,
    {
        if s[i] == b {
            return Some(i);
        }
        i += 1;
    }
    None
}

/// A position holding the byte, with none before it, is what `spec_find`
/// yields.
pub proof fn lemma_find_at(s: Seq<u8>, b: u8, i: int)
    requires
        0 <= i < s.len(),
        s[i] == b,
        forall|j: int| 0 <= j < i ==> s[j] != b,
    ensures
        spec_find(s, b) == Some(i as nat),
    decreases i,
{
    if i > 0 {
        lemma_find_at(s.skip(1), b, i - 1);
    }
}

/// A byte that occurs nowhere in a sequence is not found in it.
pub proof fn lemma_find_none(s: Seq<u8>, b: u8)
    requires
        forall|j: int| 0 <= j < s.len() ==> s[j] != b,
    ensures
        spec_find(s, b) is None,
    decreases s.len(),
{
    if s.len() > 0 {
        lemma_find_none(s.skip(1), b);
    }
}

/// Splits `s` on `sep` into its items, in order.
pub fn split_ascii(s: &[u8], sep: u8) -> (r: Vec<Vec<u8>>)
    ensures
        r@.map_values(|v: Vec<u8>| v@) == spec_split(s@, sep),
{
    let mut r: Vec<Vec<u8>> = Vec::new();
    let mut pos: usize = 0;
    proof {
        assert(r@.map_values(|v: Vec<u8>| v@) =~= Seq::<Seq<u8>>::empty());
        assert(s@.skip(0) =~= s@);
        assert(Seq::<Seq<u8>>::empty() + spec_split(s@, sep) =~= spec_split(s@, sep));
    }
    while pos < s.len()
        invariant
            pos <= s@.len(),
            spec_split(s@, sep) == r@.map_values(|v: Vec<u8>| v@) + spec_split(
                s@.skip(pos as int),
                sep,
            ),
        decreases s@.len() - pos,
    {
        let ghost rem = s@.skip(pos as int);
        match find_byte_from(s, sep, pos) {
            Some(i) => {
                let item = vstd::slice::slice_to_vec(vstd::slice::slice_subrange(s, pos, i));
                proof {
                    assert forall|j: int| 0 <= j < rem.len() implies rem[j] == s@[pos + j] by {}
                    lemma_find_at(rem, sep, i - pos);
                    assert(rem.take(i - pos) =~= s@.subrange(pos as int, i as int));
                    assert(rem.skip(i - pos + 1) =~= s@.skip(i + 1));
                    assert((r@.push(item)).map_values(|v: Vec<u8>| v@) =~= r@.map_values(
                        |v: Vec<u8>| v@,
                    ).push(item@));
                    assert(r@.map_values(|v: Vec<u8>| v@) + spec_split(rem, sep) =~= r@.map_values(
                        |v: Vec<u8>| v@,
                    ).push(item@) + spec_split(s@.skip(i + 1), sep));
                }
                r.push(item);
                pos = i + 1;
            },
            None => {
                let item = vstd::slice::slice_to_vec(vstd::slice::slice_subrange(s, pos, s.len()));
                proof {
                    assert forall|j: int| 0 <= j < rem.len() implies rem[j] == s@[pos + j] by {}
                    lemma_find_none(rem, sep);
                    assert(rem =~= s@.subrange(pos as int, s@.len() as int));
                    assert((r@.push(item)).map_values(|v: Vec<u8>| v@) =~= r@.map_values(
                        |v: Vec<u8>| v@,
                    ).push(item@));
                    assert(r@.map_values(|v: Vec<u8>| v@) + spec_split(rem, sep) =~= r@.map_values(
                        |v: Vec<u8>| v@,
                    ).push(item@) + spec_split(Seq::<u8>::empty(), sep));
                    assert(r@.map_values(|v: Vec<u8>| v@).push(item@) + spec_split(
                        Seq::<u8>::empty(),
                        sep,
                    ) =~= r@.map_values(|v: Vec<u8>| v@).push(item@));
                }
                r.push(item);
                pos = s.len();
            },
        }
    }
    proof {
        assert(spec_split(s@.skip(pos as int), sep) =~= Seq::<Seq<u8>>::empty());
        assert(r@.map_values(|v: Vec<u8>| v@) + Seq::<Seq<u8>>::empty() =~= r@.map_values(
            |v: Vec<u8>| v@,
        ));
    }
    r
}

/// Joins items into one byte string, one separator after each item — the
/// representation the search-path caches keep.
pub fn join_with(items: &Vec<Vec<u8>>, sep: u8) -> (r: Vec<u8>)
    ensures
        r@ == spec_join(items@.map_values(|v: Vec<u8>| v@), sep),
{
    let mut r: Vec<u8> = Vec::new();
    let mut k: usize = 0;
    proof {
        assert(items@.map_values(|v: Vec<u8>| v@).skip(0) =~= items@.map_values(|v: Vec<u8>| v@));
        assert(Seq::<u8>::empty() + spec_join(items@.map_values(|v: Vec<u8>| v@), sep)
            =~= spec_join(items@.map_values(|v: Vec<u8>| v@), sep));
    }
    while k < items.len()
        invariant
            k <= items@.len(),
            spec_join(items@.map_values(|v: Vec<u8>| v@), sep) == r@ + spec_join(
                items@.map_values(|v: Vec<u8>| v@).skip(k as int),
                sep,
            ),
        decreases items@.len() - k,
    {
        let ghost pre = r@;
        let ghost tail = items@.map_values(|v: Vec<u8>| v@).skip(k as int);
        let mut j: usize = 0;
        let item = &items[k];
        while j < item.len()
            invariant
                j <= item@.len(),
                r@ == pre + item@.take(j as int),
            decreases item@.len() - j,
        {
            r.push(item[j]);
            j += 1;
        }
        r.push(sep);
        proof {
            assert(item@.take(item@.len() as int) =~= item@);
            assert(tail[0] == item@);
            assert(tail.skip(1) =~= items@.map_values(|v: Vec<u8>| v@).skip(k + 1));
            assert(r@ =~= pre + item@ + seq![sep]);
            assert(pre + item@ + seq![sep] + spec_join(tail.skip(1), sep) =~= pre + (item@
                + seq![sep] + spec_join(tail.skip(1), sep)));
        }
        k += 1;
    }
    proof {
        assert(items@.map_values(|v: Vec<u8>| v@).skip(items@.len() as int)
            =~= Seq::<Seq<u8>>::empty());
        assert(r@ + spec_join(Seq::<Seq<u8>>::empty(), sep) =~= r@);
    }
    r
}

/// Law: the search-path cache round-trips — splitting a joined list on the
/// separator yields the original items, provided no item contains the
/// separator byte itself.
pub proof fn lemma_split_join_roundtrip(items: Seq<Seq<u8>>, sep: u8)
    requires
        forall|k: int, j: int|
            0 <= k < items.len() && 0 <= j < items[k].len() ==> #[trigger] items[k][j] != sep,
    ensures
        spec_split(spec_join(items, sep), sep) == items,
    decreases items.len(),
{
    if items.len() == 0 {
        assert(spec_split(spec_join(items, sep), sep) =~= items);
    } else {
        let head = items[0];
        let joined = spec_join(items, sep);
        assert(joined == head + seq![sep] + spec_join(items.skip(1), sep));
        assert(joined.len() > 0);
        assert forall|j: int| 0 <= j < head.len() implies joined[j] != sep by {
            assert(joined[j] == head[j]);
        }
        assert(joined[head.len() as int] == sep);
        lemma_find_at(joined, sep, head.len() as int);
        assert(joined.take(head.len() as int) =~= head);
        assert(joined.skip(head.len() as int + 1) =~= spec_join(items.skip(1), sep));
        assert forall|k: int, j: int|
            0 <= k < items.skip(1).len() && 0 <= j < items.skip(1)[k].len() implies #[trigger] items.skip(
            1,
        )[k][j] != sep by {
            assert(items.skip(1)[k] == items[k + 1]);
        }
        lemma_split_join_roundtrip(items.skip(1), sep);
        assert(spec_split(joined, sep) =~= seq![head] + items.skip(1));
        assert(seq![head] + items.skip(1) =~= items);
    }
}

/// ASCII whitespace, as the config parser strips it.
pub open spec fn spec_is_ws(b: u8) -> bool {
    b == 0x20 || b == 0x09 || b == 0x0A || b == 0x0C || b == 0x0D
}

/// `s` without its leading ASCII whitespace.
pub open spec fn spec_trim_start(s: Seq<u8>) -> Seq<u8>
    decreases s.len(),
{
    if s.len() > 0 && spec_is_ws(s[0]) {
        spec_trim_start(s.skip(1))
    } else {
        s
    }
}

/// `s` without its trailing ASCII whitespace.
pub open spec fn spec_trim_end(s: Seq<u8>) -> Seq<u8>
    decreases s.len(),
{
    if s.len() > 0 && spec_is_ws(s[s.len() - 1]) {
        spec_trim_end(s.take(s.len() - 1))
    } else {
        s
    }
}

/// `s` without leading and trailing ASCII whitespace.
pub open spec fn spec_trim(s: Seq<u8>) -> Seq<u8> {
    spec_trim_end(spec_trim_start(s))
}

proof fn lemma_trim_start_at(s: Seq<u8>, a: int)
    requires
        0 <= a <= s.len(),
        forall|j: int| 0 <= j < a ==> spec_is_ws(s[j]),
        a < s.len() ==> !spec_is_ws(s[a]),
    ensures
        spec_trim_start(s) == s.skip(a),
    decreases a,
{
    if a == 0 {
        assert(s.skip(0) =~= s);
    } else {
        lemma_trim_start_at(s.skip(1), a - 1);
        assert(s.skip(1).skip(a - 1) =~= s.skip(a));
    }
}

proof fn lemma_trim_end_at(s: Seq<u8>, b: int)
    requires
        0 <= b <= s.len(),
        forall|j: int| b <= j < s.len() ==> spec_is_ws(s[j]),
        b > 0 ==> !spec_is_ws(s[b - 1]),
    ensures
        spec_trim_end(s) == s.take(b),
    decreases s.len(),
{
    if b == s.len() {
        if s.len() > 0 && spec_is_ws(s[s.len() - 1]) {
        } else {
            assert(s.take(b) =~= s);
        }
    } else {
        lemma_trim_end_at(s.take(s.len() - 1), b);
        assert(s.take(s.len() - 1).take(b) =~= s.take(b));
    }
}

/// Strips leading and trailing ASCII whitespace.
pub fn trim_ascii(s: &[u8]) -> (r: Vec<u8>)
    ensures
        r@ == spec_trim(s@),
{
    let mut a: usize = 0;
    while a < s.len() && (s[a] == 0x20 || s[a] == 0x09 || s[a] == 0x0A || s[a] == 0x0C || s[a]
        == 0x0D)
        invariant
            a <= s@.len(),
            forall|j: int| 0 <= j < a ==> spec_is_ws(s@[j]),
        decreases s@.len() - a,
    {
        a += 1;
    }
    proof {
        lemma_trim_start_at(s@, a as int);
    }
    let ghost t = s@.skip(a as int);
    let mut b: usize = s.len();
    while b > a && (s[b - 1] == 0x20 || s[b - 1] == 0x09 || s[b - 1] == 0x0A || s[b - 1] == 0x0C
        || s[b - 1] == 0x0D)
        invariant
            a <= b <= s@.len(),
            forall|j: int| b <= j < s@.len() ==> spec_is_ws(s@[j]),
        decreases b,
    {
        b -= 1;
    }
    proof {
        assert(forall|j: int| b - a <= j < t.len() ==> spec_is_ws(#[trigger] t[j]));
        assert(b > a ==> t[b - a - 1] == s@[b - 1]);
        lemma_trim_end_at(t, b - a);
        assert(t.take(b - a) =~= s@.subrange(a as int, b as int));
    }
    vstd::slice::slice_to_vec(vstd::slice::slice_subrange(s, a, b))
}

/// Finds the first occurrence of `b` in `s`, as a checked position.
pub fn find_byte(s: &[u8], b: u8) -> (r: Option<usize>)
    ensures
        match r {
            Some(i) => {
                &&& spec_find(s@, b) == Some(i as nat)
                &&& i < s@.len()
                &&& s@[i as int] == b
                &&& forall|j: int| 0 <= j < i ==> s@[j] != b
            },
            None => spec_find(s@, b) is None && forall|j: int| 0 <= j < s@.len() ==> s@[j] != b,
        },
{
    match find_byte_from(s, b, 0) {
        Some(i) => {
            proof {
                lemma_find_at(s@, b, i as int);
            }
            Some(i)
        },
        None => {
            proof {
                lemma_find_none(s@, b);
            }
            None
        },
    }
}

/// Finds the last occurrence of `b` in `s`, if any.
pub fn rfind_byte(s: &[u8], b: u8) -> (r: Option<usize>)
    ensures
        match r {
            Some(i) => i < s@.len() && s@[i as int] == b && forall|j: int|
                i < j < s@.len() ==> s@[j] != b,
            None => forall|j: int| 0 <= j < s@.len() ==> s@[j] != b,
        },
{
    let mut i: usize = s.len();
    while i > 0
        invariant
            i <= s@.len(),
            forall|j: int| i <= j < s@.len() ==> s@[j] != b,
        decreases i,
    {
        i -= 1;
        if s[i] == b {
            return Some(i);
        }
    }
    None
}

/// Concatenates two byte strings.
pub fn concat_bytes(a: &[u8], b: &[u8]) -> (r: Vec<u8>)
    requires
        a@.len() + b@.len() <= usize::MAX,
    ensures
        r@ == a@ + b@,
{
    let mut r = vstd::slice::slice_to_vec(a);
    let mut j: usize = 0;
    while j < b.len()
        invariant
            j <= b@.len(),
            r@ == a@ + b@.take(j as int),
        decreases b@.len() - j,
    {
        r.push(b[j]);
        proof {
            assert(a@ + b@.take(j + 1) =~= (a@ + b@.take(j as int)).push(b@[j as int]));
        }
        j += 1;
    }
    proof {
        assert(b@.take(b@.len() as int) =~= b@);
    }
    r
}

} // verus!
