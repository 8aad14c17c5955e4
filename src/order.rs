use crate::record::ProcessInfo;
use vstd::prelude::*;

verus! {

/// Lexicographic order on names, character by character (by code point);
/// a proper prefix comes first.
pub open spec fn name_lt(a: Seq<char>, b: Seq<char>) -> bool
    decreases a.len(),
{
    if a.len() == 0 {
        b.len() > 0
    } else if b.len() == 0 {
        false
    } else if a[0] != b[0] {
        a[0] < b[0]
    } else {
        name_lt(a.drop_first(), b.drop_first())
    }
}

/// Snapshot order: by name, then by pid.
pub open spec fn record_lt(a: ProcessInfo, b: ProcessInfo) -> bool {
    name_lt(a.name@, b.name@) || (a.name@ == b.name@ && a.pid < b.pid)
}

/// No record comes after one that should follow it.
pub open spec fn is_sorted(s: Seq<ProcessInfo>) -> bool {
    forall|i: int, j: int| 0 <= i < j < s.len() ==> !record_lt(#[trigger] s[j], #[trigger] s[i])
}

pub proof fn lemma_name_lt_irreflexive(a: Seq<char>)
    ensures
        !name_lt(a, a),
    decreases a.len(),
{
    if a.len() > 0 {
        lemma_name_lt_irreflexive(a.drop_first());
    }
}

pub proof fn lemma_name_lt_transitive(a: Seq<char>, b: Seq<char>, c: Seq<char>)
    requires
        name_lt(a, b),
        name_lt(b, c),
    ensures
        name_lt(a, c),
    decreases a.len(),
{
    if a.len() > 0 && b.len() > 0 && c.len() > 0 && a[0] == b[0] && b[0] == c[0] {
        lemma_name_lt_transitive(a.drop_first(), b.drop_first(), c.drop_first());
    }
}

pub proof fn lemma_name_lt_total(a: Seq<char>, b: Seq<char>)
    ensures
        name_lt(a, b) || name_lt(b, a) || a == b,
    decreases a.len(),
{
    if a.len() > 0 && b.len() > 0 && a[0] == b[0] {
        lemma_name_lt_total(a.drop_first(), b.drop_first());
        assert(a.len() == a.drop_first().len() + 1);
        assert(b.len() == b.drop_first().len() + 1);
        if a.drop_first() == b.drop_first() {
            assert forall|i: int| 0 <= i < a.len() implies a[i] == b[i] by {
                if i > 0 {
                    assert(a[i] == a.drop_first()[i - 1]);
                    assert(b[i] == b.drop_first()[i - 1]);
                }
            }
            assert(a =~= b);
        }
    } else if a.len() == 0 && b.len() == 0 {
        assert(a =~= b);
    } else if a.len() > 0 && b.len() > 0 {
    }
}

/// The snapshot order is a strict total order: no record precedes itself,
/// precedence is transitive, and of two records one precedes the other
/// unless they have the same name and pid.
pub proof fn lemma_record_order_total(a: ProcessInfo, b: ProcessInfo, c: ProcessInfo)
    ensures
        !record_lt(a, a),
        record_lt(a, b) && record_lt(b, c) ==> record_lt(a, c),
        record_lt(a, b) ==> !record_lt(b, a),
        record_lt(a, b) || record_lt(b, a) || (a.name@ == b.name@ && a.pid == b.pid),
{
    lemma_name_lt_irreflexive(a.name@);
    lemma_name_lt_total(a.name@, b.name@);
    if record_lt(a, b) && record_lt(b, c) {
        if name_lt(a.name@, b.name@) && name_lt(b.name@, c.name@) {
            lemma_name_lt_transitive(a.name@, b.name@, c.name@);
        }
    }
    if name_lt(a.name@, b.name@) && name_lt(b.name@, a.name@) {
        lemma_name_lt_transitive(a.name@, b.name@, a.name@);
    }
}

/// Whether name `a` comes before name `b`.
pub fn name_less(a: &str, b: &str) -> (r: bool)
    ensures
        r == name_lt(a@, b@),
{
    let la = a.unicode_len();
    let lb = b.unicode_len();
    let mut i: usize = 0;
    assert(a@.skip(0) =~= a@);
    assert(b@.skip(0) =~= b@);
    while i < la && i < lb
        invariant
            i <= la,
            i <= lb,
            la == a@.len(),
            lb == b@.len(),
            name_lt(a@, b@) == name_lt(a@.skip(i as int), b@.skip(i as int)),
        decreases la - i,
    {
        let ca = a.get_char(i);
        let cb = b.get_char(i);
        assert(a@.skip(i as int)[0] == ca);
        assert(b@.skip(i as int)[0] == cb);
        if ca != cb {
            return ca < cb;
        }
        assert(a@.skip(i as int).drop_first() =~= a@.skip(i + 1));
        assert(b@.skip(i as int).drop_first() =~= b@.skip(i + 1));
        i += 1;
    }
    i < lb
}

/// Whether record `a` comes before record `b` in a snapshot.
pub fn record_less(a: &ProcessInfo, b: &ProcessInfo) -> (r: bool)
    ensures
        r == record_lt(*a, *b),
{
    if name_less(a.name.as_str(), b.name.as_str()) {
        true
    } else if name_less(b.name.as_str(), a.name.as_str()) {
        false
    } else {
        proof {
            lemma_name_lt_total(a.name@, b.name@);
        }
        a.pid < b.pid
    }
}

} // verus!
