//! The order in which the repositories of the project are offered.

use vstd::prelude::*;
use vstd::utf8::*;

verus! {

/// The text in lower case, as `str::to_lowercase` of the standard library has it.
pub uninterp spec fn lowercase(text: Seq<char>) -> Seq<char>;

/// Calls `str::to_lowercase`. Claims that what it returns depends on the text alone; what
/// that is, the Unicode tables say, and nothing is stated of it here.
#[verifier::external_body]
fn to_lowercase(text: &str) -> (r: String)
    ensures
        r@ == lowercase(text@),
{
    text.to_lowercase()
}

/// `a` comes before `b` where they first differ, or is a proper prefix of `b`.
pub open spec fn lex_less(a: Seq<u8>, b: Seq<u8>) -> bool
    decreases a.len(),
{
    if b.len() == 0 {
        false
    } else if a.len() == 0 {
        true
    } else if a[0] != b[0] {
        a[0] < b[0]
    } else {
        lex_less(a.drop_first(), b.drop_first())
    }
}

/// Item `i` goes before item `j`: its key is smaller, or the keys are equal and it came
/// first.
pub open spec fn goes_before(keys: Seq<Seq<char>>, i: usize, j: usize) -> bool {
    let a = encode_utf8(keys[i as int]);
    let b = encode_utf8(keys[j as int]);
    lex_less(a, b) || (a == b && i < j)
}

/// `order` holds each of the first `n` items once, each before those that it goes before.
pub open spec fn is_order_of_first(keys: Seq<Seq<char>>, n: nat, order: Seq<usize>) -> bool {
    &&& order.len() == n
    &&& forall|i: int| 0 <= i < n ==> (#[trigger] order[i]) < n
    &&& forall|i: int, j: int|
        0 <= i < j < n ==> goes_before(keys, #[trigger] order[i], #[trigger] order[j])
}

/// `order` is the stable order of the items by their keys, which are compared byte by byte.
pub open spec fn is_order(keys: Seq<Seq<char>>, order: Seq<usize>) -> bool {
    is_order_of_first(keys, keys.len(), order)
}

/// The texts of `keys`.
pub open spec fn texts(keys: Seq<String>) -> Seq<Seq<char>> {
    Seq::new(keys.len(), |i: int| keys[i]@)
}

/// The lower case texts of `names`.
pub open spec fn lowercase_texts(names: Seq<String>) -> Seq<Seq<char>> {
    Seq::new(names.len(), |i: int| lowercase(names[i]@))
}

proof fn lemma_lex_irreflexive(a: Seq<u8>)
    ensures
        !lex_less(a, a),
    decreases a.len(),
{
    if a.len() > 0 {
        lemma_lex_irreflexive(a.drop_first());
    }
}

proof fn lemma_lex_transitive(a: Seq<u8>, b: Seq<u8>, c: Seq<u8>)
    requires
        lex_less(a, b),
        lex_less(b, c),
    ensures
        lex_less(a, c),
    decreases a.len(),
{
    if a.len() > 0 && a[0] == b[0] && b[0] == c[0] {
        lemma_lex_transitive(a.drop_first(), b.drop_first(), c.drop_first());
    }
}

proof fn lemma_lex_total(a: Seq<u8>, b: Seq<u8>)
    ensures
        lex_less(a, b) || a == b || lex_less(b, a),
    decreases a.len(),
{
    if a.len() == 0 || b.len() == 0 {
        if a.len() == b.len() {
            assert(a =~= b);
        }
    } else if a[0] == b[0] {
        lemma_lex_total(a.drop_first(), b.drop_first());
        if a.drop_first() == b.drop_first() {
            assert(a =~= seq![a[0]] + a.drop_first());
            assert(b =~= seq![b[0]] + b.drop_first());
        }
    }
}

proof fn lemma_goes_before_transitive(keys: Seq<Seq<char>>, i: usize, j: usize, k: usize)
    requires
        goes_before(keys, i, j),
        goes_before(keys, j, k),
    ensures
        goes_before(keys, i, k),
{
    let a = encode_utf8(keys[i as int]);
    let b = encode_utf8(keys[j as int]);
    let c = encode_utf8(keys[k as int]);
    if lex_less(a, b) && lex_less(b, c) {
        lemma_lex_transitive(a, b, c);
    }
}

/// An item does not go before itself.
proof fn lemma_goes_before_irreflexive(keys: Seq<Seq<char>>, i: usize)
    ensures
        !goes_before(keys, i, i),
{
    lemma_lex_irreflexive(encode_utf8(keys[i as int]));
}

/// No item stands in an order twice.
pub proof fn law_order_has_no_duplicates(keys: Seq<Seq<char>>, order: Seq<usize>)
    requires
        is_order(keys, order),
    ensures
        order.no_duplicates(),
{
    assert forall|i: int, j: int| 0 <= i < order.len() && 0 <= j < order.len() && i != j implies order[i]
        != order[j] by {
        if i < j {
            assert(goes_before(keys, order[i], order[j]));
        } else {
            assert(goes_before(keys, order[j], order[i]));
        }
        lemma_goes_before_irreflexive(keys, order[i]);
    }
}

/// An order holds every item: no repository is lost.
pub proof fn law_order_holds_every_item(keys: Seq<Seq<char>>, order: Seq<usize>, item: usize)
    requires
        is_order(keys, order),
        item < keys.len(),
    ensures
        order.contains(item),
{
    law_order_has_no_duplicates(keys, order);
    let places = Seq::new(order.len(), |i: int| order[i] as int);
    let all = vstd::set_lib::set_int_range(0, keys.len() as int);
    vstd::set_lib::lemma_int_range(0, keys.len() as int);
    places.unique_seq_to_set();
    assert(places.to_set().subset_of(all)) by {
        assert forall|p: int| places.to_set().contains(p) implies all.contains(p) by {
            let i = choose|i: int| 0 <= i < places.len() && places[i] == p;
            assert(order[i] < keys.len());
        }
    }
    vstd::seq_lib::seq_to_set_is_finite(places);
    vstd::set_lib::lemma_subset_equality(places.to_set(), all);
    assert(places.to_set().contains(item as int));
    let i = choose|i: int| 0 <= i < places.len() && places[i] == item as int;
    assert(order[i] == item);
}

proof fn lemma_orders_agree(keys: Seq<Seq<char>>, a: Seq<usize>, b: Seq<usize>, n: int)
    requires
        is_order(keys, a),
        is_order(keys, b),
        0 <= n <= keys.len(),
    ensures
        forall|i: int| 0 <= i < n ==> a[i] == b[i],
    decreases n,
{
    if n > 0 {
        let i = n - 1;
        lemma_orders_agree(keys, a, b, i);
        if a[i] != b[i] {
            law_order_holds_every_item(keys, b, a[i]);
            law_order_holds_every_item(keys, a, b[i]);
            law_order_has_no_duplicates(keys, a);
            law_order_has_no_duplicates(keys, b);
            let q = choose|q: int| 0 <= q < b.len() && b[q] == a[i];
            let p = choose|p: int| 0 <= p < a.len() && a[p] == b[i];
            if q < i {
                assert(a[q] == b[q]);
            }
            if p < i {
                assert(a[p] == b[p]);
            }
            assert(goes_before(keys, b[i], b[q]));
            assert(goes_before(keys, a[i], a[p]));
            lemma_goes_before_transitive(keys, a[i], b[i], a[i]);
            lemma_goes_before_irreflexive(keys, a[i]);
        }
    }
}

/// There is one order only.
pub proof fn law_order_is_unique(keys: Seq<Seq<char>>, a: Seq<usize>, b: Seq<usize>)
    requires
        is_order(keys, a),
        is_order(keys, b),
    ensures
        a == b,
{
    lemma_orders_agree(keys, a, b, keys.len() as int);
    assert(a =~= b);
}

/// `a` comes before `b` exactly where, behind a part that they begin with alike, `a` ends and
/// `b` does not, or `a` has the smaller byte.
pub proof fn law_byte_order(a: Seq<u8>, b: Seq<u8>)
    ensures
        lex_less(a, b) <==> exists|i: int|
            0 <= i <= a.len() && i < b.len() && #[trigger] a.take(i) == b.take(i) && (i == a.len()
                || a[i] < b[i]),
    decreases a.len(),
{
    if a.len() > 0 && b.len() > 0 && a[0] == b[0] {
        let a1 = a.drop_first();
        let b1 = b.drop_first();
        law_byte_order(a1, b1);
        if lex_less(a, b) {
            let i = choose|i: int|
                0 <= i <= a1.len() && i < b1.len() && #[trigger] a1.take(i) == b1.take(i) && (i
                    == a1.len() || a1[i] < b1[i]);
            assert(a.take(i + 1) =~= seq![a[0]] + a1.take(i));
            assert(b.take(i + 1) =~= seq![b[0]] + b1.take(i));
            assert(a.take(i + 1) == b.take(i + 1));
        }
        if exists|i: int|
            0 <= i <= a.len() && i < b.len() && #[trigger] a.take(i) == b.take(i) && (i == a.len()
                || a[i] < b[i]) {
            let i = choose|i: int|
                0 <= i <= a.len() && i < b.len() && #[trigger] a.take(i) == b.take(i) && (i
                    == a.len() || a[i] < b[i]);
            assert(i > 0);
            assert(a1.take(i - 1) =~= a.take(i).drop_first());
            assert(b1.take(i - 1) =~= b.take(i).drop_first());
            assert(a1.take(i - 1) == b1.take(i - 1));
        }
    } else if b.len() > 0 {
        assert(a.take(0) =~= b.take(0));
        if exists|i: int|
            0 <= i <= a.len() && i < b.len() && #[trigger] a.take(i) == b.take(i) && (i == a.len()
                || a[i] < b[i]) {
            let i = choose|i: int|
                0 <= i <= a.len() && i < b.len() && #[trigger] a.take(i) == b.take(i) && (i
                    == a.len() || a[i] < b[i]);
            if i > 0 {
                assert(a.take(i)[0] == a[0]);
                assert(b.take(i)[0] == b[0]);
            }
        }
    }
}

/// Of two repositories in the order in which they are offered, the second does not have the
/// smaller name in lower case, and where these names are equal it came later.
pub proof fn law_repositories_by_lower_case_name(
    names: Seq<String>,
    order: Seq<usize>,
    i: int,
    j: int,
)
    requires
        is_order(lowercase_texts(names), order),
        0 <= i < j < names.len(),
    ensures
        order.len() == names.len(),
        order[i] < names.len(),
        order[j] < names.len(),
        ({
            let first = encode_utf8(lowercase(names[order[i] as int]@));
            let second = encode_utf8(lowercase(names[order[j] as int]@));
            &&& !lex_less(second, first)
            &&& first == second ==> order[i] < order[j]
            &&& lex_less(first, second) || first == second
        }),
{
    let keys = lowercase_texts(names);
    assert(goes_before(keys, order[i], order[j]));
    let first = encode_utf8(lowercase(names[order[i] as int]@));
    let second = encode_utf8(lowercase(names[order[j] as int]@));
    lemma_lex_irreflexive(first);
    if lex_less(first, second) && lex_less(second, first) {
        lemma_lex_transitive(first, second, first);
    }
}

/// Of two items in an order by keys, the second does not have the smaller key, and where the
/// keys are equal it came later.
pub proof fn law_items_by_key(keys: Seq<String>, order: Seq<usize>, i: int, j: int)
    requires
        is_order(texts(keys), order),
        0 <= i < j < keys.len(),
    ensures
        order.len() == keys.len(),
        order[i] < keys.len(),
        order[j] < keys.len(),
        ({
            let first = encode_utf8(keys[order[i] as int]@);
            let second = encode_utf8(keys[order[j] as int]@);
            &&& !lex_less(second, first)
            &&& first == second ==> order[i] < order[j]
            &&& lex_less(first, second) || first == second
        }),
{
    assert(goes_before(texts(keys), order[i], order[j]));
    let first = encode_utf8(keys[order[i] as int]@);
    let second = encode_utf8(keys[order[j] as int]@);
    lemma_lex_irreflexive(first);
    if lex_less(first, second) && lex_less(second, first) {
        lemma_lex_transitive(first, second, first);
    }
}

/// Whether `a` comes before `b`, byte by byte.
pub fn is_less(a: &str, b: &str) -> (r: bool)
    ensures
        r == lex_less(encode_utf8(a@), encode_utf8(b@)),
{
    let a = a.as_bytes();
    let b = b.as_bytes();
    let mut i: usize = 0;
    assert(a@.skip(0) =~= a@);
    assert(b@.skip(0) =~= b@);
    while i < a.len() && i < b.len() && a[i] == b[i]
        invariant
            i <= a.len(),
            i <= b.len(),
            lex_less(a@, b@) == lex_less(a@.skip(i as int), b@.skip(i as int)),
        decreases a.len() - i,
    {
        proof {
            assert(a@.skip(i as int).drop_first() =~= a@.skip(i + 1));
            assert(b@.skip(i as int).drop_first() =~= b@.skip(i + 1));
        }
        i = i + 1;
    }
    if i >= b.len() {
        false
    } else if i >= a.len() {
        true
    } else {
        assert(a@.skip(i as int)[0] == a@[i as int]);
        assert(b@.skip(i as int)[0] == b@[i as int]);
        a[i] < b[i]
    }
}

/// The stable order of items by their keys.
pub fn order_by_keys(keys: &Vec<String>) -> (order: Vec<usize>)
    ensures
        is_order(texts(keys@), order@),
{
    let ghost all = texts(keys@);
    let mut order: Vec<usize> = Vec::new();
    let mut next: usize = 0;
    while next < keys.len()
        invariant
            next <= keys.len(),
            all == texts(keys@),
            is_order_of_first(all, next as nat, order@),
        decreases keys.len() - next,
    {
        let ghost before = order@;
        let mut at: usize = order.len();
        while at > 0 && is_less(&keys[next], &keys[order[at - 1]])
            invariant
                at <= order.len() == next < keys.len(),
                order@ == before,
                all == texts(keys@),
                is_order_of_first(all, next as nat, before),
                forall|q: int|
                    at <= q < order.len() ==> goes_before(all, next, #[trigger] before[q]),
            decreases at,
        {
            assert(goes_before(all, next, before[at - 1]));
            at = at - 1;
        }
        order.insert(at, next);
        proof {
            if at > 0 {
                lemma_lex_total(
                    encode_utf8(all[before[at - 1] as int]),
                    encode_utf8(all[next as int]),
                );
                assert(goes_before(all, before[at - 1], next));
            }
            assert forall|q: int| 0 <= q < at implies goes_before(
                all,
                #[trigger] before[q],
                next,
            ) by {
                if q < at - 1 {
                    lemma_goes_before_transitive(all, before[q], before[at - 1], next);
                }
            }
            let now = order@;
            assert forall|i: int, j: int| 0 <= i < j < next + 1 implies goes_before(
                all,
                #[trigger] now[i],
                #[trigger] now[j],
            ) by {
                let p = if i < at { i } else { i - 1 };
                let q = if j < at { j } else { j - 1 };
                if i == at {
                    assert(now[j] == before[q]);
                } else if j == at {
                    assert(now[i] == before[p]);
                } else {
                    assert(now[i] == before[p]);
                    assert(now[j] == before[q]);
                }
            }
            assert forall|i: int| 0 <= i < next + 1 implies (#[trigger] now[i]) < next + 1 by {
                if i < at {
                    assert(now[i] == before[i]);
                } else if i > at {
                    assert(now[i] == before[i - 1]);
                }
            }
        }
        next = next + 1;
    }
    order
}

/// The order of repositories by their names in lower case.
pub fn all_repositories(names: &Vec<String>) -> (order: Vec<usize>)
    ensures
        is_order(lowercase_texts(names@), order@),
{
    let mut keys: Vec<String> = Vec::new();
    let mut i: usize = 0;
    while i < names.len()
        invariant
            i <= names.len(),
            keys.len() == i,
            forall|j: int| 0 <= j < i ==> (#[trigger] keys@[j])@ == lowercase(names@[j]@),
        decreases names.len() - i,
    {
        keys.push(to_lowercase(&names[i]));
        i = i + 1;
    }
    assert(texts(keys@) =~= lowercase_texts(names@));
    order_by_keys(&keys)
}

} // verus!
