use vstd::prelude::*;
use scapegoat::SgMap;

verus! {

/// The stack-only ordered map of the embedded lessons, declared so that
/// values of it can pass through verified code.
#[verifier::external_type_specification]
#[verifier::external_body]
#[verifier::reject_recursive_types(K)]
#[verifier::reject_recursive_types(V)]
pub struct ExSgMap<K: Ord + Default, V: Default, const N: usize>(SgMap<K, V, N>);

/// A four-slot map from integer keys to quote words.
pub type QuoteMap = SgMap<i32, &'static str, 4>;

/// What a four-slot map of quote words holds: each key's word.
pub uninterp spec fn sg_map_entries(m: QuoteMap) -> Map<int, Seq<char>>;

/// The insertion was refused: the map was full and the key new.
#[derive(Debug, PartialEq, Eq, Structural)]
pub struct CapacityError;

/// Relies on `SgMap::new`: a new map is empty.
#[verifier::external_body]
pub fn sg_new() -> (m: QuoteMap)
    ensures
        sg_map_entries(m).dom() == Set::<int>::empty(),
        sg_map_entries(m).len() == 0,
        sg_map_entries(m).dom().finite(),
{
    SgMap::new()
}

/// Relies on `SgMap::try_insert`: a present key is updated even when the
/// map is full and its old word comes back; a new key is added while
/// there is room and refused once the four slots are taken.
#[verifier::external_body]
pub fn sg_try_insert(m: &mut QuoteMap, key: i32, val: &'static str) -> (r:
    Result<Option<&'static str>, CapacityError>)
    ensures
        sg_map_entries(*old(m)).dom().contains(key as int) ==> {
            &&& (r matches Ok(prev) && prev matches Some(w) && w@ == sg_map_entries(*old(m))[key as int])
            &&& sg_map_entries(*final(m)) == sg_map_entries(*old(m)).insert(key as int, val@)
        },
        !sg_map_entries(*old(m)).dom().contains(key as int) && sg_map_entries(*old(m)).dom().finite()
            && sg_map_entries(*old(m)).len() < 4 ==> {
            &&& r == Ok::<Option<&'static str>, CapacityError>(None)
            &&& sg_map_entries(*final(m)) == sg_map_entries(*old(m)).insert(key as int, val@)
        },
        !sg_map_entries(*old(m)).dom().contains(key as int) && sg_map_entries(*old(m)).dom().finite()
            && sg_map_entries(*old(m)).len() >= 4 ==> {
            &&& r == Err::<Option<&'static str>, CapacityError>(CapacityError)
            &&& sg_map_entries(*final(m)) == sg_map_entries(*old(m))
        },
{
    match m.try_insert(key, val) {
        Ok(prev) => Ok(prev),
        Err(_) => Err(CapacityError),
    }
}

/// Relies on `SgMap::get`: the word stored under the key, if any.
#[verifier::external_body]
pub fn sg_get(m: &QuoteMap, key: i32) -> (r: Option<&'static str>)
    ensures
        match r {
            Some(w) => sg_map_entries(*m).dom().contains(key as int) && w@ == sg_map_entries(*m)[key as int],
            None => !sg_map_entries(*m).dom().contains(key as int),
        },
{
    m.get(&key).copied()
}

/// The words stand in ascending key order: position for position they are
/// the entries of the map, walked along some strictly increasing list of
/// exactly its keys.
pub open spec fn values_in_key_order(vs: Seq<&'static str>, entries: Map<int, Seq<char>>) -> bool {
    exists|ks: Seq<int>|
        {
            &&& ks.len() == vs.len()
            &&& (forall|i: int, j: int| 0 <= i < j < ks.len() ==> #[trigger] ks[i] < #[trigger] ks[j])
            &&& (forall|i: int| 0 <= i < ks.len() ==> entries.dom().contains(#[trigger] ks[i])
                && vs[i]@ == entries[ks[i]])
            &&& (forall|k: int| entries.dom().contains(k) ==> exists|i: int|
                0 <= i < ks.len() && #[trigger] ks[i] == k)
        }
}

/// Relies on `SgMap::iter`: it walks the entries in ascending key order.
#[verifier::external_body]
pub fn sg_values(m: &QuoteMap) -> (vs: Vec<&'static str>)
    ensures
        sg_map_entries(*m).dom().finite() ==> {
            &&& vs@.len() == sg_map_entries(*m).len()
            &&& values_in_key_order(vs@, sg_map_entries(*m))
        },
{
    m.iter().map(|(_, v)| *v).collect()
}

/// The words, joined with one space after each.
pub open spec fn spec_joined(vs: Seq<&'static str>) -> Seq<char>
    decreases vs,
{
    if vs.len() == 0 {
        Seq::empty()
    } else {
        spec_joined(vs.drop_last()) + vs.last()@ + seq![' ']
    }
}

/// Joins words, following each with one space.
pub fn join_with_spaces(words: &Vec<&'static str>) -> (msg: String)
    ensures
        msg@ == spec_joined(words@),
{
    let mut msg = String::new();
    let mut i: usize = 0;
    proof {
        assert(words@.take(0) =~= Seq::<&'static str>::empty());
    }
    while i < words.len()
        invariant
            0 <= i <= words@.len(),
            msg@ == spec_joined(words@.take(i as int)),
        decreases words@.len() - i,
    {
        msg.append(words[i]);
        msg.append(" ");
        proof {
            reveal_strlit(" ");
            assert(words@.take(i + 1).drop_last() =~= words@.take(i as int));
            assert(" "@ =~= seq![' ']);
            assert(msg@ =~= spec_joined(words@.take(i + 1)));
        }
        i += 1;
    }
    proof {
        assert(words@.take(words@.len() as int) =~= words@);
    }
    msg
}

/// The quote the lessons assemble in an `SgMap`: filled out of order, the
/// map hands its words back sorted by key; the word under key two comes
/// back on its own; and a fifth insertion is refused.
pub fn scapegoat_example() -> (r: (String, &'static str, bool))
    ensures
        r.0@ == "Please "@ + "don't blame "@ + "the "@ + "borrow checker "@,
        r.1@ == "don't blame"@,
        r.2 == true,
{
    let mut map = sg_new();

    let _ = sg_try_insert(&mut map, 3, "the");
    let _ = sg_try_insert(&mut map, 2, "don't blame");
    let _ = sg_try_insert(&mut map, 1, "Please");
    let _ = sg_try_insert(&mut map, 4, "borrow checker");

    let ghost entries = sg_map_entries(map);
    proof {
        assert(entries =~= Map::<int, Seq<char>>::empty().insert(3, "the"@).insert(
            2,
            "don't blame"@,
        ).insert(1, "Please"@).insert(4, "borrow checker"@));
        assert(entries.dom() =~= set![3int, 2int, 1int, 4int]);
        lemma_quote_dom_len();
    }

    let words = sg_values(&map);
    proof {
        lemma_quote_order(words@, entries);
    }
    let message = join_with_spaces(&words);
    proof {
        let v0 = words@[0];
        let v1 = words@[1];
        let v2 = words@[2];
        let v3 = words@[3];
        assert(v0@ == "Please"@ && v1@ == "don't blame"@ && v2@ == "the"@ && v3@
            == "borrow checker"@);
        let s1 = seq![v0];
        let s2 = seq![v0, v1];
        let s3 = seq![v0, v1, v2];
        let s4 = seq![v0, v1, v2, v3];
        assert(words@ =~= s4);
        assert(s1.drop_last() =~= Seq::<&'static str>::empty());
        assert(s2.drop_last() =~= s1);
        assert(s3.drop_last() =~= s2);
        assert(s4.drop_last() =~= s3);
        reveal_with_fuel(spec_joined, 6);
        assert(spec_joined(Seq::<&'static str>::empty()) =~= Seq::<char>::empty());
        reveal_strlit("Please");
        reveal_strlit("Please ");
        reveal_strlit("don't blame");
        reveal_strlit("don't blame ");
        reveal_strlit("the");
        reveal_strlit("the ");
        reveal_strlit("borrow checker");
        reveal_strlit("borrow checker ");
        assert(spec_joined(s1) =~= "Please "@);
        assert(spec_joined(s2) =~= "Please "@ + "don't blame "@);
        assert(spec_joined(s3) =~= "Please "@ + "don't blame "@ + "the "@);
        assert(spec_joined(s4) =~= "Please "@ + "don't blame "@ + "the "@ + "borrow checker "@);
    }

    let second = match sg_get(&map, 2) {
        Some(w) => w,
        None => {
            proof {
                assert(false);
            }
            ""
        },
    };

    let overflow = sg_try_insert(&mut map, 5, "Hello");
    let refused = overflow.is_err();

    (message, second, refused)
}

/// Four distinct keys make a domain of four.
proof fn lemma_quote_dom_len()
    ensures
        set![3int, 2int, 1int, 4int].len() == 4,
        set![3int, 2int, 1int, 4int].finite(),
{
    assert(set![3int, 2int, 1int, 4int] =~= Set::empty().insert(3int).insert(2int).insert(
        1int,
    ).insert(4int));
}

/// Over the quote's four entries, the only ascending walk is one, two,
/// three, four, so the words come out in that order.
proof fn lemma_quote_order(vs: Seq<&'static str>, entries: Map<int, Seq<char>>)
    requires
        entries.dom() =~= set![3int, 2int, 1int, 4int],
        vs.len() == 4,
        values_in_key_order(vs, entries),
    ensures
        vs[0]@ == entries[1],
        vs[1]@ == entries[2],
        vs[2]@ == entries[3],
        vs[3]@ == entries[4],
{
    let ks = choose|ks: Seq<int>|
        {
            &&& ks.len() == vs.len()
            &&& (forall|i: int, j: int| 0 <= i < j < ks.len() ==> #[trigger] ks[i] < #[trigger] ks[j])
            &&& (forall|i: int| 0 <= i < ks.len() ==> entries.dom().contains(#[trigger] ks[i])
                && vs[i]@ == entries[ks[i]])
            &&& (forall|k: int| entries.dom().contains(k) ==> exists|i: int|
                0 <= i < ks.len() && #[trigger] ks[i] == k)
        };
    assert(entries.dom().contains(1int));
    assert(entries.dom().contains(2int));
    assert(entries.dom().contains(3int));
    assert(entries.dom().contains(4int));
    let i1 = choose|i: int| 0 <= i < ks.len() && ks[i] == 1int;
    let i2 = choose|i: int| 0 <= i < ks.len() && ks[i] == 2int;
    let i3 = choose|i: int| 0 <= i < ks.len() && ks[i] == 3int;
    let i4 = choose|i: int| 0 <= i < ks.len() && ks[i] == 4int;
    assert(i1 != i2 && i1 != i3 && i1 != i4 && i2 != i3 && i2 != i4 && i3 != i4);
    assert(i1 < i2 && i2 < i3 && i3 < i4) by {
        assert(forall|i: int, j: int| 0 <= i < ks.len() && 0 <= j < ks.len() && ks[i] < ks[j]
            ==> i < j);
    }
    assert(i1 == 0 && i2 == 1 && i3 == 2 && i4 == 3);
}

} // verus!
