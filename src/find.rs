use vstd::prelude::*;

verus! {

/// The views of a vector of strings.
pub open spec fn texts(v: Seq<String>) -> Seq<Seq<char>> {
    v.map_values(|s: String| s@)
}

/// `i` is the first position of `key` in `keys`.
pub open spec fn is_first(keys: Seq<Seq<char>>, key: Seq<char>, i: int) -> bool {
    &&& 0 <= i < keys.len()
    &&& keys[i] == key
    &&& forall|k: int| 0 <= k < i ==> keys[k] != key
}

/// The first position of `key` in `keys`, if it occurs.
pub open spec fn first_index(keys: Seq<Seq<char>>, key: Seq<char>) -> Option<int> {
    if exists|i: int| is_first(keys, key, i) {
        Some(choose|i: int| is_first(keys, key, i))
    } else {
        None
    }
}

/// A key has at most one first position.
pub proof fn lemma_first_unique(keys: Seq<Seq<char>>, key: Seq<char>, i: int, j: int)
    requires
        is_first(keys, key, i),
        is_first(keys, key, j),
    ensures
        i == j,
{
    if i < j {
        assert(keys[i] != key);
    } else if j < i {
        assert(keys[j] != key);
    }
}

/// What `first_index` gives, from the facts that settle it.
pub proof fn lemma_first_index(keys: Seq<Seq<char>>, key: Seq<char>, r: Option<int>)
    requires
        match r {
            Some(i) => is_first(keys, key, i),
            None => forall|k: int| 0 <= k < keys.len() ==> keys[k] != key,
        },
    ensures
        first_index(keys, key) == r,
{
    match r {
        Some(i) => {
            let c = choose|c: int| is_first(keys, key, c);
            lemma_first_unique(keys, key, i, c);
        },
        None => {
            assert(!exists|i: int| is_first(keys, key, i));
        },
    }
}

/// The first position of `name` in `names`.
pub fn position(names: &Vec<String>, name: &String) -> (r: Option<usize>)
    ensures
        r matches Some(i) ==> i < names.len(),
        match r {
            Some(i) => first_index(texts(names@), name@) == Some(i as int),
            None => first_index(texts(names@), name@) is None,
        },
{
    let ghost keys = texts(names@);
    let mut i: usize = 0;
    while i < names.len()
        invariant
            i <= names.len(),
            keys == texts(names@),
            forall|k: int| 0 <= k < i ==> keys[k] != name@,
        decreases names.len() - i,
    {
        if names[i] == *name {
            proof {
                lemma_first_index(keys, name@, Some(i as int));
            }
            return Some(i);
        }
        i = i + 1;
    }
    proof {
        lemma_first_index(keys, name@, None);
    }
    None
}

} // verus!
