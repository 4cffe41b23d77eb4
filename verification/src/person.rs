use vstd::prelude::*;

verus! {

/// The person of the borrowing lessons: a named owner of one `String`.
#[derive(Clone, Debug)]
pub struct Person {
    name: String,
}

impl Person {
    /// The person's name.
    pub closed spec fn spec_name(&self) -> Seq<char> {
        self.name@
    }

    /// A person with the given name.
    pub fn new(name: &str) -> (p: Self)
        ensures
            p.spec_name() == name@,
    {
        Self { name: name.to_owned() }
    }

    /// A borrow of the name.
    pub fn get_name(&self) -> (n: &str)
        ensures
            n@ == self.spec_name(),
    {
        self.name.as_str()
    }

    /// Renames the person.
    pub fn set_name(&mut self, name: &str)
        ensures
            final(self).spec_name() == name@,
    {
        self.name = name.to_owned();
    }

    /// The same person, addressed as a mister.
    pub fn add_mister(self) -> (p: Self)
        ensures
            p.spec_name() == "Mr. "@ + self.spec_name(),
    {
        let mut this = self;
        let mut name = "Mr. ".to_owned();
        name.append(this.name.as_str());
        this.name = name;
        this
    }
}

/// How many entries become even when one is added to them, without
/// touching the list.
#[verifier::loop_isolation(false)]
pub fn add_1_count_even_imut(list: &[i32]) -> (count: usize)
    requires
        forall|i: int| 0 <= i < list@.len() ==> #[trigger] list@[i] < i32::MAX,
    ensures
        count == Set::new(|i: int| 0 <= i < list@.len() && (list@[i] + 1) % 2 == 0).len(),
{
    let mut count: usize = 0;
    let mut i: usize = 0;
    proof {
        assert(Set::new(|j: int| 0 <= j < 0 && (list@[j] + 1) % 2 == 0) =~= Set::empty());
    }
    while i < list.len()
        invariant
            0 <= i <= list@.len(),
            count == Set::new(|j: int| 0 <= j < i && (list@[j] + 1) % 2 == 0).len(),
            count <= i,
        decreases list@.len() - i,
    {
        let ghost pre = Set::new(|j: int| 0 <= j < i && (list@[j] + 1) % 2 == 0);
        proof {
            lemma_prefix_set(list@, i as int);
        }
        if (list[i] + 1) % 2 == 0 {
            count += 1;
            proof {
                assert(Set::new(|j: int| 0 <= j < i + 1 && (list@[j] + 1) % 2 == 0) =~= pre.insert(
                    i as int,
                ));
                assert(!pre.contains(i as int));
            }
        } else {
            proof {
                assert(Set::new(|j: int| 0 <= j < i + 1 && (list@[j] + 1) % 2 == 0) =~= pre);
            }
        }
        i += 1;
    }
    count
}

/// A prefix set of indices is finite and no larger than the prefix.
proof fn lemma_prefix_set(s: Seq<i32>, n: int)
    requires
        0 <= n <= s.len(),
    ensures
        Set::new(|j: int| 0 <= j < n && (s[j] + 1) % 2 == 0).finite(),
        Set::new(|j: int| 0 <= j < n && (s[j] + 1) % 2 == 0).len() <= n,
    decreases n,
{
    if n == 0 {
        assert(Set::new(|j: int| 0 <= j < 0 && (s[j] + 1) % 2 == 0) =~= Set::empty());
    } else {
        lemma_prefix_set(s, n - 1);
        let pre = Set::new(|j: int| 0 <= j < n - 1 && (s[j] + 1) % 2 == 0);
        let cur = Set::new(|j: int| 0 <= j < n && (s[j] + 1) % 2 == 0);
        if (s[n - 1] + 1) % 2 == 0 {
            assert(cur =~= pre.insert(n - 1));
        } else {
            assert(cur =~= pre);
        }
    }
}

/// Adds one to every entry, then says how many are even.
#[verifier::loop_isolation(false)]
pub fn add_1_count_even_mut(list: &mut [i32]) -> (count: usize)
    requires
        forall|i: int| 0 <= i < old(list)@.len() ==> #[trigger] old(list)@[i] < i32::MAX,
    ensures
        final(list)@.len() == old(list)@.len(),
        forall|i: int| 0 <= i < old(list)@.len() ==> #[trigger] final(list)@[i] == old(list)@[i]
            + 1,
        count == Set::new(|i: int| 0 <= i < final(list)@.len() && final(list)@[i] % 2 == 0).len(),
{
    let mut i: usize = 0;
    while i < list.len()
        invariant
            0 <= i <= list@.len(),
            list@.len() == old(list)@.len(),
            forall|j: int| 0 <= j < old(list)@.len() ==> #[trigger] old(list)@[j] < i32::MAX,
            forall|j: int| 0 <= j < i ==> #[trigger] list@[j] == old(list)@[j] + 1,
            forall|j: int| i <= j < list@.len() ==> #[trigger] list@[j] == old(list)@[j],
        decreases list@.len() - i,
    {
        let v = list[i];
        list[i] = v + 1;
        i += 1;
    }

    let ghost bumped = list@;
    let mut count: usize = 0;
    let mut i: usize = 0;
    proof {
        assert(Set::new(|j: int| 0 <= j < 0 && list@[j] % 2 == 0) =~= Set::empty());
    }
    while i < list.len()
        invariant
            0 <= i <= list@.len(),
            list@ == bumped,
            count == Set::new(|j: int| 0 <= j < i && list@[j] % 2 == 0).len(),
            count <= i,
        decreases list@.len() - i,
    {
        let ghost pre = Set::new(|j: int| 0 <= j < i && list@[j] % 2 == 0);
        proof {
            lemma_prefix_even_set(list@, i as int);
        }
        if list[i] % 2 == 0 {
            count += 1;
            proof {
                assert(Set::new(|j: int| 0 <= j < i + 1 && list@[j] % 2 == 0) =~= pre.insert(
                    i as int,
                ));
                assert(!pre.contains(i as int));
            }
        } else {
            proof {
                assert(Set::new(|j: int| 0 <= j < i + 1 && list@[j] % 2 == 0) =~= pre);
            }
        }
        i += 1;
    }
    count
}

/// A prefix set of even positions is finite and no larger than the prefix.
proof fn lemma_prefix_even_set(s: Seq<i32>, n: int)
    requires
        0 <= n <= s.len(),
    ensures
        Set::new(|j: int| 0 <= j < n && s[j] % 2 == 0).finite(),
        Set::new(|j: int| 0 <= j < n && s[j] % 2 == 0).len() <= n,
    decreases n,
{
    if n == 0 {
        assert(Set::new(|j: int| 0 <= j < 0 && s[j] % 2 == 0) =~= Set::empty());
    } else {
        lemma_prefix_even_set(s, n - 1);
        let pre = Set::new(|j: int| 0 <= j < n - 1 && s[j] % 2 == 0);
        let cur = Set::new(|j: int| 0 <= j < n && s[j] % 2 == 0);
        if s[n - 1] % 2 == 0 {
            assert(cur =~= pre.insert(n - 1));
        } else {
            assert(cur =~= pre);
        }
    }
}

} // verus!
