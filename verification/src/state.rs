use vstd::prelude::*;

verus! {

/// The addresses of a sequence of owned address strings, each as its
/// character sequence.
pub open spec fn addrs_view(v: Seq<String>) -> Seq<Seq<char>> {
    Seq::new(v.len(), |i: int| v[i]@)
}

/// Keeps every address other than `t`.
pub open spec fn keeps_addr(t: Seq<char>) -> spec_fn(Seq<char>) -> bool {
    |a: Seq<char>| a != t
}

/// All entries of `s` other than `t`, in their original order.
pub open spec fn remove_addr(s: Seq<Seq<char>>, t: Seq<char>) -> Seq<Seq<char>> {
    s.filter(keeps_addr(t))
}

/// No address listed twice.
pub open spec fn distinct_addrs(s: Seq<Seq<char>>) -> bool {
    forall|i: int, j: int| 0 <= i < j < s.len() ==> s[i] != s[j]
}

/// The persisted set of owner addresses: an ordered sequence of distinct
/// addresses, never empty once the contract is instantiated.
#[derive(Debug, Clone)]
pub struct OwnerSet {
    pub owners: Vec<String>,
}

impl View for OwnerSet {
    type V = Seq<Seq<char>>;

    open spec fn view(&self) -> Seq<Seq<char>> {
        addrs_view(self.owners@)
    }
}

impl OwnerSet {
    /// Well-formed: at least one owner, and no address listed twice.
    pub open spec fn wf(&self) -> bool {
        &&& self@.len() >= 1
        &&& distinct_addrs(self@)
    }

    /// The owner set holding exactly the deploying address.
    pub fn with_first_owner(deployer: String) -> (s: OwnerSet)
        ensures
            s@ =~= seq![deployer@],
            s.wf(),
    {
        let mut owners: Vec<String> = Vec::new();
        owners.push(deployer);
        OwnerSet { owners }
    }

    /// Whether `addr` is currently an owner.
    pub fn contains(&self, addr: &String) -> (r: bool)
        ensures
            r == self@.contains(addr@),
    {
        let mut i: usize = 0;
        while i < self.owners.len()
            invariant
                i <= self.owners@.len(),
                forall|j: int| 0 <= j < i ==> self@[j] != addr@,
            decreases self.owners@.len() - i,
        {
            if self.owners[i] == *addr {
                proof {
                    assert(self@[i as int] == addr@);
                }
                return true;
            }
            i += 1;
        }
        false
    }

    /// Append `addr` unless it is already a member.
    pub fn insert(&mut self, addr: String)
        requires
            old(self).wf(),
        ensures
            final(self).wf(),
            old(self)@.contains(addr@) ==> final(self)@ == old(self)@,
            !old(self)@.contains(addr@) ==> final(self)@ == old(self)@.push(addr@),
    {
        if !self.contains(&addr) {
            proof {
                assert forall|j: int| 0 <= j < self@.len() implies self@[j] != addr@ by {
                    if self@[j] == addr@ {
                        assert(self@.contains(addr@));
                    }
                }
            }
            self.owners.push(addr);
            proof {
                assert(self@ =~= old(self)@.push(addr@));
            }
        }
    }

    /// All owners other than `addr`, in their original order.
    pub fn without(&self, addr: &String) -> (kept: Vec<String>)
        ensures
            addrs_view(kept@) == remove_addr(self@, addr@),
    {
        let mut kept: Vec<String> = Vec::new();
        let mut i: usize = 0;
        while i < self.owners.len()
            invariant
                i <= self.owners@.len(),
                addrs_view(kept@) =~= remove_addr(self@.take(i as int), addr@),
            decreases self.owners@.len() - i,
        {
            let ghost prefix = self@.take(i as int);
            if !(self.owners[i] == *addr) {
                kept.push(self.owners[i].clone());
            }
            proof {
                broadcast use Seq::lemma_filter_push;

                assert(self@.take(i as int + 1) =~= prefix.push(self@[i as int]));
            }
            i += 1;
        }
        proof {
            assert(self@.take(self.owners@.len() as int) =~= self@);
        }
        kept
    }
}

/// The persisted collection of auctions that are open or have unclaimed
/// settlement. The core tracks the records only as an opaque ordered
/// sequence of record handles; their content is out of its scope.
#[derive(Debug, Clone)]
pub struct OpenAuctions {
    pub records: Vec<u64>,
}

impl View for OpenAuctions {
    type V = Seq<u64>;

    open spec fn view(&self) -> Seq<u64> {
        self.records@
    }
}

impl OpenAuctions {
    /// The empty collection that instantiation starts from.
    pub fn empty() -> (a: OpenAuctions)
        ensures
            a@ == Seq::<u64>::empty(),
    {
        OpenAuctions { records: Vec::new() }
    }
}

/// The owner set can never become empty: instantiation and every owner
/// mutation establish well-formedness again, and a well-formed set holds at
/// least one owner, so no sequence of add/remove calls by authorized owners
/// empties it.
pub proof fn lemma_owner_set_never_empty(s: OwnerSet)
    requires
        s.wf(),
    ensures
        s@.len() > 0,
{
}

/// Removing an address that is not present leaves the sequence unchanged.
pub proof fn lemma_remove_addr_absent(s: Seq<Seq<char>>, t: Seq<char>)
    requires
        !s.contains(t),
    ensures
        remove_addr(s, t) == s,
    decreases s.len(),
{
    reveal(Seq::filter);
    if s.len() == 0 {
        assert(remove_addr(s, t) =~= s);
    } else {
        let rest = s.drop_last();
        assert(!rest.contains(t)) by {
            if rest.contains(t) {
                let i = choose|i: int| 0 <= i < rest.len() && rest[i] == t;
                assert(s[i] == t);
            }
        }
        lemma_remove_addr_absent(rest, t);
        assert(s.last() != t) by {
            if s.last() == t {
                assert(s[s.len() - 1] == t);
            }
        }
        assert(rest.push(s.last()) =~= s);
    }
}

/// Removing an address from a sequence of distinct addresses leaves the
/// remaining addresses distinct.
pub proof fn lemma_remove_addr_distinct(s: Seq<Seq<char>>, t: Seq<char>)
    requires
        distinct_addrs(s),
    ensures
        distinct_addrs(remove_addr(s, t)),
    decreases s.len(),
{
    reveal(Seq::filter);
    if s.len() > 0 {
        let rest = s.drop_last();
        let last = s.last();
        assert(distinct_addrs(rest)) by {
            assert(forall|i: int| 0 <= i < rest.len() ==> rest[i] == s[i]);
        }
        lemma_remove_addr_distinct(rest, t);
        if last != t {
            assert(!remove_addr(rest, t).contains(last)) by {
                if remove_addr(rest, t).contains(last) {
                    rest.lemma_filter_contains_rev(keeps_addr(t), last);
                    let i = choose|i: int| 0 <= i < rest.len() && rest[i] == last;
                    assert(s[i] == s[s.len() - 1]);
                }
            }
            let kept = remove_addr(rest, t).push(last);
            assert(remove_addr(s, t) == kept);
            assert forall|i: int, j: int| 0 <= i < j < kept.len() implies kept[i] != kept[j] by {
                if j == kept.len() - 1 {
                    assert(remove_addr(rest, t).contains(kept[i])) by {
                        assert(remove_addr(rest, t)[i] == kept[i]);
                    }
                }
            }
        }
    }
}

} // verus!
