use vstd::prelude::*;

verus! {

/// The contact point that a configuration made with `localhost` holds.
pub const DEFAULT_CONTACT_POINT: &'static str = "127.0.0.1";

/// The set of contact-point addresses used to bootstrap a session. Each
/// address is held once, in the order in which it was first given.
pub struct ClusterConfig {
    contact_points: Vec<String>,
}

/// The addresses of a sequence of strings.
pub open spec fn addresses_of(points: Seq<String>) -> Seq<Seq<char>> {
    points.map_values(|s: String| s@)
}

/// Each address of `addresses` at its first occurrence, in order.
pub open spec fn first_occurrences(addresses: Seq<Seq<char>>) -> Seq<Seq<char>>
    decreases addresses.len(),
{
    if addresses.len() == 0 {
        Seq::empty()
    } else {
        let earlier = first_occurrences(addresses.drop_last());
        if earlier.contains(addresses.last()) {
            earlier
        } else {
            earlier.push(addresses.last())
        }
    }
}

impl View for ClusterConfig {
    type V = Seq<Seq<char>>;

    closed spec fn view(&self) -> Seq<Seq<char>> {
        addresses_of(self.contact_points@)
    }
}

impl ClusterConfig {
    /// Every address is held once.
    pub open spec fn wf(&self) -> bool {
        self@.no_duplicates()
    }

    /// A configuration without contact points.
    pub fn new() -> (r: ClusterConfig)
        ensures
            r.wf(),
            r@ == Seq::<Seq<char>>::empty(),
    {
        let r = ClusterConfig { contact_points: Vec::new() };
        assert(r@ =~= Seq::<Seq<char>>::empty());
        r
    }

    /// A configuration whose one contact point is the local host.
    pub fn localhost() -> (r: ClusterConfig)
        ensures
            r.wf(),
            r@ == seq![DEFAULT_CONTACT_POINT@],
    {
        let mut r = ClusterConfig::new();
        r.add_contact_point(DEFAULT_CONTACT_POINT.to_owned());
        r
    }

    /// Whether `address` is among the contact points.
    pub fn contains(&self, address: &String) -> (r: bool)
        ensures
            r == self@.contains(address@),
    {
        let mut i: usize = 0;
        while i < self.contact_points.len()
            invariant
                i <= self.contact_points@.len(),
                self@ == addresses_of(self.contact_points@),
                forall|j: int| 0 <= j < i ==> self@[j] != address@,
            decreases self.contact_points@.len() - i,
        {
            if self.contact_points[i] == *address {
                assert(self@[i as int] == address@);
                return true;
            }
            i = i + 1;
        }
        false
    }

    /// Adds `address` unless it is already held; says whether it was added.
    pub fn add_contact_point(&mut self, address: String) -> (added: bool)
        requires
            old(self).wf(),
        ensures
            final(self).wf(),
            added == !old(self)@.contains(address@),
            added ==> final(self)@ == old(self)@.push(address@),
            !added ==> final(self)@ == old(self)@,
    {
        if self.contains(&address) {
            return false;
        }
        let ghost before = self@;
        self.contact_points.push(address);
        assert(self@ =~= before.push(address@));
        true
    }

    /// A configuration that holds each address of `points` once, at the
    /// place of its first occurrence.
    pub fn configure(points: Vec<String>) -> (r: ClusterConfig)
        ensures
            r.wf(),
            r@ == first_occurrences(addresses_of(points@)),
            forall|a: Seq<char>| r@.contains(a) <==> addresses_of(points@).contains(a),
    {
        let mut r = ClusterConfig::new();
        let mut i: usize = 0;
        while i < points.len()
            invariant
                i <= points@.len(),
                r.wf(),
                r@ == first_occurrences(addresses_of(points@.subrange(0, i as int))),
                forall|a: Seq<char>|
                    r@.contains(a) <==> addresses_of(points@.subrange(0, i as int)).contains(a),
            decreases points@.len() - i,
        {
            let ghost seen = addresses_of(points@.subrange(0, i as int));
            let ghost held = r@;
            r.add_contact_point(points[i].clone());
            assert(addresses_of(points@.subrange(0, i + 1)) =~= seen.push(points@[i as int]@));
            assert(seen.push(points@[i as int]@).drop_last() =~= seen);
            assert(r@ == first_occurrences(seen.push(points@[i as int]@)));
            assert forall|a: Seq<char>| seen.push(points@[i as int]@).contains(a) <==> (seen.contains(
                a,
            ) || a == points@[i as int]@) by {
                if a == points@[i as int]@ {
                    assert(seen.push(a)[seen.len() as int] == a);
                }
                if seen.contains(a) {
                    let k = choose|k: int| 0 <= k < seen.len() && seen[k] == a;
                    assert(seen.push(points@[i as int]@)[k] == a);
                }
            }
            assert forall|a: Seq<char>| r@.contains(a) <==> (held.contains(a) || a
                == points@[i as int]@) by {
                if r@ != held {
                    assert(r@ == held.push(points@[i as int]@));
                    if a == points@[i as int]@ {
                        assert(r@[held.len() as int] == a);
                    }
                    if held.contains(a) {
                        let k = choose|k: int| 0 <= k < held.len() && held[k] == a;
                        assert(r@[k] == a);
                    }
                }
            }
            assert forall|a: Seq<char>| r@.contains(a) <==> seen.push(points@[i as int]@).contains(
                a,
            ) by {
                assert(held.contains(a) <==> seen.contains(a));
            }
            i = i + 1;
        }
        assert(points@.subrange(0, points@.len() as int) =~= points@);
        r
    }

    /// The contact points, in order.
    pub fn contact_points(&self) -> (r: &Vec<String>)
        ensures
            addresses_of(r@) == self@,
    {
        &self.contact_points
    }

    /// How many contact points there are.
    pub fn len(&self) -> (r: usize)
        ensures
            r == self@.len(),
    {
        self.contact_points.len()
    }
}

} // verus!
