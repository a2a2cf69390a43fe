//! The rooms one connection has joined.

use vstd::prelude::*;

verus! {

/// The names of the rooms a connection is in, each at most once.
#[derive(Debug)]
pub struct JoinedRooms {
    names: Vec<String>,
}

/// The texts of `names`, in order.
pub open spec fn texts(names: Seq<String>) -> Seq<Seq<char>> {
    names.map_values(|name: String| name@)
}

impl View for JoinedRooms {
    type V = Set<Seq<char>>;

    closed spec fn view(&self) -> Set<Seq<char>> {
        texts(self.names@).to_set()
    }
}

/// Taking the `i`-th text out of texts that occur once each takes exactly
/// that text out of their set.
proof fn remove_from_unique(s: Seq<Seq<char>>, i: int)
    requires
        s.no_duplicates(),
        0 <= i < s.len(),
    ensures
        s.remove(i).to_set() == s.to_set().remove(s[i]),
        s.remove(i).no_duplicates(),
{
    let r = s.remove(i);
    assert forall|x: Seq<char>| r.to_set().contains(x) <==> s.to_set().remove(s[i]).contains(x) by {
        if r.contains(x) {
            let j = choose|j: int| 0 <= j < r.len() && r[j] == x;
            if j < i {
                assert(s[j] == x);
            } else {
                assert(s[j + 1] == x);
            }
        }
        if s.contains(x) && x != s[i] {
            let j = choose|j: int| 0 <= j < s.len() && s[j] == x;
            if j < i {
                assert(r[j] == x);
            } else {
                assert(r[j - 1] == x);
            }
        }
    }
    assert(r.to_set() =~= s.to_set().remove(s[i]));
    assert forall|a: int, b: int| 0 <= a < r.len() && 0 <= b < r.len() && a != b implies r[a]
        != r[b] by {
        let sa = if a < i { a } else { a + 1 };
        let sb = if b < i { b } else { b + 1 };
        assert(r[a] == s[sa] && r[b] == s[sb]);
    }
}

impl JoinedRooms {
    /// No name occurs twice.
    pub closed spec fn wf(&self) -> bool {
        texts(self.names@).no_duplicates()
    }

    /// In no room.
    pub fn new() -> (r: Self)
        ensures
            r.wf(),
            r@ == Set::<Seq<char>>::empty(),
    {
        let r = JoinedRooms { names: Vec::new() };
        assert(texts(r.names@) =~= Seq::empty());
        assert(r@ =~= Set::<Seq<char>>::empty());
        r
    }

    /// Where `name` stands, if it is joined.
    fn position(&self, name: &str) -> (r: Option<usize>)
        requires
            self.wf(),
        ensures
            match r {
                Some(i) => i < self.names@.len() && self.names@[i as int]@ == name@,
                None => !self@.contains(name@),
            },
    {
        let wanted = name.to_owned();
        let mut i: usize = 0;
        while i < self.names.len()
            invariant
                i <= self.names@.len(),
                wanted@ == name@,
                forall|j: int| 0 <= j < i ==> self.names@[j]@ != name@,
            decreases self.names@.len() - i,
        {
            if self.names[i] == wanted {
                return Some(i);
            }
            i = i + 1;
        }
        assert(!texts(self.names@).contains(name@));
        None
    }

    /// Whether the connection is in room `name`.
    pub fn contains(&self, name: &str) -> (r: bool)
        requires
            self.wf(),
        ensures
            r == self@.contains(name@),
    {
        let found = self.position(name);
        proof {
            if let Some(i) = found {
                assert(texts(self.names@)[i as int] == name@);
            }
        }
        found.is_some()
    }

    /// Whether the connection is in no room.
    pub fn is_empty(&self) -> (r: bool)
        requires
            self.wf(),
        ensures
            r == (self@ == Set::<Seq<char>>::empty()),
    {
        proof {
            if self.names@.len() > 0 {
                assert(self@.contains(texts(self.names@)[0]));
            } else {
                assert(self@ =~= Set::<Seq<char>>::empty());
            }
        }
        self.names.len() == 0
    }

    /// Joins room `name`; tells whether the connection was in it already.
    pub fn join(&mut self, name: String) -> (was_in: bool)
        requires
            old(self).wf(),
        ensures
            final(self).wf(),
            was_in == old(self)@.contains(name@),
            final(self)@ == old(self)@.insert(name@),
    {
        match self.position(name.as_str()) {
            Some(i) => {
                proof {
                    assert(texts(self.names@)[i as int] == name@);
                    assert(self@ =~= self@.insert(name@));
                }
                true
            },
            None => {
                let ghost before = texts(self.names@);
                self.names.push(name);
                proof {
                    assert(texts(self.names@) =~= before.push(name@));
                    before.lemma_push_to_set_commute(name@);
                    assert forall|a: int, b: int|
                        0 <= a < before.len() + 1 && 0 <= b < before.len() + 1 && a != b implies
                        before.push(name@)[a] != before.push(name@)[b] by {
                        if a == before.len() {
                            assert(before.contains(before[b]));
                        } else if b == before.len() {
                            assert(before.contains(before[a]));
                        }
                    }
                }
                false
            },
        }
    }

    /// Leaves room `name`; tells whether the connection was in it.
    pub fn leave(&mut self, name: &str) -> (was_in: bool)
        requires
            old(self).wf(),
        ensures
            final(self).wf(),
            was_in == old(self)@.contains(name@),
            final(self)@ == old(self)@.remove(name@),
    {
        match self.position(name) {
            None => {
                assert(self@ =~= self@.remove(name@));
                false
            },
            Some(i) => {
                let ghost before = texts(self.names@);
                proof {
                    assert(before[i as int] == name@);
                    remove_from_unique(before, i as int);
                }
                let _ = self.names.remove(i);
                assert(texts(self.names@) =~= before.remove(i as int));
                true
            },
        }
    }

    /// The names of the rooms the connection is in, each once.
    pub fn into_names(self) -> (r: Vec<String>)
        requires
            self.wf(),
        ensures
            texts(r@).to_set() == self@,
            texts(r@).no_duplicates(),
    {
        self.names
    }
}

/// A request of a connection about its rooms, by room name.
pub enum RoomRequest {
    Join(Seq<char>),
    Leave(Seq<char>),
}

/// The rooms a connection is in after `requests`, starting from `start`:
/// a join puts it in the room, a leave takes it out.
pub open spec fn rooms_after(start: Set<Seq<char>>, requests: Seq<RoomRequest>) -> Set<Seq<char>>
    decreases requests.len(),
{
    if requests.len() == 0 {
        start
    } else {
        let earlier = rooms_after(start, requests.drop_last());
        match requests.last() {
            RoomRequest::Join(name) => earlier.insert(name),
            RoomRequest::Leave(name) => earlier.remove(name),
        }
    }
}

/// The `i`-th request joins `name` and no later request leaves it.
pub open spec fn joined_for_good(requests: Seq<RoomRequest>, name: Seq<char>, i: int) -> bool {
    &&& 0 <= i < requests.len()
    &&& requests[i] == RoomRequest::Join(name)
    &&& forall|j: int| i < j < requests.len() ==> requests[j] != RoomRequest::Leave(name)
}

/// A connection that starts in no room is, after any run of joins and
/// leaves, in exactly the rooms it joined and did not leave afterwards; so
/// these are the rooms it is taken out of when it goes away.
pub proof fn rooms_are_those_joined_and_not_left(requests: Seq<RoomRequest>, name: Seq<char>)
    ensures
        rooms_after(Set::empty(), requests).contains(name) <==> exists|i: int|
            joined_for_good(requests, name, i),
    decreases requests.len(),
{
    if requests.len() > 0 {
        let earlier = requests.drop_last();
        let n = requests.len() - 1;
        rooms_are_those_joined_and_not_left(earlier, name);
        if rooms_after(Set::empty(), requests).contains(name) {
            if requests[n] == RoomRequest::Join(name) {
                assert(joined_for_good(requests, name, n));
            } else {
                assert(requests[n] != RoomRequest::Leave(name));
                assert(rooms_after(Set::empty(), earlier).contains(name));
                let i = choose|i: int| joined_for_good(earlier, name, i);
                assert forall|j: int| i < j < requests.len() implies requests[j]
                    != RoomRequest::Leave(name) by {
                    if j < n {
                        assert(earlier[j] == requests[j]);
                    }
                }
                assert(joined_for_good(requests, name, i));
            }
        }
        if exists|i: int| joined_for_good(requests, name, i) {
            let i = choose|i: int| joined_for_good(requests, name, i);
            if i < n {
                assert(requests[n] != RoomRequest::Leave(name));
                assert forall|j: int| i < j < earlier.len() implies earlier[j]
                    != RoomRequest::Leave(name) by {
                    assert(earlier[j] == requests[j]);
                }
                assert(joined_for_good(earlier, name, i));
                assert(requests[n] != RoomRequest::Leave(name));
            }
        }
    }
}

} // verus!
