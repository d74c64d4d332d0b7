use vstd::prelude::*;
use crate::mmo7::buttons::{ButtonConfigs, SpecButtonConfig, empty_profile};

verus! {

/// The profiles of the mice that the driver has seen, one per serial number.
pub struct ProfileStore {
    serials: Vec<String>,
    configs: Vec<ButtonConfigs>,
}

/// No serial number occurs twice.
pub open spec fn distinct_serials(s: Seq<String>) -> bool {
    forall|i: int, j: int|
        0 <= i < s.len() && 0 <= j < s.len() && i != j ==> #[trigger] s[i]@ != #[trigger] s[j]@
}

/// The texts that a list holds.
pub open spec fn serial_set(s: Seq<String>) -> Set<Seq<char>> {
    Set::new(|k: Seq<char>| exists|i: int| 0 <= i < s.len() && #[trigger] s[i]@ == k)
}

/// The values of a list of texts in which nothing occurs twice, as a
/// sequence, hold the same texts, each once.
proof fn lemma_deep_view_set(s: Seq<String>)
    requires
        distinct_serials(s),
    ensures
        s.map_values(|t: String| t@).no_duplicates(),
        s.map_values(|t: String| t@).to_set() == serial_set(s),
{
    let d = s.map_values(|t: String| t@);
    assert forall|k: Seq<char>| #[trigger] d.to_set().contains(k) == serial_set(s).contains(k) by {
        if d.contains(k) {
            let j = choose|j: int| 0 <= j < d.len() && d[j] == k;
            assert(s[j]@ == k);
        }
        if serial_set(s).contains(k) {
            let j = choose|j: int| 0 <= j < s.len() && #[trigger] s[j]@ == k;
            assert(d[j] == k);
        }
    }
    assert(d.to_set() =~= serial_set(s));
}

impl ProfileStore {
    /// One profile per serial number, the two lists of equal length.
    pub closed spec fn wf(&self) -> bool {
        &&& self.serials@.len() == self.configs@.len()
        &&& distinct_serials(self.serials@)
    }

    spec fn index_of(&self, k: Seq<char>) -> int {
        choose|i: int| 0 <= i < self.serials@.len() && #[trigger] self.serials@[i]@ == k
    }

    /// The profiles by serial number.
    pub closed spec fn view(&self) -> Map<Seq<char>, Seq<SpecButtonConfig>> {
        Map::new(
            |k: Seq<char>|
                exists|i: int| 0 <= i < self.serials@.len() && #[trigger] self.serials@[i]@ == k,
            |k: Seq<char>| self.configs@[self.index_of(k)]@,
        )
    }

    proof fn lemma_view_at(&self, i: int)
        requires
            self.wf(),
            0 <= i < self.serials@.len(),
        ensures
            self.view().dom().contains(self.serials@[i]@),
            self.view()[self.serials@[i]@] == self.configs@[i]@,
    {
        let k = self.serials@[i]@;
        assert(0 <= i < self.serials@.len() && self.serials@[i]@ == k);
        let j = self.index_of(k);
        assert(0 <= j < self.serials@.len() && self.serials@[j]@ == k);
        assert(i == j);
    }

    proof fn lemma_view_absent(&self, k: Seq<char>)
        requires
            self.wf(),
            forall|i: int| 0 <= i < self.serials@.len() ==> #[trigger] self.serials@[i]@ != k,
        ensures
            !self.view().dom().contains(k),
    {
    }

    /// A store without profiles.
    pub fn new() -> (res: Self)
        ensures
            res.wf(),
            res.view() == Map::<Seq<char>, Seq<SpecButtonConfig>>::empty(),
    {
        let res = ProfileStore { serials: Vec::new(), configs: Vec::new() };
        assert(res.view() =~= Map::<Seq<char>, Seq<SpecButtonConfig>>::empty());
        res
    }

    /// The place of a serial number in the store, if it has a profile.
    fn find(&self, serial: &String) -> (res: Option<usize>)
        requires
            self.wf(),
        ensures
            match res {
                Some(i) => i < self.serials@.len() && self.serials@[i as int]@ == serial@,
                None => forall|i: int|
                    0 <= i < self.serials@.len() ==> #[trigger] self.serials@[i]@ != serial@,
            },
    {
        let mut i: usize = 0;
        while i < self.serials.len()
            invariant
                i <= self.serials@.len(),
                forall|j: int| 0 <= j < i ==> #[trigger] self.serials@[j]@ != serial@,
            decreases self.serials@.len() - i,
        {
            if self.serials[i] == *serial {
                return Some(i);
            }
            i = i + 1;
        }
        None
    }

    /// Whether a mouse has a profile.
    pub fn contains(&self, serial: &String) -> (res: bool)
        requires
            self.wf(),
        ensures
            res == self.view().dom().contains(serial@),
    {
        match self.find(serial) {
            Some(i) => {
                proof {
                    self.lemma_view_at(i as int);
                }
                true
            },
            None => {
                proof {
                    self.lemma_view_absent(serial@);
                }
                false
            },
        }
    }

    /// The profile of a mouse, if it has one.
    pub fn get(&self, serial: &String) -> (res: Option<&ButtonConfigs>)
        requires
            self.wf(),
        ensures
            match res {
                Some(c) => self.view().dom().contains(serial@) && self.view()[serial@] == c@,
                None => !self.view().dom().contains(serial@),
            },
    {
        match self.find(serial) {
            Some(i) => {
                proof {
                    self.lemma_view_at(i as int);
                }
                Some(&self.configs[i])
            },
            None => {
                proof {
                    self.lemma_view_absent(serial@);
                }
                None
            },
        }
    }

    /// Stores the profile of a mouse, in place of the one it had.
    pub fn insert(&mut self, serial: String, configs: ButtonConfigs)
        requires
            old(self).wf(),
        ensures
            final(self).wf(),
            final(self).view() == old(self).view().insert(serial@, configs@),
    {
        let ghost k = serial@;
        let ghost v = configs@;
        let ghost before = *self;
        match self.find(&serial) {
            Some(i) => {
                self.configs.set(i, configs);
                proof {
                    assert(self.serials@ == before.serials@);
                    assert forall|k2: Seq<char>|
                        #[trigger] self.view().dom().contains(k2) == before.view().insert(
                            k,
                            v,
                        ).dom().contains(k2) by {
                        if self.view().dom().contains(k2) {
                            let j = choose|j: int|
                                0 <= j < self.serials@.len() && #[trigger] self.serials@[j]@ == k2;
                            before.lemma_view_at(j);
                        }
                        if before.view().dom().contains(k2) {
                            let j = choose|j: int|
                                0 <= j < before.serials@.len() && #[trigger] before.serials@[j]@
                                    == k2;
                            self.lemma_view_at(j);
                        }
                        if k2 == k {
                            self.lemma_view_at(i as int);
                        }
                    }
                    assert forall|k2: Seq<char>| #[trigger]
                        self.view().dom().contains(k2) implies self.view()[k2]
                        == before.view().insert(k, v)[k2] by {
                        let j = choose|j: int|
                            0 <= j < self.serials@.len() && #[trigger] self.serials@[j]@ == k2;
                        self.lemma_view_at(j);
                        if j != i {
                            before.lemma_view_at(j);
                        }
                    }
                    assert(self.view() =~= before.view().insert(k, v));
                }
            },
            None => {
                self.serials.push(serial);
                self.configs.push(configs);
                proof {
                    let n = before.serials@.len() as int;
                    assert forall|a: int, b: int|
                        0 <= a < self.serials@.len() && 0 <= b < self.serials@.len() && a != b
                            implies #[trigger] self.serials@[a]@ != #[trigger] self.serials@[b]@ by {
                        if a < n && b < n {
                            assert(before.serials@[a] == self.serials@[a]);
                            assert(before.serials@[b] == self.serials@[b]);
                        }
                    }
                    assert forall|k2: Seq<char>|
                        #[trigger] self.view().dom().contains(k2) == before.view().insert(
                            k,
                            v,
                        ).dom().contains(k2) by {
                        if self.view().dom().contains(k2) {
                            let j = choose|j: int|
                                0 <= j < self.serials@.len() && #[trigger] self.serials@[j]@ == k2;
                            if j < n {
                                assert(before.serials@[j] == self.serials@[j]);
                                before.lemma_view_at(j);
                            }
                        }
                        if before.view().dom().contains(k2) {
                            let j = choose|j: int|
                                0 <= j < before.serials@.len() && #[trigger] before.serials@[j]@
                                    == k2;
                            assert(before.serials@[j] == self.serials@[j]);
                            self.lemma_view_at(j);
                        }
                        if k2 == k {
                            self.lemma_view_at(n);
                        }
                    }
                    assert forall|k2: Seq<char>| #[trigger]
                        self.view().dom().contains(k2) implies self.view()[k2]
                        == before.view().insert(k, v)[k2] by {
                        let j = choose|j: int|
                            0 <= j < self.serials@.len() && #[trigger] self.serials@[j]@ == k2;
                        self.lemma_view_at(j);
                        if j < n {
                            assert(before.serials@[j] == self.serials@[j]);
                            assert(before.configs@[j] == self.configs@[j]);
                            before.lemma_view_at(j);
                        }
                    }
                    assert(self.view() =~= before.view().insert(k, v));
                }
            },
        }
    }

    /// The serial numbers that have a profile, each once.
    pub fn serial_numbers(&self) -> (res: Vec<String>)
        requires
            self.wf(),
        ensures
            res.deep_view().no_duplicates(),
            res.deep_view().to_set() == self.view().dom(),
    {
        let mut res: Vec<String> = Vec::new();
        let mut i: usize = 0;
        while i < self.serials.len()
            invariant
                i <= self.serials@.len(),
                res@.len() == i,
                forall|j: int| 0 <= j < i ==> #[trigger] res@[j]@ == self.serials@[j]@,
            decreases self.serials@.len() - i,
        {
            res.push(self.serials[i].clone());
            i = i + 1;
        }
        proof {
            assert forall|a: int, b: int|
                0 <= a < res@.len() && 0 <= b < res@.len() && a != b implies #[trigger] res@[a]@
                != #[trigger] res@[b]@ by {
                assert(res@[a]@ == self.serials@[a]@);
                assert(res@[b]@ == self.serials@[b]@);
            }
            assert forall|k: Seq<char>| #[trigger]
                serial_set(res@).contains(k) == self.view().dom().contains(k) by {
                if serial_set(res@).contains(k) {
                    let j = choose|j: int| 0 <= j < res@.len() && #[trigger] res@[j]@ == k;
                    assert(self.serials@[j]@ == k);
                }
                if self.view().dom().contains(k) {
                    let j = choose|j: int|
                        0 <= j < self.serials@.len() && #[trigger] self.serials@[j]@ == k;
                    assert(res@[j]@ == k);
                }
            }
            assert(serial_set(res@) =~= self.view().dom());
            lemma_deep_view_set(res@);
            assert(res.deep_view() =~= res@.map_values(|t: String| t@));
        }
        res
    }

    /// Gives a mouse seen for the first time a profile without macros;
    /// returns whether it did.
    pub fn insert_default_if_missing(&mut self, serial: &String) -> (res: bool)
        requires
            old(self).wf(),
        ensures
            final(self).wf(),
            res == !old(self).view().dom().contains(serial@),
            res ==> final(self).view() == old(self).view().insert(serial@, empty_profile()),
            !res ==> final(self).view() == old(self).view(),
    {
        if self.contains(serial) {
            false
        } else {
            self.insert(serial.clone(), ButtonConfigs::default());
            true
        }
    }
}

/// Law: a profile read after it was stored is the stored one, and storing
/// the profile of one mouse leaves the profiles of the others as they were.
pub proof fn lemma_profile_read_after_write(
    store: Map<Seq<char>, Seq<SpecButtonConfig>>,
    serial: Seq<char>,
    configs: Seq<SpecButtonConfig>,
    other: Seq<char>,
)
    requires
        other != serial,
    ensures
        store.insert(serial, configs).dom().contains(serial),
        store.insert(serial, configs)[serial] == configs,
        store.insert(serial, configs).dom().contains(other) == store.dom().contains(other),
        store.dom().contains(other) ==> store.insert(serial, configs)[other] == store[other],
{
}

} // verus!
