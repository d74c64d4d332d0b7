use vstd::prelude::*;

verus! {

/// The serial numbers of the mice that the driver is handling now, kept in
/// a `hashbrown` set.
#[verifier::external_body]
pub struct ConnectedDevices {
    set: hashbrown::HashSet<String>,
}

/// The serial numbers that the set holds.
pub uninterp spec fn connected_serials(d: ConnectedDevices) -> Set<Seq<char>>;

/// `hashbrown::HashSet::new`: an empty set.
#[verifier::external_body]
fn set_new() -> (res: ConnectedDevices)
    ensures
        connected_serials(res) == Set::<Seq<char>>::empty(),
{
    ConnectedDevices { set: hashbrown::HashSet::new() }
}

/// `hashbrown::HashSet::contains`: whether the set holds the text.
#[verifier::external_body]
fn set_contains(d: &ConnectedDevices, serial: &String) -> (res: bool)
    ensures
        res == connected_serials(*d).contains(serial@),
{
    d.set.contains(serial)
}

/// `hashbrown::HashSet::insert`: adds the text; returns whether the set did
/// not hold it.
#[verifier::external_body]
fn set_insert(d: &mut ConnectedDevices, serial: String) -> (res: bool)
    ensures
        res == !connected_serials(*old(d)).contains(serial@),
        connected_serials(*final(d)) == connected_serials(*old(d)).insert(serial@),
{
    d.set.insert(serial)
}

/// `hashbrown::HashSet::remove`: removes the text; returns whether the set
/// held it.
#[verifier::external_body]
fn set_remove(d: &mut ConnectedDevices, serial: &String) -> (res: bool)
    ensures
        res == connected_serials(*old(d)).contains(serial@),
        connected_serials(*final(d)) == connected_serials(*old(d)).remove(serial@),
{
    d.set.remove(serial)
}

/// `hashbrown::HashSet::iter`, each text copied: every text of the set
/// once, in the set's own order, which is left unsaid.
#[verifier::external_body]
fn set_items(d: &ConnectedDevices) -> (res: Vec<String>)
    ensures
        res.deep_view().no_duplicates(),
        res.deep_view().to_set() == connected_serials(*d),
{
    d.set.iter().cloned().collect()
}

impl ConnectedDevices {
    /// The serial numbers of the mice being handled.
    pub open spec fn view(&self) -> Set<Seq<char>> {
        connected_serials(*self)
    }

    /// No mouse is handled yet.
    pub fn new() -> (res: Self)
        ensures
            res.view() == Set::<Seq<char>>::empty(),
    {
        set_new()
    }

    /// Whether a mouse is being handled.
    pub fn contains(&self, serial: &String) -> (res: bool)
        ensures
            res == self.view().contains(serial@),
    {
        set_contains(self, serial)
    }

    /// Starts handling a mouse; returns whether it was not handled yet.
    pub fn insert(&mut self, serial: String) -> (res: bool)
        ensures
            res == !old(self).view().contains(serial@),
            final(self).view() == old(self).view().insert(serial@),
    {
        set_insert(self, serial)
    }

    /// Stops handling a mouse; returns whether it was handled.
    pub fn remove(&mut self, serial: &String) -> (res: bool)
        ensures
            res == old(self).view().contains(serial@),
            final(self).view() == old(self).view().remove(serial@),
    {
        set_remove(self, serial)
    }

    /// The serial numbers of the mice being handled, each once.
    pub fn serial_numbers(&self) -> (res: Vec<String>)
        ensures
            res.deep_view().no_duplicates(),
            res.deep_view().to_set() == self.view(),
            self.view().finite(),
            res@.len() == self.view().len(),
    {
        let res = set_items(self);
        proof {
            res.deep_view().unique_seq_to_set();
        }
        res
    }
}

} // verus!
