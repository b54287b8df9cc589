//! Devices and their attributes.

use crate::text::same_text;
use vstd::prelude::*;

verus! {

/// The characters of each pair of texts, in order.
pub open spec fn pairs_view(pairs: Seq<(String, String)>) -> Seq<(Seq<char>, Seq<char>)> {
    Seq::new(pairs.len(), |i: int| (pairs[i].0@, pairs[i].1@))
}

/// The mapping that results from writing `changes` into `base` one after the
/// other: for each name the last value written counts.
pub open spec fn merged(base: Map<Seq<char>, Seq<char>>, changes: Seq<(Seq<char>, Seq<char>)>) -> Map<
    Seq<char>,
    Seq<char>,
>
    decreases changes.len(),
{
    if changes.len() == 0 {
        base
    } else {
        merged(base, changes.drop_last()).insert(changes.last().0, changes.last().1)
    }
}

/// The value that `changes` writes last under `name`.
pub open spec fn last_written(changes: Seq<(Seq<char>, Seq<char>)>, name: Seq<char>) -> Option<
    Seq<char>,
>
    decreases changes.len(),
{
    if changes.len() == 0 {
        None
    } else if changes.last().0 == name {
        Some(changes.last().1)
    } else {
        last_written(changes.drop_last(), name)
    }
}

/// No two of the pairs have the same name.
pub open spec fn distinct_names(pairs: Seq<(Seq<char>, Seq<char>)>) -> bool {
    forall|i: int, j: int| 0 <= i < j < pairs.len() ==> pairs[i].0 != pairs[j].0
}

/// After a run of writes a name holds what was written to it last, or what
/// it held before where nothing was written to it.
pub proof fn lemma_merged_entry(
    base: Map<Seq<char>, Seq<char>>,
    changes: Seq<(Seq<char>, Seq<char>)>,
    name: Seq<char>,
)
    ensures
        merged(base, changes).contains_key(name) <==> last_written(changes, name) is Some
            || base.contains_key(name),
        last_written(changes, name) matches Some(value) ==> merged(base, changes)[name] == value,
        last_written(changes, name) is None ==> merged(base, changes)[name] == base[name],
    decreases changes.len(),
{
    if changes.len() > 0 {
        lemma_merged_entry(base, changes.drop_last(), name);
    }
}

/// One more write at the end of a run is one more insertion.
pub proof fn lemma_merged_push(
    base: Map<Seq<char>, Seq<char>>,
    changes: Seq<(Seq<char>, Seq<char>)>,
    change: (Seq<char>, Seq<char>),
)
    ensures
        merged(base, changes.push(change)) == merged(base, changes).insert(change.0, change.1),
{
    assert(changes.push(change).drop_last() =~= changes);
}

/// Writing one run and then another is writing the two runs joined.
pub proof fn lemma_merged_concat(
    base: Map<Seq<char>, Seq<char>>,
    first: Seq<(Seq<char>, Seq<char>)>,
    second: Seq<(Seq<char>, Seq<char>)>,
)
    ensures
        merged(merged(base, first), second) == merged(base, first + second),
    decreases second.len(),
{
    if second.len() == 0 {
        assert(first + second =~= first);
    } else {
        lemma_merged_concat(base, first, second.drop_last());
        assert((first + second).drop_last() =~= first + second.drop_last());
    }
}

/// Where no name occurs twice, replacing the value of one pair is one
/// insertion under its name.
proof fn lemma_merged_replace(pairs: Seq<(Seq<char>, Seq<char>)>, at: int, value: Seq<char>)
    requires
        0 <= at < pairs.len(),
        distinct_names(pairs),
    ensures
        merged(Map::empty(), pairs.update(at, (pairs[at].0, value))) == merged(
            Map::empty(),
            pairs,
        ).insert(pairs[at].0, value),
    decreases pairs.len(),
{
    let changed = pairs.update(at, (pairs[at].0, value));
    if at == pairs.len() - 1 {
        assert(changed.drop_last() =~= pairs.drop_last());
        assert(merged(Map::empty(), changed) =~= merged(Map::empty(), pairs).insert(
            pairs[at].0,
            value,
        ));
    } else {
        let front = pairs.drop_last();
        assert(distinct_names(front));
        lemma_merged_replace(front, at, value);
        assert(changed.drop_last() =~= front.update(at, (pairs[at].0, value)));
        assert(pairs.last().0 != pairs[at].0);
        assert(merged(Map::empty(), changed) =~= merged(Map::empty(), pairs).insert(
            pairs[at].0,
            value,
        ));
    }
}

/// The attributes of a device: string values under string names, each name
/// once.
#[derive(Debug)]
pub struct Attributes {
    entries: Vec<(String, String)>,
}

impl View for Attributes {
    type V = Map<Seq<char>, Seq<char>>;

    closed spec fn view(&self) -> Map<Seq<char>, Seq<char>> {
        merged(Map::empty(), pairs_view(self.entries@))
    }
}

impl Clone for Attributes {
    fn clone(&self) -> (copy: Attributes)
        ensures
            copy@ == self@,
    {
        proof {
            use_type_invariant(self);
        }
        let mut entries: Vec<(String, String)> = Vec::new();
        let mut i: usize = 0;
        while i < self.entries.len()
            invariant
                i <= self.entries@.len(),
                entries@.len() == i,
                pairs_view(entries@) == pairs_view(self.entries@).take(i as int),
            decreases self.entries@.len() - i,
        {
            let ghost before = entries@;
            entries.push((self.entries[i].0.clone(), self.entries[i].1.clone()));
            assert forall|j: int| 0 <= j < i + 1 implies pairs_view(entries@)[j] == pairs_view(
                self.entries@,
            )[j] by {
                if j < i {
                    assert(pairs_view(before)[j] == pairs_view(self.entries@).take(i as int)[j]);
                }
            }
            assert(pairs_view(entries@) =~= pairs_view(self.entries@).take(i + 1));
            i = i + 1;
        }
        assert(pairs_view(entries@) =~= pairs_view(self.entries@));
        Attributes { entries }
    }
}

impl Attributes {
    #[verifier::type_invariant]
    spec fn names_are_distinct(self) -> bool {
        distinct_names(pairs_view(self.entries@))
    }

    /// No attributes.
    pub fn new() -> (attributes: Attributes)
        ensures
            attributes@ == Map::<Seq<char>, Seq<char>>::empty(),
    {
        let attributes = Attributes { entries: Vec::new() };
        assert(pairs_view(attributes.entries@) =~= Seq::empty());
        attributes
    }

    /// The position of the attribute `name`.
    fn position(&self, name: &str) -> (at: Option<usize>)
        ensures
            match at {
                Some(i) => i < self.entries@.len() && self.entries@[i as int].0@ == name@,
                None => forall|i: int|
                    0 <= i < self.entries@.len() ==> (#[trigger] self.entries@[i]).0@ != name@,
            },
    {
        let mut i: usize = 0;
        while i < self.entries.len()
            invariant
                i <= self.entries@.len(),
                forall|j: int| 0 <= j < i ==> (#[trigger] self.entries@[j]).0@ != name@,
            decreases self.entries@.len() - i,
        {
            if same_text(self.entries[i].0.as_str(), name) {
                return Some(i);
            }
            i = i + 1;
        }
        None
    }

    /// The value of the attribute `name`.
    pub fn get(&self, name: &str) -> (value: Option<&str>)
        ensures
            match value {
                Some(v) => self@.contains_key(name@) && self@[name@] == v@,
                None => !self@.contains_key(name@),
            },
    {
        let ghost pairs = pairs_view(self.entries@);
        proof {
            use_type_invariant(self);
            lemma_merged_entry(Map::empty(), pairs, name@);
        }
        match self.position(name) {
            Some(i) => {
                proof {
                    lemma_last_written_at(pairs, i as int);
                }
                Some(self.entries[i].1.as_str())
            },
            None => {
                proof {
                    lemma_last_written_none(pairs, name@);
                }
                None
            },
        }
    }

    /// Writes `value` under `name`, over what was there.
    pub fn insert(&mut self, name: String, value: String)
        ensures
            final(self)@ == old(self)@.insert(name@, value@),
    {
        let ghost pairs = pairs_view(self.entries@);
        proof {
            use_type_invariant(&*self);
        }
        let at = self.position(name.as_str());
        let mut entries: Vec<(String, String)> = Vec::new();
        assert(pairs_view(entries@) =~= Seq::empty());
        core::mem::swap(&mut self.entries, &mut entries);
        match at {
            Some(i) => {
                proof {
                    lemma_merged_replace(pairs, i as int, value@);
                }
                entries.set(i, (name, value));
                assert(pairs_view(entries@) =~= pairs.update(i as int, (pairs[i as int].0, value@)));
            },
            None => {
                proof {
                    lemma_merged_push(Map::empty(), pairs, (name@, value@));
                }
                entries.push((name, value));
                assert(pairs_view(entries@) =~= pairs.push((name@, value@)));
            },
        }
        core::mem::swap(&mut self.entries, &mut entries);
    }

    /// Writes the changes one after the other.
    pub fn merge(&mut self, changes: &Vec<(String, String)>)
        ensures
            final(self)@ == merged(old(self)@, pairs_view(changes@)),
    {
        let ghost all = pairs_view(changes@);
        let mut i: usize = 0;
        while i < changes.len()
            invariant
                i <= changes@.len(),
                all == pairs_view(changes@),
                self@ == merged(old(self)@, all.take(i as int)),
            decreases changes@.len() - i,
        {
            proof {
                lemma_merged_push(old(self)@, all.take(i as int), all[i as int]);
                assert(all.take(i as int).push(all[i as int]) =~= all.take(i + 1));
            }
            self.insert(changes[i].0.clone(), changes[i].1.clone());
            i = i + 1;
        }
        assert(all.take(i as int) =~= all);
    }

    /// The attributes as pairs of name and value, each name once.
    pub fn pairs(&self) -> (pairs: &Vec<(String, String)>)
        ensures
            distinct_names(pairs_view(pairs@)),
            self@ == merged(Map::empty(), pairs_view(pairs@)),
    {
        proof {
            use_type_invariant(self);
        }
        &self.entries
    }
}

/// A device registered to the account.
#[derive(Debug)]
pub struct Device {
    pub category: String,
    /// The identifier of the device, by which its topics are named.
    pub mac: String,
    pub type_code: String,
    pub attributes: Attributes,
}

/// What a [`Device`] stands for.
pub struct DeviceModel {
    pub category: Seq<char>,
    pub mac: Seq<char>,
    pub type_code: Seq<char>,
    pub attributes: Map<Seq<char>, Seq<char>>,
}

impl View for Device {
    type V = DeviceModel;

    open spec fn view(&self) -> DeviceModel {
        DeviceModel {
            category: self.category@,
            mac: self.mac@,
            type_code: self.type_code@,
            attributes: self.attributes@,
        }
    }
}

impl Clone for Device {
    fn clone(&self) -> (copy: Device)
        ensures
            copy@ == self@,
    {
        Device {
            category: self.category.clone(),
            mac: self.mac.clone(),
            type_code: self.type_code.clone(),
            attributes: self.attributes.clone(),
        }
    }
}

impl Device {
    /// Get an attribute on the device.
    pub fn get_attribute(&self, attribute: &str) -> (value: Option<&str>)
        ensures
            match value {
                Some(v) => self@.attributes.contains_key(attribute@) && self@.attributes[attribute@]
                    == v@,
                None => !self@.attributes.contains_key(attribute@),
            },
    {
        self.attributes.get(attribute)
    }

    /// Get an attribute on the device, or fallback to a default.
    pub fn get_attribute_or<'a>(&'a self, attribute: &str, default: &'a str) -> (value: &'a str)
        ensures
            value@ == if self@.attributes.contains_key(attribute@) {
                self@.attributes[attribute@]
            } else {
                default@
            },
    {
        match self.attributes.get(attribute) {
            Some(value) => value,
            None => default,
        }
    }
}

/// What names a device: a device record, or the text of its identifier.
pub trait AsDeviceMac {
    /// The identifier named.
    spec fn device_mac(&self) -> Seq<char>;

    fn as_device_mac(&self) -> (mac: &str)
        ensures
            mac@ == self.device_mac(),
    ;
}

impl AsDeviceMac for Device {
    open spec fn device_mac(&self) -> Seq<char> {
        self.mac@
    }

    fn as_device_mac(&self) -> (mac: &str) {
        self.mac.as_str()
    }
}

impl AsDeviceMac for &Device {
    open spec fn device_mac(&self) -> Seq<char> {
        self.mac@
    }

    fn as_device_mac(&self) -> (mac: &str) {
        self.mac.as_str()
    }
}

impl AsDeviceMac for &mut Device {
    open spec fn device_mac(&self) -> Seq<char> {
        self.mac@
    }

    fn as_device_mac(&self) -> (mac: &str) {
        self.mac.as_str()
    }
}

impl AsDeviceMac for String {
    open spec fn device_mac(&self) -> Seq<char> {
        self@
    }

    fn as_device_mac(&self) -> (mac: &str) {
        self.as_str()
    }
}

impl AsDeviceMac for &String {
    open spec fn device_mac(&self) -> Seq<char> {
        self@
    }

    fn as_device_mac(&self) -> (mac: &str) {
        self.as_str()
    }
}

impl AsDeviceMac for &str {
    open spec fn device_mac(&self) -> Seq<char> {
        self@
    }

    fn as_device_mac(&self) -> (mac: &str) {
        *self
    }
}

/// A pair is what is written last under its name where no later pair has
/// that name.
proof fn lemma_last_written_at(pairs: Seq<(Seq<char>, Seq<char>)>, at: int)
    requires
        0 <= at < pairs.len(),
        distinct_names(pairs),
    ensures
        last_written(pairs, pairs[at].0) == Some(pairs[at].1),
    decreases pairs.len(),
{
    if at < pairs.len() - 1 {
        assert(distinct_names(pairs.drop_last()));
        lemma_last_written_at(pairs.drop_last(), at);
    }
}

/// Nothing is written under a name that no pair has.
proof fn lemma_last_written_none(pairs: Seq<(Seq<char>, Seq<char>)>, name: Seq<char>)
    requires
        forall|i: int| 0 <= i < pairs.len() ==> (#[trigger] pairs[i]).0 != name,
    ensures
        last_written(pairs, name) is None,
    decreases pairs.len(),
{
    if pairs.len() > 0 {
        lemma_last_written_none(pairs.drop_last(), name);
    }
}

} // verus!
