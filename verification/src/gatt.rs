//! Decoded views of a GATT characteristic exposed by the daemon.
//!
//! The transport fetches raw property values from the bus; the methods
//! here turn those raw values into the characteristic's typed
//! properties. The caller is expected to hand in the value fetched for
//! the matching property name.

use vstd::prelude::*;

verus! {

/// One element of a raw array-valued property.
#[derive(Clone, Debug)]
pub enum PropertyItem {
    /// A single byte.
    Byte(u8),
    /// A text element.
    Text(String),
}

/// A raw property value as it arrives from the bus, already freed of
/// its transport framing.
#[derive(Clone, Debug)]
pub enum PropertyValue {
    /// A text value.
    Str(String),
    /// A boolean value.
    Bool(bool),
    /// An array of elements.
    Items(Vec<PropertyItem>),
}

/// A GATT characteristic of a remote device, identified by its object
/// path on the bus.
#[derive(Clone, Debug)]
pub struct BluetoothGATTCharacteristic {
    object_path: String,
}

impl View for BluetoothGATTCharacteristic {
    type V = Seq<char>;

    closed spec fn view(&self) -> Seq<char> {
        self.object_path@
    }
}

/// The predicate picking the listing entries that belong to the
/// characteristic at `path`.
pub open spec fn belongs_to(path: Seq<char>) -> spec_fn((String, String)) -> bool {
    |e: (String, String)| e.1@ == path
}

/// The object path of a listing entry's descriptor.
pub open spec fn first_path() -> spec_fn((String, String)) -> Seq<char> {
    |e: (String, String)| e.0@
}

/// The object paths of the descriptors that a listing attributes to
/// the characteristic at `path`, in listing order.
pub open spec fn descriptors_of(listing: Seq<(String, String)>, path: Seq<char>) -> Seq<
    Seq<char>,
> {
    listing.filter(belongs_to(path)).map_values(first_path())
}

/// True when every element is a byte.
pub open spec fn all_bytes(items: Seq<PropertyItem>) -> bool {
    forall|i: int| 0 <= i < items.len() ==> items[i] is Byte
}

/// True when every element is text.
pub open spec fn all_text(items: Seq<PropertyItem>) -> bool {
    forall|i: int| 0 <= i < items.len() ==> items[i] is Text
}

impl BluetoothGATTCharacteristic {
    /// A characteristic living at the given object path.
    pub fn new(object_path: String) -> (r: Self)
        ensures
            r@ == object_path@,
    {
        BluetoothGATTCharacteristic { object_path }
    }

    /// The characteristic's identifier: its object path.
    pub fn get_id(&self) -> (r: String)
        ensures
            r@ == self@,
    {
        self.object_path.clone()
    }

    /// The UUID of the characteristic, from the fetched `UUID`
    /// property value.
    pub fn get_uuid(&self, value: &PropertyValue) -> (r: String)
        requires
            value is Str,
        ensures
            r@ == value->Str_0@,
    {
        match value {
            PropertyValue::Str(s) => s.clone(),
            _ => unreached(),
        }
    }

    /// The object path of the service this characteristic belongs to,
    /// from the fetched `Service` property value.
    pub fn get_service(&self, value: &PropertyValue) -> (r: String)
        requires
            value is Str,
        ensures
            r@ == value->Str_0@,
    {
        match value {
            PropertyValue::Str(s) => s.clone(),
            _ => unreached(),
        }
    }

    /// Whether notifications are on, from the fetched `Notifying`
    /// property value.
    pub fn is_notifying(&self, value: &PropertyValue) -> (r: bool)
        requires
            value is Bool,
        ensures
            r == value->Bool_0,
    {
        match value {
            PropertyValue::Bool(b) => *b,
            _ => unreached(),
        }
    }

    /// The cached value of the characteristic, from the fetched
    /// `Value` property: one byte per array element.
    pub fn get_value(&self, value: &PropertyValue) -> (r: Vec<u8>)
        requires
            value is Items,
            all_bytes(value->Items_0@),
        ensures
            r@.len() == value->Items_0@.len(),
            forall|i: int| 0 <= i < r@.len() ==> r@[i] == value->Items_0@[i]->Byte_0,
    {
        let items = match value {
            PropertyValue::Items(items) => items,
            _ => unreached(),
        };
        let mut v: Vec<u8> = Vec::new();
        let mut i: usize = 0;
        while i < items.len()
            invariant
                0 <= i <= items@.len(),
                all_bytes(items@),
                v@.len() == i,
                forall|j: int| 0 <= j < i ==> v@[j] == items@[j]->Byte_0,
            decreases items@.len() - i,
        {
            match &items[i] {
                PropertyItem::Byte(b) => v.push(*b),
                _ => unreached(),
            }
            i = i + 1;
        }
        v
    }

    /// The capability flags of the characteristic, from the fetched
    /// `Flags` property: one text element per flag.
    pub fn get_flags(&self, value: &PropertyValue) -> (r: Vec<String>)
        requires
            value is Items,
            all_text(value->Items_0@),
        ensures
            r@.len() == value->Items_0@.len(),
            forall|i: int| 0 <= i < r@.len() ==> r@[i]@ == value->Items_0@[i]->Text_0@,
    {
        let items = match value {
            PropertyValue::Items(items) => items,
            _ => unreached(),
        };
        let mut v: Vec<String> = Vec::new();
        let mut i: usize = 0;
        while i < items.len()
            invariant
                0 <= i <= items@.len(),
                all_text(items@),
                v@.len() == i,
                forall|j: int| 0 <= j < i ==> v@[j]@ == items@[j]->Text_0@,
            decreases items@.len() - i,
        {
            match &items[i] {
                PropertyItem::Text(s) => v.push(s.clone()),
                _ => unreached(),
            }
            i = i + 1;
        }
        v
    }

    /// The descriptors that belong to this characteristic, picked out
    /// of the daemon's listing of descriptor objects. Each entry pairs
    /// a descriptor's object path with the object path of the
    /// characteristic it belongs to.
    pub fn get_gatt_descriptors(&self, listing: &Vec<(String, String)>) -> (r: Vec<String>)
        ensures
            r.deep_view() =~= descriptors_of(listing@, self@),
    {
        let ghost pred = belongs_to(self@);
        let mut v: Vec<String> = Vec::new();
        let mut i: usize = 0;
        proof {
            reveal(Seq::filter);
            assert(listing@.subrange(0, 0) =~= Seq::<(String, String)>::empty());
            assert(listing@.subrange(0, 0).filter(pred) =~= Seq::<(String, String)>::empty());
        }
        while i < listing.len()
            invariant
                0 <= i <= listing@.len(),
                v.deep_view() =~= descriptors_of(listing@.subrange(0, i as int), self@),
            decreases listing@.len() - i,
        {
            let ghost pre = listing@.subrange(0, i as int);
            let hit = listing[i].1 == self.object_path;
            if hit {
                let d = listing[i].0.clone();
                v.push(d);
            }
            proof {
                reveal(Seq::filter);
                let pred = belongs_to(self@);
                let post = listing@.subrange(0, i + 1);
                assert(post.drop_last() =~= pre);
                assert(post.last() == listing@[i as int]);
                if pred(listing@[i as int]) {
                    assert(post.filter(pred) =~= pre.filter(pred).push(listing@[i as int]));
                    pre.filter(pred).lemma_push_map_commute(first_path(), listing@[i as int]);
                    assert(first_path()(listing@[i as int]) == listing@[i as int].0@);
                    assert(descriptors_of(post, self@) =~= descriptors_of(pre, self@).push(
                        listing@[i as int].0@,
                    ));
                } else {
                    assert(post.filter(pred) =~= pre.filter(pred));
                    assert(descriptors_of(post, self@) =~= descriptors_of(pre, self@));
                }
            }
            i = i + 1;
        }
        proof {
            assert(listing@.subrange(0, listing@.len() as int) =~= listing@);
        }
        v
    }
}

} // verus!
