use vstd::prelude::*;

verus! {

/// The in-memory data model that records serialize into and deserialize
/// from: a tree of maps, sequences and primitive values. Keys are field
/// names; floating-point payloads are carried as their raw bit patterns so
/// that values stay comparable bit for bit.
pub enum NestedValue {
    /// A missing value, with the field name that originated it, if known.
    Default(Option<String>),
    /// A truth value.
    Bool(bool),
    /// A 16-bit signed integer.
    I16(i16),
    /// A 32-bit signed integer.
    I32(i32),
    /// A 64-bit signed integer.
    I64(i64),
    /// A 16-bit unsigned integer.
    U16(u16),
    /// A 64-bit unsigned integer.
    U64(u64),
    /// A 32-bit float, as its raw bits.
    F32(u32),
    /// A 64-bit float, as its raw bits.
    F64(u64),
    /// A string.
    Str(String),
    /// A map from field name to value, in insertion order.
    Entries(Vec<(String, NestedValue)>),
    /// A sequence of values.
    Items(Vec<NestedValue>),
}

impl NestedValue {
    /// The string payload, if this is a string.
    pub fn as_string(self) -> (r: Option<String>)
        ensures
            match self {
                NestedValue::Str(s) => r == Some(s),
                _ => r is None,
            },
    {
        match self {
            NestedValue::Str(s) => Some(s),
            _ => None,
        }
    }

    /// The 32-bit integer payload, if this holds one.
    pub fn as_i32(self) -> (r: Option<i32>)
        ensures
            match self {
                NestedValue::I32(v) => r == Some(v),
                _ => r is None,
            },
    {
        match self {
            NestedValue::I32(v) => Some(v),
            _ => None,
        }
    }

    /// The 64-bit integer payload, if this holds one.
    pub fn as_i64(self) -> (r: Option<i64>)
        ensures
            match self {
                NestedValue::I64(v) => r == Some(v),
                _ => r is None,
            },
    {
        match self {
            NestedValue::I64(v) => Some(v),
            _ => None,
        }
    }

    /// The truth payload, if this holds one.
    pub fn as_bool(self) -> (r: Option<bool>)
        ensures
            match self {
                NestedValue::Bool(v) => r == Some(v),
                _ => r is None,
            },
    {
        match self {
            NestedValue::Bool(v) => Some(v),
            _ => None,
        }
    }
}

/// What can go wrong while assembling or reading record values.
#[derive(Debug)]
pub enum Error {
    /// The serializer was asked to finish from a state it cannot finish
    /// from.
    InvalidState,
    /// Any other failure, described in words.
    Other(String),
}

/// Assembles one record value step by step: fields make a map, elements
/// make a sequence, and finishing hands the assembled value out. Starting
/// with fields commits the state to a map, starting with elements to a
/// sequence; the two cannot be mixed.
pub struct Serializer {
    state: Option<NestedValue>,
}

impl Serializer {
    /// The state assembled so far.
    pub closed spec fn state_view(&self) -> Option<NestedValue> {
        self.state
    }

    /// The serializer can accept a field: nothing assembled yet, or a map.
    pub open spec fn accepts_field(&self) -> bool {
        match self.state_view() {
            None => true,
            Some(NestedValue::Entries(_)) => true,
            _ => false,
        }
    }

    /// The serializer can accept an element: nothing assembled yet, or a
    /// sequence.
    pub open spec fn accepts_element(&self) -> bool {
        match self.state_view() {
            None => true,
            Some(NestedValue::Items(_)) => true,
            _ => false,
        }
    }

    /// Creates a new serializer.
    pub fn new() -> (r: Serializer)
        ensures
            r.state_view() is None,
    {
        Serializer { state: None }
    }

    /// Appends one named field to the map being assembled.
    pub fn serialize_field(&mut self, key: String, value: NestedValue)
        requires
            old(self).accepts_field(),
        ensures
            final(self).state_view() matches Some(v) && v matches NestedValue::Entries(entries)
                && entries@ =~= (match old(self).state_view() {
                Some(NestedValue::Entries(old_entries)) => old_entries@,
                _ => Seq::<(String, NestedValue)>::empty(),
            }).push((key, value)),
    {
        let state = self.state.take();
        match state {
            Some(NestedValue::Entries(mut entries)) => {
                entries.push((key, value));
                self.state = Some(NestedValue::Entries(entries));
            },
            _ => {
                let mut entries: Vec<(String, NestedValue)> = Vec::new();
                entries.push((key, value));
                self.state = Some(NestedValue::Entries(entries));
            },
        }
    }

    /// Appends one element to the sequence being assembled.
    pub fn serialize_element(&mut self, value: NestedValue)
        requires
            old(self).accepts_element(),
        ensures
            final(self).state_view() matches Some(v) && v matches NestedValue::Items(items)
                && items@ =~= (match old(self).state_view() {
                Some(NestedValue::Items(old_items)) => old_items@,
                _ => Seq::<NestedValue>::empty(),
            }).push(value),
    {
        let state = self.state.take();
        match state {
            Some(NestedValue::Items(mut items)) => {
                items.push(value);
                self.state = Some(NestedValue::Items(items));
            },
            _ => {
                let mut items: Vec<NestedValue> = Vec::new();
                items.push(value);
                self.state = Some(NestedValue::Items(items));
            },
        }
    }

    /// Finishes a map: the assembled map, or an empty one when no field
    /// ever arrived.
    pub fn end_struct(self) -> (r: Result<NestedValue, Error>)
        ensures
            match self.state_view() {
                None => r matches Ok(v) && v matches NestedValue::Entries(entries) && entries@
                    =~= Seq::<(String, NestedValue)>::empty(),
                Some(v) => r == Ok::<NestedValue, Error>(v),
            },
    {
        match self.state {
            None => Ok(NestedValue::Entries(Vec::new())),
            Some(v) => Ok(v),
        }
    }

    /// Finishes a sequence: the assembled sequence, or an empty one when no
    /// element ever arrived.
    pub fn end_seq(self) -> (r: Result<NestedValue, Error>)
        ensures
            match self.state_view() {
                None => r matches Ok(v) && v matches NestedValue::Items(items) && items@
                    =~= Seq::<NestedValue>::empty(),
                Some(v) => r == Ok::<NestedValue, Error>(v),
            },
    {
        match self.state {
            None => Ok(NestedValue::Items(Vec::new())),
            Some(v) => Ok(v),
        }
    }
}

/// Reads one record value back into structured data. It hands the held
/// value out piecewise; when asked to, missing map fields read as marked
/// defaults instead of failing.
pub struct Deserializer {
    value: Option<NestedValue>,
    default_for_missing_fields: bool,
}

impl Deserializer {
    /// The held value.
    pub closed spec fn value_view(&self) -> Option<NestedValue> {
        self.value
    }

    /// Whether missing map fields read as defaults.
    pub closed spec fn defaulting(&self) -> bool {
        self.default_for_missing_fields
    }

    /// Creates a new deserializer over the given value; when
    /// `default_for_missing_fields` is set, fields a record asks for that
    /// the value lacks read as marked defaults.
    pub fn new(value: NestedValue, default_for_missing_fields: bool) -> (r: Deserializer)
        ensures
            r.value_view() == Some(value),
            r.defaulting() == default_for_missing_fields,
    {
        Deserializer { value: Some(value), default_for_missing_fields }
    }

    /// Takes the held value out.
    pub fn into_value(self) -> (r: Option<NestedValue>)
        ensures
            r == self.value_view(),
    {
        self.value
    }
}

/// Whether a map holds an entry named `key`.
pub open spec fn map_has_key(entries: Seq<(String, NestedValue)>, key: Seq<char>) -> bool {
    exists|i: int| 0 <= i < entries.len() && entries[i].0@ == key
}

/// Fills every listed field that a map lacks with a default marked by the
/// field's own name, so that a record with more fields than the stored
/// value can still be read.
pub fn fill_missing_fields(entries: &mut Vec<(String, NestedValue)>, fields: &Vec<String>)
    ensures
        final(entries)@.len() >= old(entries)@.len(),
        forall|i: int|
            0 <= i < old(entries)@.len() ==> final(entries)@[i] == old(entries)@[i],
        forall|f: int|
            0 <= f < fields@.len() ==> map_has_key(final(entries)@, fields@[f]@),
{
    let mut f: usize = 0;
    while f < fields.len()
        invariant
            f <= fields@.len(),
            entries@.len() >= old(entries)@.len(),
            forall|i: int|
                0 <= i < old(entries)@.len() ==> entries@[i] == old(entries)@[i],
            forall|t: int| 0 <= t < f ==> map_has_key(entries@, fields@[t]@),
        decreases fields@.len() - f,
    {
        let name = &fields[f];
        let mut found = false;
        let mut i: usize = 0;
        while i < entries.len()
            invariant
                i <= entries@.len(),
                found ==> map_has_key(entries@, name@),
                !found ==> forall|t: int| 0 <= t < i ==> entries@[t].0@ != name@,
            decreases entries@.len() - i,
        {
            if str_eq(&entries[i].0, name) {
                found = true;
            }
            i = i + 1;
        }
        if !found {
            let ghost before = entries@;
            entries.push((clone_string(name), NestedValue::Default(Some(clone_string(name)))));
            proof {
                assert(entries@[before.len() as int].0@ == name@);
                assert(map_has_key(entries@, name@));
                assert forall|t: int| 0 <= t < f && map_has_key(before, fields@[t]@) implies
                    map_has_key(entries@, fields@[t]@) by {
                    let w = choose|w: int| 0 <= w < before.len() && before[w].0@ == fields@[t]@;
                    assert(entries@[w].0@ == fields@[t]@);
                }
            }
        }
        f = f + 1;
    }
}

/// Whether two strings hold the same characters.
fn str_eq(a: &String, b: &String) -> (r: bool)
    ensures
        r == (a@ == b@),
{
    let x: &str = a.as_str();
    let y: &str = b.as_str();
    let ab = x.as_bytes();
    let bb = y.as_bytes();
    proof {
        vstd::utf8::encode_utf8_decode_utf8(x@);
        vstd::utf8::encode_utf8_decode_utf8(y@);
    }
    if ab.len() != bb.len() {
        return false;
    }
    let mut i: usize = 0;
    while i < ab.len()
        invariant
            i <= ab@.len(),
            ab@.len() == bb@.len(),
            ab@ == vstd::utf8::encode_utf8(x@),
            bb@ == vstd::utf8::encode_utf8(y@),
            x@ == a@,
            y@ == b@,
            vstd::utf8::decode_utf8(vstd::utf8::encode_utf8(x@)) == x@,
            vstd::utf8::decode_utf8(vstd::utf8::encode_utf8(y@)) == y@,
            forall|j: int| 0 <= j < i ==> ab@[j] == bb@[j],
        decreases ab@.len() - i,
    {
        if ab[i] != bb[i] {
            return false;
        }
        i = i + 1;
    }
    proof {
        assert(ab@ =~= bb@);
    }
    true
}

/// An identical copy of a string.
fn clone_string(s: &String) -> (r: String)
    ensures
        r@ == s@,
{
    s.clone()
}

/// Reads elements for a sequence the stored value lacks: a sized request
/// yields that many defaults, an unsized one yields none.
pub struct DefaultSeqAccess {
    size: Option<usize>,
}

impl DefaultSeqAccess {
    /// The elements still owed.
    pub closed spec fn size_view(&self) -> Option<usize> {
        self.size
    }

    /// Creates a new default sequence access with the given size hint.
    pub fn new(size: Option<usize>) -> (r: DefaultSeqAccess)
        ensures
            r.size_view() == size,
    {
        DefaultSeqAccess { size }
    }

    /// Whether another default element is owed; when one is, it is counted
    /// off.
    pub fn next_element(&mut self) -> (r: bool)
        ensures
            match old(self).size_view() {
                Some(s) => if s > 0 {
                    r && final(self).size_view() == Some((s - 1) as usize)
                } else {
                    !r && final(self).size_view() == Some(s)
                },
                None => !r && final(self).size_view() is None,
            },
    {
        match self.size {
            Some(0) => false,
            Some(s) => {
                self.size = Some(s - 1);
                true
            },
            None => false,
        }
    }

    /// The number of elements still owed, when known.
    pub fn size_hint(&self) -> (r: Option<usize>)
        ensures
            r == self.size_view(),
    {
        self.size
    }
}

/// Reads entries for a map the stored value lacks: there are none.
pub struct DefaultMapAccess;

impl DefaultMapAccess {
    /// Creates a new default map access.
    pub fn new() -> (r: DefaultMapAccess) {
        DefaultMapAccess
    }

    /// Whether another entry follows: never.
    pub fn next_key(&self) -> (r: bool)
        ensures
            !r,
    {
        false
    }

    /// The number of entries, which is unknown.
    pub fn size_hint(&self) -> (r: Option<usize>)
        ensures
            r is None,
    {
        None
    }
}

} // verus!
