//! Opaque result handles for a foreign caller.
//!
//! Core results that are too rich to pass by value (collections, chat
//! summaries) are kept in a handle table and referred to by an integer
//! handle. The caller queries them through typed accessors and releases each
//! handle exactly once. Handles are never reused: a released slot stays
//! released for the lifetime of the table, so use-after-release is a defined
//! failure rather than undefined behavior. Double release is a hard failure
//! here (it reports [`ErrorKind::UseAfterRelease`]), never a silent no-op, so
//! ownership defects surface in testing.

use vstd::prelude::*;

use crate::errors::ErrorKind;

verus! {

/// The elements of a wrapped collection, by declared kind.
///
/// An accessor of one kind asked of a collection of another kind fails with
/// [`ErrorKind::TypeMismatch`]. Coordinate collections are not representable
/// here: they carry floating-point values, which stay with the caller.
pub enum Elems {
    /// Unsigned object ids (chat, contact or message ids).
    Ids(Vec<u32>),
    /// Signed timestamps.
    Timestamps(Vec<i64>),
    /// String markers.
    Markers(Vec<String>),
}

/// A wrapped homogeneous collection.
pub struct ArrayData {
    /// Whether the collection declared itself sorted when it was wrapped.
    /// A sorted collection is searched by binary search; only id
    /// collections may declare themselves sorted, and the table's
    /// well-formedness keeps their elements in ascending order.
    pub sorted: bool,
    pub elems: Elems,
}

/// A chat summary, as the core produced it for one chat list entry.
pub struct SummaryData {
    pub text1: String,
    pub text2: String,
    pub timestamp: i64,
    pub state: u32,
}

/// One entry of a wrapped chat list: the chat, its newest message, and the
/// summary the core computed for the pair. The summary is an independent
/// record, not a second owner of the chat.
pub struct ChatListItem {
    pub chat_id: u32,
    pub msg_id: u32,
    pub summary: SummaryData,
}

/// A chat record, as the core produced it.
pub struct ChatData {
    pub id: u32,
    pub chat_type: u32,
    pub name: String,
    pub subtitle: String,
    /// Path of the avatar image, if the chat has one.
    pub profile_image: Option<String>,
    /// 0 = normal, 1 = archived, 2 = pinned.
    pub visibility: u32,
    pub color: u32,
    pub unpromoted: bool,
    pub self_talk: bool,
    pub verified: bool,
    pub sending_locations: bool,
}

/// What a live handle refers to.
pub enum Object {
    Array(ArrayData),
    ChatList(Vec<ChatListItem>),
    Chat(ChatData),
    Summary(SummaryData),
}

/// One slot of the handle table. `Released` is terminal.
pub enum Slot {
    Live(Object),
    Released,
}

/// The handle table. A handle is an index into the table; slots are only
/// appended or moved from `Live` to `Released`, never removed or reused.
pub struct Bridge {
    slots: Vec<Slot>,
}

/// Ascending order of id elements, as binary search needs it.
pub open spec fn sorted_ids(s: Seq<u32>) -> bool {
    forall|i: int, j: int| 0 <= i <= j < s.len() ==> s[i] <= s[j]
}

/// A slot keeps the promise its collection made at wrap time: a collection
/// that declared itself sorted is an id collection in ascending order.
pub open spec fn slot_inv(s: Slot) -> bool {
    match s {
        Slot::Live(Object::Array(a)) => a.sorted ==> a.elems is Ids && sorted_ids(
            a.elems->Ids_0@,
        ),
        _ => true,
    }
}

/// Linear search: the first index holding `needle`, or the definite
/// not-found signal `None`.
fn search_linear(items: &Vec<u32>, needle: u32) -> (r: Option<usize>)
    ensures
        match r {
            Some(i) => i < items.len() && items[i as int] == needle && forall|j: int|
                0 <= j < i ==> items[j] != needle,
            None => forall|j: int| 0 <= j < items.len() ==> items[j] != needle,
        },
{
    let mut i: usize = 0;
    while i < items.len()
        invariant
            i <= items.len(),
            forall|j: int| 0 <= j < i ==> items[j] != needle,
        decreases items.len() - i,
    {
        if items[i] == needle {
            return Some(i);
        }
        i = i + 1;
    }
    None
}

/// Binary search over an ascending collection: some index holding `needle`,
/// or the definite not-found signal `None`.
fn search_sorted(items: &Vec<u32>, needle: u32) -> (r: Option<usize>)
    requires
        sorted_ids(items@),
    ensures
        match r {
            Some(i) => i < items.len() && items[i as int] == needle,
            None => forall|j: int| 0 <= j < items.len() ==> items[j] != needle,
        },
{
    let mut lo: usize = 0;
    let mut hi: usize = items.len();
    while lo < hi
        invariant
            lo <= hi <= items.len(),
            sorted_ids(items@),
            forall|j: int| 0 <= j < lo ==> items[j] < needle,
            forall|j: int| hi <= j < items.len() ==> items[j] > needle,
        decreases hi - lo,
    {
        let mid = lo + (hi - lo) / 2;
        if items[mid] == needle {
            return Some(mid);
        } else if items[mid] < needle {
            lo = mid + 1;
        } else {
            hi = mid;
        }
    }
    None
}

impl Bridge {
    /// The table of slots, in allocation order.
    pub closed spec fn table(self) -> Seq<Slot> {
        self.slots@
    }

    /// Whether `h` was ever allocated and not yet released.
    pub open spec fn is_live(self, h: usize) -> bool {
        h < self.table().len() && self.table()[h as int] is Live
    }

    /// The object a live handle refers to.
    pub open spec fn object_of(self, h: usize) -> Object
        recommends
            self.is_live(h),
    {
        self.table()[h as int]->Live_0
    }

    pub open spec fn wf(self) -> bool {
        forall|i: int| 0 <= i < self.table().len() ==> slot_inv(#[trigger] self.table()[i])
    }

    /// An empty table: no handle was ever issued.
    pub fn new() -> (r: Bridge)
        ensures
            r.table() == Seq::<Slot>::empty(),
            r.wf(),
    {
        Bridge { slots: Vec::new() }
    }

    /// Appends a live slot and hands out its index as a fresh handle.
    fn new_slot(&mut self, obj: Object) -> (h: usize)
        requires
            slot_inv(Slot::Live(obj)),
            old(self).wf(),
        ensures
            final(self).table() == old(self).table().push(Slot::Live(obj)),
            h == old(self).table().len(),
            final(self).wf(),
    {
        let h = self.slots.len();
        self.slots.push(Slot::Live(obj));
        h
    }

    /// Wraps a collection of ids. `sorted` declares the collection sorted,
    /// which later directs `search_id` to binary search; the caller vouches
    /// for the order, so it is required here.
    pub fn wrap_ids(&mut self, items: Vec<u32>, sorted: bool) -> (h: usize)
        requires
            old(self).wf(),
            sorted ==> sorted_ids(items@),
        ensures
            final(self).table() == old(self).table().push(
                Slot::Live(Object::Array(ArrayData { sorted, elems: Elems::Ids(items) })),
            ),
            h == old(self).table().len(),
            final(self).is_live(h),
            final(self).wf(),
    {
        self.new_slot(Object::Array(ArrayData { sorted, elems: Elems::Ids(items) }))
    }

    /// Wraps a collection of timestamps.
    pub fn wrap_timestamps(&mut self, items: Vec<i64>) -> (h: usize)
        requires
            old(self).wf(),
        ensures
            final(self).table() == old(self).table().push(
                Slot::Live(Object::Array(ArrayData { sorted: false, elems: Elems::Timestamps(items) })),
            ),
            h == old(self).table().len(),
            final(self).is_live(h),
            final(self).wf(),
    {
        self.new_slot(Object::Array(ArrayData { sorted: false, elems: Elems::Timestamps(items) }))
    }

    /// Wraps a collection of string markers.
    pub fn wrap_markers(&mut self, items: Vec<String>) -> (h: usize)
        requires
            old(self).wf(),
        ensures
            final(self).table() == old(self).table().push(
                Slot::Live(Object::Array(ArrayData { sorted: false, elems: Elems::Markers(items) })),
            ),
            h == old(self).table().len(),
            final(self).is_live(h),
            final(self).wf(),
    {
        self.new_slot(Object::Array(ArrayData { sorted: false, elems: Elems::Markers(items) }))
    }

    /// Wraps a chat list the core produced.
    pub fn wrap_chatlist(&mut self, items: Vec<ChatListItem>) -> (h: usize)
        requires
            old(self).wf(),
        ensures
            final(self).table() == old(self).table().push(Slot::Live(Object::ChatList(items))),
            h == old(self).table().len(),
            final(self).is_live(h),
            final(self).wf(),
    {
        self.new_slot(Object::ChatList(items))
    }

    /// Wraps a chat record the core produced.
    pub fn wrap_chat(&mut self, chat: ChatData) -> (h: usize)
        requires
            old(self).wf(),
        ensures
            final(self).table() == old(self).table().push(Slot::Live(Object::Chat(chat))),
            h == old(self).table().len(),
            final(self).is_live(h),
            final(self).wf(),
    {
        self.new_slot(Object::Chat(chat))
    }

    /// What `length` must report for `h`: the element count of a live
    /// collection, `UseAfterRelease` for a dead handle, `TypeMismatch` for a
    /// live object that is not a collection.
    pub open spec fn spec_length(self, h: usize) -> Result<usize, ErrorKind> {
        if !self.is_live(h) {
            Err(ErrorKind::UseAfterRelease)
        } else {
            match self.object_of(h) {
                Object::Array(a) => match a.elems {
                    Elems::Ids(items) => Ok(items.len()),
                    Elems::Timestamps(items) => Ok(items.len()),
                    Elems::Markers(items) => Ok(items.len()),
                },
                Object::ChatList(items) => Ok(items.len()),
                _ => Err(ErrorKind::TypeMismatch),
            }
        }
    }

    /// The element count of a wrapped collection (id, timestamp or marker
    /// array, or chat list). Zero for an empty collection; a dead handle
    /// fails with `UseAfterRelease`, a non-collection with `TypeMismatch`.
    pub fn length(&self, h: usize) -> (r: Result<usize, ErrorKind>)
        ensures
            r == self.spec_length(h),
    {
        if h >= self.slots.len() {
            return Err(ErrorKind::UseAfterRelease);
        }
        match &self.slots[h] {
            Slot::Released => Err(ErrorKind::UseAfterRelease),
            Slot::Live(Object::Array(a)) => match &a.elems {
                Elems::Ids(items) => Ok(items.len()),
                Elems::Timestamps(items) => Ok(items.len()),
                Elems::Markers(items) => Ok(items.len()),
            },
            Slot::Live(Object::ChatList(items)) => Ok(items.len()),
            Slot::Live(_) => Err(ErrorKind::TypeMismatch),
        }
    }

    /// What `get_id` must report for `h` and `index`.
    pub open spec fn spec_get_id(self, h: usize, index: usize) -> Result<u32, ErrorKind> {
        if !self.is_live(h) {
            Err(ErrorKind::UseAfterRelease)
        } else {
            match self.object_of(h) {
                Object::Array(a) => match a.elems {
                    Elems::Ids(items) => if index < items.len() {
                        Ok(items[index as int])
                    } else {
                        Err(ErrorKind::IndexOutOfRange)
                    },
                    _ => Err(ErrorKind::TypeMismatch),
                },
                _ => Err(ErrorKind::TypeMismatch),
            }
        }
    }

    /// The id at `index` of a wrapped id collection. An index at or past the
    /// count fails with `IndexOutOfRange` and harms nothing: the receiver is
    /// shared, so the handle and its collection are left exactly as they
    /// were.
    pub fn get_id(&self, h: usize, index: usize) -> (r: Result<u32, ErrorKind>)
        ensures
            r == self.spec_get_id(h, index),
    {
        if h >= self.slots.len() {
            return Err(ErrorKind::UseAfterRelease);
        }
        match &self.slots[h] {
            Slot::Released => Err(ErrorKind::UseAfterRelease),
            Slot::Live(Object::Array(a)) => match &a.elems {
                Elems::Ids(items) => if index < items.len() {
                    Ok(items[index])
                } else {
                    Err(ErrorKind::IndexOutOfRange)
                },
                _ => Err(ErrorKind::TypeMismatch),
            },
            Slot::Live(_) => Err(ErrorKind::TypeMismatch),
        }
    }

    /// The id at `index`, widened as the foreign surface's unsigned long
    /// accessor returns it.
    pub fn get_uint(&self, h: usize, index: usize) -> (r: Result<u64, ErrorKind>)
        ensures
            r == match self.spec_get_id(h, index) {
                Ok(v) => Ok::<u64, ErrorKind>(v as u64),
                Err(e) => Err(e),
            },
    {
        match self.get_id(h, index) {
            Ok(v) => Ok(v as u64),
            Err(e) => Err(e),
        }
    }

    /// What `get_timestamp` must report for `h` and `index`.
    pub open spec fn spec_get_timestamp(self, h: usize, index: usize) -> Result<i64, ErrorKind> {
        if !self.is_live(h) {
            Err(ErrorKind::UseAfterRelease)
        } else {
            match self.object_of(h) {
                Object::Array(a) => match a.elems {
                    Elems::Timestamps(items) => if index < items.len() {
                        Ok(items[index as int])
                    } else {
                        Err(ErrorKind::IndexOutOfRange)
                    },
                    _ => Err(ErrorKind::TypeMismatch),
                },
                _ => Err(ErrorKind::TypeMismatch),
            }
        }
    }

    /// The timestamp at `index` of a wrapped timestamp collection.
    pub fn get_timestamp(&self, h: usize, index: usize) -> (r: Result<i64, ErrorKind>)
        ensures
            r == self.spec_get_timestamp(h, index),
    {
        if h >= self.slots.len() {
            return Err(ErrorKind::UseAfterRelease);
        }
        match &self.slots[h] {
            Slot::Released => Err(ErrorKind::UseAfterRelease),
            Slot::Live(Object::Array(a)) => match &a.elems {
                Elems::Timestamps(items) => if index < items.len() {
                    Ok(items[index])
                } else {
                    Err(ErrorKind::IndexOutOfRange)
                },
                _ => Err(ErrorKind::TypeMismatch),
            },
            Slot::Live(_) => Err(ErrorKind::TypeMismatch),
        }
    }

    /// What `get_marker` must report for `h` and `index`, up to the marker's
    /// text, which the exec accessor returns as an equal copy.
    pub open spec fn spec_get_marker(self, h: usize, index: usize) -> Result<String, ErrorKind> {
        if !self.is_live(h) {
            Err(ErrorKind::UseAfterRelease)
        } else {
            match self.object_of(h) {
                Object::Array(a) => match a.elems {
                    Elems::Markers(items) => if index < items.len() {
                        Ok(items[index as int])
                    } else {
                        Err(ErrorKind::IndexOutOfRange)
                    },
                    _ => Err(ErrorKind::TypeMismatch),
                },
                _ => Err(ErrorKind::TypeMismatch),
            }
        }
    }

    /// A copy of the marker at `index` of a wrapped marker collection.
    pub fn get_marker(&self, h: usize, index: usize) -> (r: Result<String, ErrorKind>)
        ensures
            r == self.spec_get_marker(h, index),
    {
        if h >= self.slots.len() {
            return Err(ErrorKind::UseAfterRelease);
        }
        match &self.slots[h] {
            Slot::Released => Err(ErrorKind::UseAfterRelease),
            Slot::Live(Object::Array(a)) => match &a.elems {
                Elems::Markers(items) => if index < items.len() {
                    Ok(items[index].clone())
                } else {
                    Err(ErrorKind::IndexOutOfRange)
                },
                _ => Err(ErrorKind::TypeMismatch),
            },
            Slot::Live(_) => Err(ErrorKind::TypeMismatch),
        }
    }

    /// Whether `h` is a live id collection, the only kind that can be
    /// searched or appended to.
    pub open spec fn is_id_array(self, h: usize) -> bool {
        self.is_live(h) && (self.object_of(h) matches Object::Array(a) && a.elems is Ids)
    }

    /// The elements of a live id collection.
    pub open spec fn ids_of(self, h: usize) -> Seq<u32>
        recommends
            self.is_id_array(h),
    {
        self.object_of(h)->Array_0.elems->Ids_0@
    }

    /// Whether the collection at `h` declared itself sorted.
    pub open spec fn is_sorted_array(self, h: usize) -> bool
        recommends
            self.is_id_array(h),
    {
        self.object_of(h)->Array_0.sorted
    }

    /// Looks for `needle` in a wrapped id collection: binary search if the
    /// collection declared itself sorted, linear search otherwise. Not found
    /// is the definite signal `None`, distinct from any index. A hit is an
    /// index holding `needle`; for an undeclared (linearly searched)
    /// collection it is the first such index.
    pub fn search_id(&self, h: usize, needle: u32) -> (r: Result<Option<usize>, ErrorKind>)
        requires
            self.wf(),
        ensures
            !self.is_live(h) ==> r == Err::<Option<usize>, ErrorKind>(ErrorKind::UseAfterRelease),
            self.is_live(h) && !self.is_id_array(h) ==> r == Err::<Option<usize>, ErrorKind>(
                ErrorKind::TypeMismatch,
            ),
            self.is_id_array(h) ==> match r {
                Ok(found) => match found {
                    Some(i) => i < self.ids_of(h).len() && self.ids_of(h)[i as int] == needle
                        && (!self.is_sorted_array(h) ==> forall|j: int|
                            0 <= j < i ==> self.ids_of(h)[j] != needle),
                    None => forall|j: int| 0 <= j < self.ids_of(h).len() ==> self.ids_of(h)[j] != needle,
                },
                Err(_) => false,
            },
    {
        if h >= self.slots.len() {
            return Err(ErrorKind::UseAfterRelease);
        }
        match &self.slots[h] {
            Slot::Released => Err(ErrorKind::UseAfterRelease),
            Slot::Live(Object::Array(a)) => match &a.elems {
                Elems::Ids(items) => {
                    if a.sorted {
                        proof {
                            assert(slot_inv(self.table()[h as int]));
                        }
                        Ok(search_sorted(items, needle))
                    } else {
                        Ok(search_linear(items, needle))
                    }
                },
                _ => Err(ErrorKind::TypeMismatch),
            },
            Slot::Live(_) => Err(ErrorKind::TypeMismatch),
        }
    }

    /// Appends an id to a wrapped id collection. A collection that declared
    /// itself sorted only accepts an id no smaller than its last element, so
    /// that the declaration stays true; anything smaller fails with
    /// `InvalidInput` and changes nothing.
    pub fn add_id(&mut self, h: usize, item: u32) -> (r: Result<(), ErrorKind>)
        requires
            old(self).wf(),
        ensures
            final(self).wf(),
            !old(self).is_live(h) ==> r == Err::<(), ErrorKind>(ErrorKind::UseAfterRelease)
                && *final(self) == *old(self),
            old(self).is_live(h) && !old(self).is_id_array(h) ==> r == Err::<(), ErrorKind>(
                ErrorKind::TypeMismatch,
            ) && *final(self) == *old(self),
            old(self).is_id_array(h) ==> {
                let items = old(self).ids_of(h);
                let fits = !old(self).is_sorted_array(h) || items.len() == 0 || items.last() <= item;
                if fits {
                    r is Ok && final(self).table().len() == old(self).table().len()
                        && final(self).is_id_array(h) && final(self).is_sorted_array(h) == old(
                        self,
                    ).is_sorted_array(h) && final(self).ids_of(h) == items.push(item) && (forall|
                        k: int,
                    |
                        0 <= k < old(self).table().len() && k != h ==> final(self).table()[k] == old(
                            self,
                        ).table()[k])
                } else {
                    r == Err::<(), ErrorKind>(ErrorKind::InvalidInput) && *final(self) == *old(self)
                }
            },
    {
        if h >= self.slots.len() {
            return Err(ErrorKind::UseAfterRelease);
        }
        match &self.slots[h] {
            Slot::Released => {
                return Err(ErrorKind::UseAfterRelease);
            },
            Slot::Live(Object::Array(a)) => match &a.elems {
                Elems::Ids(items) => {
                    if a.sorted && items.len() > 0 && items[items.len() - 1] > item {
                        return Err(ErrorKind::InvalidInput);
                    }
                },
                _ => {
                    return Err(ErrorKind::TypeMismatch);
                },
            },
            Slot::Live(_) => {
                return Err(ErrorKind::TypeMismatch);
            },
        }
        let slot = self.slots.remove(h);
        match slot {
            Slot::Live(Object::Array(a)) => match a.elems {
                Elems::Ids(mut items) => {
                    items.push(item);
                    proof {
                        assert(slot_inv(old(self).table()[h as int]));
                        if old(self).is_sorted_array(h) {
                            let prior = old(self).ids_of(h);
                            assert(sorted_ids(prior));
                            assert(items@ == prior.push(item));
                            assert forall|i: int, j: int| 0 <= i <= j < items@.len() implies items@[i]
                                <= items@[j] by {
                                if j < prior.len() {
                                    assert(prior[i] <= prior[j]);
                                } else if i < prior.len() {
                                    assert(prior[i] <= prior[prior.len() - 1]);
                                }
                            }
                            assert(sorted_ids(items@));
                        }
                    }
                    self.slots.insert(
                        h,
                        Slot::Live(Object::Array(ArrayData { sorted: a.sorted, elems: Elems::Ids(items) })),
                    );
                },
                _ => {
                    proof {
                        assert(false);
                    }
                },
            },
            _ => {
                proof {
                    assert(false);
                }
            },
        }
        proof {
            assert forall|k: int| 0 <= k < old(self).table().len() && k != h implies self.table()[k]
                == old(self).table()[k] by {
                if k < h {
                    assert(self.table()[k] == old(self).table().remove(h as int).insert(
                        h as int,
                        self.table()[h as int],
                    )[k]);
                } else {
                }
            }
            assert forall|k: int| 0 <= k < self.table().len() implies slot_inv(
                #[trigger] self.table()[k],
            ) by {
                if k != h {
                    assert(slot_inv(old(self).table()[k]));
                }
            }
        }
        Ok(())
    }

    /// The entries of a live chat list, or the failure any of its accessors
    /// must report.
    pub open spec fn spec_chatlist(self, h: usize) -> Result<Seq<ChatListItem>, ErrorKind> {
        if !self.is_live(h) {
            Err(ErrorKind::UseAfterRelease)
        } else {
            match self.object_of(h) {
                Object::ChatList(items) => Ok(items@),
                _ => Err(ErrorKind::TypeMismatch),
            }
        }
    }

    /// The chat id of the chat list entry at `index`.
    pub fn chatlist_get_chat_id(&self, h: usize, index: usize) -> (r: Result<u32, ErrorKind>)
        ensures
            r == match self.spec_chatlist(h) {
                Ok(items) => if index < items.len() {
                    Ok::<u32, ErrorKind>(items[index as int].chat_id)
                } else {
                    Err::<u32, ErrorKind>(ErrorKind::IndexOutOfRange)
                },
                Err(e) => Err::<u32, ErrorKind>(e),
            },
    {
        if h >= self.slots.len() {
            return Err(ErrorKind::UseAfterRelease);
        }
        match &self.slots[h] {
            Slot::Released => Err(ErrorKind::UseAfterRelease),
            Slot::Live(Object::ChatList(items)) => if index < items.len() {
                Ok(items[index].chat_id)
            } else {
                Err(ErrorKind::IndexOutOfRange)
            },
            Slot::Live(_) => Err(ErrorKind::TypeMismatch),
        }
    }

    /// The newest message id of the chat list entry at `index`.
    pub fn chatlist_get_msg_id(&self, h: usize, index: usize) -> (r: Result<u32, ErrorKind>)
        ensures
            r == match self.spec_chatlist(h) {
                Ok(items) => if index < items.len() {
                    Ok::<u32, ErrorKind>(items[index as int].msg_id)
                } else {
                    Err::<u32, ErrorKind>(ErrorKind::IndexOutOfRange)
                },
                Err(e) => Err::<u32, ErrorKind>(e),
            },
    {
        if h >= self.slots.len() {
            return Err(ErrorKind::UseAfterRelease);
        }
        match &self.slots[h] {
            Slot::Released => Err(ErrorKind::UseAfterRelease),
            Slot::Live(Object::ChatList(items)) => if index < items.len() {
                Ok(items[index].msg_id)
            } else {
                Err(ErrorKind::IndexOutOfRange)
            },
            Slot::Live(_) => Err(ErrorKind::TypeMismatch),
        }
    }

    /// Wraps the summary of the chat list entry at `index` as a fresh handle
    /// of its own, which the caller owns and must release. The summary is
    /// copied out of the entry: the new handle does not own the chat list,
    /// and releasing either handle leaves the other usable.
    pub fn chatlist_get_summary(&mut self, h: usize, index: usize) -> (r: Result<
        usize,
        ErrorKind,
    >)
        requires
            old(self).wf(),
        ensures
            final(self).wf(),
            match old(self).spec_chatlist(h) {
                Ok(items) => if index < items.len() {
                    r matches Ok(s) && s == old(self).table().len() && final(self).table() == old(
                        self,
                    ).table().push(Slot::Live(Object::Summary(items[index as int].summary)))
                } else {
                    r == Err::<usize, ErrorKind>(ErrorKind::IndexOutOfRange) && *final(self)
                        == *old(self)
                },
                Err(e) => r == Err::<usize, ErrorKind>(e) && *final(self) == *old(self),
            },
    {
        if h >= self.slots.len() {
            return Err(ErrorKind::UseAfterRelease);
        }
        let summary = match &self.slots[h] {
            Slot::Released => {
                return Err(ErrorKind::UseAfterRelease);
            },
            Slot::Live(Object::ChatList(items)) => {
                if index >= items.len() {
                    return Err(ErrorKind::IndexOutOfRange);
                }
                let entry = &items[index];
                SummaryData {
                    text1: entry.summary.text1.clone(),
                    text2: entry.summary.text2.clone(),
                    timestamp: entry.summary.timestamp,
                    state: entry.summary.state,
                }
            },
            Slot::Live(_) => {
                return Err(ErrorKind::TypeMismatch);
            },
        };
        Ok(self.new_slot(Object::Summary(summary)))
    }

    /// The chat record a live handle refers to, or the failure any chat
    /// accessor must report.
    pub open spec fn spec_chat(self, h: usize) -> Result<ChatData, ErrorKind> {
        if !self.is_live(h) {
            Err(ErrorKind::UseAfterRelease)
        } else {
            match self.object_of(h) {
                Object::Chat(c) => Ok(c),
                _ => Err(ErrorKind::TypeMismatch),
            }
        }
    }

    /// A shared borrow of the chat record behind `h`.
    fn chat_ref(&self, h: usize) -> (r: Result<&ChatData, ErrorKind>)
        ensures
            match r {
                Ok(c) => self.spec_chat(h) == Ok::<ChatData, ErrorKind>(*c),
                Err(e) => self.spec_chat(h) == Err::<ChatData, ErrorKind>(e),
            },
    {
        if h >= self.slots.len() {
            return Err(ErrorKind::UseAfterRelease);
        }
        match &self.slots[h] {
            Slot::Released => Err(ErrorKind::UseAfterRelease),
            Slot::Live(Object::Chat(c)) => Ok(c),
            Slot::Live(_) => Err(ErrorKind::TypeMismatch),
        }
    }

    /// The id of a wrapped chat.
    pub fn chat_get_id(&self, h: usize) -> (r: Result<u32, ErrorKind>)
        ensures
            r == match self.spec_chat(h) {
                Ok(c) => Ok::<u32, ErrorKind>(c.id),
                Err(e) => Err::<u32, ErrorKind>(e),
            },
    {
        match self.chat_ref(h) {
            Ok(c) => Ok(c.id),
            Err(e) => Err(e),
        }
    }

    /// The kind of a wrapped chat, as the core encodes it.
    pub fn chat_get_type(&self, h: usize) -> (r: Result<u32, ErrorKind>)
        ensures
            r == match self.spec_chat(h) {
                Ok(c) => Ok::<u32, ErrorKind>(c.chat_type),
                Err(e) => Err::<u32, ErrorKind>(e),
            },
    {
        match self.chat_ref(h) {
            Ok(c) => Ok(c.chat_type),
            Err(e) => Err(e),
        }
    }

    /// A copy of the display name of a wrapped chat.
    pub fn chat_get_name(&self, h: usize) -> (r: Result<String, ErrorKind>)
        ensures
            r == match self.spec_chat(h) {
                Ok(c) => Ok::<String, ErrorKind>(c.name),
                Err(e) => Err::<String, ErrorKind>(e),
            },
    {
        match self.chat_ref(h) {
            Ok(c) => Ok(c.name.clone()),
            Err(e) => Err(e),
        }
    }

    /// A copy of the subtitle of a wrapped chat.
    pub fn chat_get_subtitle(&self, h: usize) -> (r: Result<String, ErrorKind>)
        ensures
            r == match self.spec_chat(h) {
                Ok(c) => Ok::<String, ErrorKind>(c.subtitle),
                Err(e) => Err::<String, ErrorKind>(e),
            },
    {
        match self.chat_ref(h) {
            Ok(c) => Ok(c.subtitle.clone()),
            Err(e) => Err(e),
        }
    }

    /// A copy of the avatar image path of a wrapped chat, if it has one.
    pub fn chat_get_profile_image(&self, h: usize) -> (r: Result<Option<String>, ErrorKind>)
        ensures
            r == match self.spec_chat(h) {
                Ok(c) => Ok::<Option<String>, ErrorKind>(c.profile_image),
                Err(e) => Err::<Option<String>, ErrorKind>(e),
            },
    {
        match self.chat_ref(h) {
            Ok(c) => match &c.profile_image {
                Some(p) => Ok(Some(p.clone())),
                None => Ok(None),
            },
            Err(e) => Err(e),
        }
    }

    /// The visibility of a wrapped chat: 0 normal, 1 archived, 2 pinned.
    pub fn chat_get_visibility(&self, h: usize) -> (r: Result<u32, ErrorKind>)
        ensures
            r == match self.spec_chat(h) {
                Ok(c) => Ok::<u32, ErrorKind>(c.visibility),
                Err(e) => Err::<u32, ErrorKind>(e),
            },
    {
        match self.chat_ref(h) {
            Ok(c) => Ok(c.visibility),
            Err(e) => Err(e),
        }
    }

    /// The avatar color of a wrapped chat.
    pub fn chat_get_color(&self, h: usize) -> (r: Result<u32, ErrorKind>)
        ensures
            r == match self.spec_chat(h) {
                Ok(c) => Ok::<u32, ErrorKind>(c.color),
                Err(e) => Err::<u32, ErrorKind>(e),
            },
    {
        match self.chat_ref(h) {
            Ok(c) => Ok(c.color),
            Err(e) => Err(e),
        }
    }

    /// Whether no message was sent to the wrapped chat yet.
    pub fn chat_is_unpromoted(&self, h: usize) -> (r: Result<bool, ErrorKind>)
        ensures
            r == match self.spec_chat(h) {
                Ok(c) => Ok::<bool, ErrorKind>(c.unpromoted),
                Err(e) => Err::<bool, ErrorKind>(e),
            },
    {
        match self.chat_ref(h) {
            Ok(c) => Ok(c.unpromoted),
            Err(e) => Err(e),
        }
    }

    /// Whether the wrapped chat is the talk with oneself.
    pub fn chat_is_self_talk(&self, h: usize) -> (r: Result<bool, ErrorKind>)
        ensures
            r == match self.spec_chat(h) {
                Ok(c) => Ok::<bool, ErrorKind>(c.self_talk),
                Err(e) => Err::<bool, ErrorKind>(e),
            },
    {
        match self.chat_ref(h) {
            Ok(c) => Ok(c.self_talk),
            Err(e) => Err(e),
        }
    }

    /// Whether the wrapped chat is protected by verification.
    pub fn chat_is_verified(&self, h: usize) -> (r: Result<bool, ErrorKind>)
        ensures
            r == match self.spec_chat(h) {
                Ok(c) => Ok::<bool, ErrorKind>(c.verified),
                Err(e) => Err::<bool, ErrorKind>(e),
            },
    {
        match self.chat_ref(h) {
            Ok(c) => Ok(c.verified),
            Err(e) => Err(e),
        }
    }

    /// Whether the wrapped chat is currently streaming locations.
    pub fn chat_is_sending_locations(&self, h: usize) -> (r: Result<bool, ErrorKind>)
        ensures
            r == match self.spec_chat(h) {
                Ok(c) => Ok::<bool, ErrorKind>(c.sending_locations),
                Err(e) => Err::<bool, ErrorKind>(e),
            },
    {
        match self.chat_ref(h) {
            Ok(c) => Ok(c.sending_locations),
            Err(e) => Err(e),
        }
    }

    /// The summary record a live handle refers to, or the failure any
    /// summary accessor must report.
    pub open spec fn spec_summary(self, h: usize) -> Result<SummaryData, ErrorKind> {
        if !self.is_live(h) {
            Err(ErrorKind::UseAfterRelease)
        } else {
            match self.object_of(h) {
                Object::Summary(s) => Ok(s),
                _ => Err(ErrorKind::TypeMismatch),
            }
        }
    }

    /// A copy of the first text line of a wrapped summary.
    pub fn summary_get_text1(&self, h: usize) -> (r: Result<String, ErrorKind>)
        ensures
            r == match self.spec_summary(h) {
                Ok(s) => Ok::<String, ErrorKind>(s.text1),
                Err(e) => Err::<String, ErrorKind>(e),
            },
    {
        if h >= self.slots.len() {
            return Err(ErrorKind::UseAfterRelease);
        }
        match &self.slots[h] {
            Slot::Released => Err(ErrorKind::UseAfterRelease),
            Slot::Live(Object::Summary(s)) => Ok(s.text1.clone()),
            Slot::Live(_) => Err(ErrorKind::TypeMismatch),
        }
    }

    /// A copy of the second text line of a wrapped summary.
    pub fn summary_get_text2(&self, h: usize) -> (r: Result<String, ErrorKind>)
        ensures
            r == match self.spec_summary(h) {
                Ok(s) => Ok::<String, ErrorKind>(s.text2),
                Err(e) => Err::<String, ErrorKind>(e),
            },
    {
        if h >= self.slots.len() {
            return Err(ErrorKind::UseAfterRelease);
        }
        match &self.slots[h] {
            Slot::Released => Err(ErrorKind::UseAfterRelease),
            Slot::Live(Object::Summary(s)) => Ok(s.text2.clone()),
            Slot::Live(_) => Err(ErrorKind::TypeMismatch),
        }
    }

    /// The timestamp of a wrapped summary.
    pub fn summary_get_timestamp(&self, h: usize) -> (r: Result<i64, ErrorKind>)
        ensures
            r == match self.spec_summary(h) {
                Ok(s) => Ok::<i64, ErrorKind>(s.timestamp),
                Err(e) => Err::<i64, ErrorKind>(e),
            },
    {
        if h >= self.slots.len() {
            return Err(ErrorKind::UseAfterRelease);
        }
        match &self.slots[h] {
            Slot::Released => Err(ErrorKind::UseAfterRelease),
            Slot::Live(Object::Summary(s)) => Ok(s.timestamp),
            Slot::Live(_) => Err(ErrorKind::TypeMismatch),
        }
    }

    /// The message state of a wrapped summary.
    pub fn summary_get_state(&self, h: usize) -> (r: Result<u32, ErrorKind>)
        ensures
            r == match self.spec_summary(h) {
                Ok(s) => Ok::<u32, ErrorKind>(s.state),
                Err(e) => Err::<u32, ErrorKind>(e),
            },
    {
        if h >= self.slots.len() {
            return Err(ErrorKind::UseAfterRelease);
        }
        match &self.slots[h] {
            Slot::Released => Err(ErrorKind::UseAfterRelease),
            Slot::Live(Object::Summary(s)) => Ok(s.state),
            Slot::Live(_) => Err(ErrorKind::TypeMismatch),
        }
    }

    /// Releases a handle. The slot becomes `Released` and stays so; every
    /// later operation on the handle, a second release included, fails with
    /// `UseAfterRelease`.
    pub fn release(&mut self, h: usize) -> (r: Result<(), ErrorKind>)
        ensures
            old(self).is_live(h) ==> r is Ok && final(self).table() == old(self).table().update(
                h as int,
                Slot::Released,
            ),
            !old(self).is_live(h) ==> r == Err::<(), ErrorKind>(ErrorKind::UseAfterRelease)
                && *final(self) == *old(self),
            !final(self).is_live(h),
            old(self).wf() ==> final(self).wf(),
    {
        if h < self.slots.len() {
            if matches!(self.slots[h], Slot::Live(_)) {
                self.slots[h] = Slot::Released;
                assert(self.table() =~= old(self).table().update(h as int, Slot::Released));
                return Ok(());
            }
        }
        Err(ErrorKind::UseAfterRelease)
    }
}

/// Law: wrapping is faithful. A handle whose slot holds a wrapped id
/// collection — in particular the handle `wrap_ids` just returned, whose slot
/// `wrap_ids` pins down — reports exactly the collection's count, yields
/// exactly `items[i]` at each valid index `i`, and fails with
/// `IndexOutOfRange` at every other index. The accessors borrow the table
/// shared, so a failed access leaves every handle exactly as it was.
pub proof fn lemma_wrap_reports_items(b: Bridge, h: usize, sorted: bool, items: Vec<u32>, i: usize)
    requires
        b.is_live(h),
        b.object_of(h) == Object::Array(ArrayData { sorted, elems: Elems::Ids(items) }),
    ensures
        b.spec_length(h) == Ok::<usize, ErrorKind>(items.len()),
        i < items.len() ==> b.spec_get_id(h, i) == Ok::<u32, ErrorKind>(items[i as int]),
        i >= items.len() ==> b.spec_get_id(h, i) == Err::<u32, ErrorKind>(
            ErrorKind::IndexOutOfRange,
        ),
{
}

/// Law: release is terminal. Once a handle's slot is `Released` — which is
/// what `release` ensures of the handle it accepted — every operation on
/// that handle reports `UseAfterRelease`: every accessor of every object
/// kind, and a second `release` as well, so a double release is a detected
/// hard failure. Every other handle's slot is untouched by the release.
pub proof fn lemma_release_is_terminal(pre: Bridge, post: Bridge, h: usize, h2: usize, i: usize)
    requires
        h < pre.table().len(),
        post.table() == pre.table().update(h as int, Slot::Released),
    ensures
        !post.is_live(h),
        post.spec_length(h) == Err::<usize, ErrorKind>(ErrorKind::UseAfterRelease),
        post.spec_get_id(h, i) == Err::<u32, ErrorKind>(ErrorKind::UseAfterRelease),
        post.spec_get_timestamp(h, i) == Err::<i64, ErrorKind>(ErrorKind::UseAfterRelease),
        post.spec_get_marker(h, i) == Err::<String, ErrorKind>(ErrorKind::UseAfterRelease),
        post.spec_chatlist(h) == Err::<Seq<ChatListItem>, ErrorKind>(ErrorKind::UseAfterRelease),
        post.spec_chat(h) == Err::<ChatData, ErrorKind>(ErrorKind::UseAfterRelease),
        post.spec_summary(h) == Err::<SummaryData, ErrorKind>(ErrorKind::UseAfterRelease),
        h2 != h && h2 < pre.table().len() ==> post.table()[h2 as int] == pre.table()[h2 as int],
{
}

} // verus!
