//! Byte strings, addresses, and the two operations every stored value needs:
//! comparing by content and copying.

use vstd::prelude::*;
use vstd::slice::slice_to_vec;
use vstd::utf8::{
    decode_utf8, encode_utf8, encode_utf8_decode_utf8, encode_utf8_valid_utf8, valid_utf8,
};

verus! {

/// A value whose content can be compared.
pub trait Comparable: View + Sized {
    fn same(&self, other: &Self) -> (r: bool)
        ensures
            r == (self@ == other@),
    ;
}

/// A value that can be copied.
pub trait Duplicate: View + Sized {
    fn dup(&self) -> (r: Self)
        ensures
            r@ == self@,
    ;
}

impl Comparable for u64 {
    fn same(&self, other: &Self) -> (r: bool) {
        *self == *other
    }
}

impl Duplicate for u64 {
    fn dup(&self) -> (r: Self) {
        *self
    }
}

impl Comparable for u32 {
    fn same(&self, other: &Self) -> (r: bool) {
        *self == *other
    }
}

impl Duplicate for u32 {
    fn dup(&self) -> (r: Self) {
        *self
    }
}

impl Duplicate for bool {
    fn dup(&self) -> (r: Self) {
        *self
    }
}

impl Comparable for Vec<u8> {
    fn same(&self, other: &Self) -> (r: bool) {
        let r = *self == *other;
        proof {
            if r {
                assert(self@ =~= other@);
            }
        }
        r
    }
}

impl Comparable for String {
    fn same(&self, other: &Self) -> (r: bool) {
        *self == *other
    }
}

impl Duplicate for Vec<u8> {
    fn dup(&self) -> (r: Self) {
        let r = self.clone();
        assert(r@ =~= self@);
        r
    }
}

impl Duplicate for [u8; 32] {
    fn dup(&self) -> (r: Self) {
        *self
    }
}

impl Comparable for [u8; 32] {
    fn same(&self, other: &Self) -> (r: bool) {
        let mut i: usize = 0;
        while i < 32
            invariant
                i <= 32,
                forall|j: int| 0 <= j < i ==> self@[j] == other@[j],
            decreases 32 - i,
        {
            if self[i] != other[i] {
                assert(self@[i as int] != other@[i as int]);
                return false;
            }
            i = i + 1;
        }
        assert(self@ =~= other@);
        true
    }
}

impl<A: Comparable, B: Comparable> Comparable for (A, B) {
    fn same(&self, other: &Self) -> (r: bool) {
        self.0.same(&other.0) && self.1.same(&other.1)
    }
}

impl<A: Duplicate, B: Duplicate> Duplicate for (A, B) {
    fn dup(&self) -> (r: Self) {
        (self.0.dup(), self.1.dup())
    }
}

/// Raw bytes.
pub type Bytes = Vec<u8>;

/// A byte string that holds text.
pub type Text = Vec<u8>;

/// The contents of the items of a list.
pub open spec fn contents<T: View>(items: Seq<T>) -> Seq<T::V> {
    Seq::new(items.len(), |i: int| items[i]@)
}

/// The values that are present, in order.
pub open spec fn present<T>(items: Seq<Option<T>>) -> Seq<T>
    decreases items.len(),
{
    if items.len() == 0 {
        Seq::empty()
    } else {
        match items.last() {
            Some(v) => present(items.drop_last()).push(v),
            None => present(items.drop_last()),
        }
    }
}

/// A value is among those present exactly if some item is that value.
pub proof fn present_members<T>(items: Seq<Option<T>>, value: T)
    ensures
        present(items).contains(value) <==> items.contains(Some(value)),
    decreases items.len(),
{
    if items.len() > 0 {
        let front = items.drop_last();
        present_members(front, value);
        if front.contains(Some(value)) {
            let i = front.index_of(Some(value));
            assert(items[i] == Some(value));
        }
        if items.contains(Some(value)) {
            let i = items.index_of(Some(value));
            if i < front.len() {
                assert(front[i] == Some(value));
            }
        }
        match items.last() {
            Some(v) => {
                let all = present(front).push(v);
                if present(front).contains(value) {
                    let i = present(front).index_of(value);
                    assert(all[i] == value);
                }
                if all.contains(value) {
                    let i = all.index_of(value);
                    if i < present(front).len() {
                        assert(present(front)[i] == value);
                    }
                }
                if v == value {
                    assert(all[present(front).len() as int] == value);
                    assert(items[items.len() - 1] == Some(value));
                }
            },
            None => {},
        }
    }
}

/// If every item is there, the values present are the items.
pub proof fn present_of_all<T>(items: Seq<Option<T>>)
    requires
        forall|i: int| 0 <= i < items.len() ==> (#[trigger] items[i]) is Some,
    ensures
        present(items).len() == items.len(),
        forall|i: int| 0 <= i < items.len() ==> #[trigger] present(items)[i] == items[i]->0,
    decreases items.len(),
{
    if items.len() > 0 {
        let front = items.drop_last();
        assert forall|i: int| 0 <= i < front.len() implies (#[trigger] front[i]) is Some by {
            assert(front[i] == items[i]);
        }
        present_of_all(front);
        assert(items.last() is Some) by {
            assert(items[items.len() - 1] is Some);
        }
        assert forall|i: int| 0 <= i < items.len() implies #[trigger] present(items)[i]
            == items[i]->0 by {
            if i < front.len() {
                assert(present(front)[i] == front[i]->0);
            }
        }
    }
}

/// Where the values present come from: the positions of their items, in order.
pub proof fn present_positions<T>(items: Seq<Option<T>>) -> (positions: Seq<int>)
    ensures
        positions.len() == present(items).len(),
        forall|k: int|
            0 <= k < positions.len() ==> 0 <= #[trigger] positions[k] < items.len()
                && items[positions[k]] == Some(present(items)[k]),
        forall|i: int|
            0 <= i < items.len() && (#[trigger] items[i]) is Some ==> positions.contains(i),
        forall|k: int, l: int|
            0 <= k < l < positions.len() ==> #[trigger] positions[k] < #[trigger] positions[l],
    decreases items.len(),
{
    if items.len() == 0 {
        Seq::empty()
    } else {
        let front = items.drop_last();
        let before = present_positions(front);
        let positions = match items.last() {
            Some(v) => before.push(items.len() - 1),
            None => before,
        };
        assert forall|i: int|
            0 <= i < items.len() && (#[trigger] items[i]) is Some implies positions.contains(i) by {
            if i < front.len() {
                assert(front[i] is Some);
                let k = before.index_of(i);
                assert(positions[k] == i);
            } else {
                assert(positions[before.len() as int] == i);
            }
        }
        positions
    }
}

/// The content of an optional value.
pub open spec fn lifted<T: View>(value: Option<T>) -> Option<T::V> {
    match value {
        Some(v) => Some(v@),
        None => None,
    }
}

/// A copy of a list.
pub fn dup_list<T: Duplicate>(items: &Vec<T>) -> (r: Vec<T>)
    ensures
        contents(r@) == contents(items@),
{
    let mut r: Vec<T> = Vec::new();
    let mut i: usize = 0;
    while i < items.len()
        invariant
            i <= items@.len(),
            r@.len() == i,
            forall|j: int| 0 <= j < i ==> (#[trigger] r@[j])@ == items@[j]@,
        decreases items@.len() - i,
    {
        r.push(items[i].dup());
        i = i + 1;
    }
    assert(contents(r@) =~= contents(items@));
    r
}

/// A copy of an optional value.
pub fn dup_option<T: Duplicate>(value: &Option<T>) -> (r: Option<T>)
    ensures
        lifted(r) == lifted(*value),
{
    match value {
        Some(v) => Some(v.dup()),
        None => None,
    }
}

/// Whether two optional values have the same content.
pub fn same_option<T: Comparable>(a: &Option<T>, b: &Option<T>) -> (r: bool)
    ensures
        r == (lifted(*a) == lifted(*b)),
{
    match (a, b) {
        (Some(x), Some(y)) => x.same(y),
        (None, None) => true,
        _ => false,
    }
}

/// Whether a list holds an item with the content of `item`.
pub fn holds<T: Comparable>(items: &Vec<T>, item: &T) -> (r: bool)
    ensures
        r == contents(items@).contains(item@),
{
    let mut i: usize = 0;
    while i < items.len()
        invariant
            i <= items@.len(),
            forall|j: int| 0 <= j < i ==> (#[trigger] items@[j])@ != item@,
        decreases items@.len() - i,
    {
        if items[i].same(item) {
            assert(contents(items@)[i as int] == item@);
            return true;
        }
        i = i + 1;
    }
    assert forall|j: int| 0 <= j < contents(items@).len() implies (#[trigger] contents(
        items@,
    )[j]) != item@ by {
        assert(items@[j]@ != item@);
    }
    false
}

/// The bytes of a text.
pub open spec fn bytes_of(s: &str) -> Seq<u8> {
    encode_utf8(s@)
}

/// The bytes of a text.
pub fn text(s: &str) -> (r: Text)
    ensures
        r@ == bytes_of(s),
{
    slice_to_vec(s.as_bytes())
}

/// An account or contract address, held as the text of its strkey.
#[derive(Clone, Debug, PartialEq)]
pub struct Address {
    pub strkey: Vec<u8>,
}

impl View for Address {
    type V = Seq<u8>;

    open spec fn view(&self) -> Seq<u8> {
        self.strkey@
    }
}

impl Comparable for Address {
    fn same(&self, other: &Self) -> (r: bool) {
        self.strkey.same(&other.strkey)
    }
}

impl Duplicate for Address {
    fn dup(&self) -> (r: Self) {
        Address { strkey: self.strkey.dup() }
    }
}

/// The contents of a list are those of its items, one for one.
pub proof fn contents_are_the_items<T: View>(items: Seq<T>)
    ensures
        contents(items).len() == items.len(),
        forall|i: int| 0 <= i < items.len() ==> #[trigger] contents(items)[i] == items[i]@,
{
}

/// The bytes of a text are its UTF-8 encoding, from which the text reads back.
pub proof fn text_reads_back(s: &str)
    ensures
        valid_utf8(bytes_of(s)),
        decode_utf8(bytes_of(s)) == s@,
{
    encode_utf8_valid_utf8(s@);
    encode_utf8_decode_utf8(s@);
}

} // verus!
