//! The identifier of an order list.
//!
//! An [`OrderListId`] owns a text and never changes it. Its view is that text,
//! as a sequence of characters, and every contract in this module is stated
//! over the view: two identifiers are equal exactly when their texts are.

use vstd::prelude::*;
use vstd::std_specs::cmp::PartialEqSpec;

verus! {

/// The identifier of a list of orders: an owned, immutable text.
///
/// Any text is a valid identifier, the empty one included. There is no
/// operation that changes an identifier; a different text is a new value.
#[derive(Debug, Hash)]
pub struct OrderListId {
    value: String,
}

impl View for OrderListId {
    type V = Seq<char>;

    /// The text that the identifier carries.
    closed spec fn view(&self) -> Seq<char> {
        self.value@
    }
}

impl From<&str> for OrderListId {
    /// Copies `s` into a new identifier, which owns its text independently
    /// of `s`. Every text is accepted.
    fn from(s: &str) -> (id: OrderListId)
        ensures
            id@ == s@,
    {
        OrderListId { value: s.to_owned() }
    }
}

/// Ghost code cannot name a `String` by its text, so there is no value to
/// equate the result of `from` with: `from` is specified by the view of its
/// result instead, and `from_spec` is left unspecified.
impl vstd::std_specs::convert::FromSpecImpl<&str> for OrderListId {
    open spec fn obeys_from_spec() -> bool {
        false
    }

    open spec fn from_spec(_s: &str) -> OrderListId {
        arbitrary()
    }
}

impl PartialEq for OrderListId {
    /// Compares the two texts character by character.
    fn eq(&self, other: &OrderListId) -> (r: bool)
        ensures
            r == (self@ == other@),
    {
        self.value == other.value
    }
}

impl vstd::std_specs::cmp::PartialEqSpecImpl for OrderListId {
    open spec fn obeys_eq_spec() -> bool {
        true
    }

    /// Two identifiers are equal exactly when they carry the same text.
    open spec fn eq_spec(&self, other: &OrderListId) -> bool {
        self@ == other@
    }
}

impl Eq for OrderListId {}

impl Clone for OrderListId {
    /// A second identifier with the same text, in memory of its own.
    fn clone(&self) -> (r: OrderListId)
        ensures
            r == *self,
            r@ == self@,
    {
        OrderListId { value: self.value.clone() }
    }
}

impl OrderListId {
    /// The identifier's text, as a string of its own. The identifier is left
    /// as it was, so this may be called any number of times.
    pub fn to_string(&self) -> (text: String)
        ensures
            text@ == self@,
    {
        self.value.clone()
    }
}

/// Releases an identifier whose owner has no scope of its own to end, such as
/// one that was handed across a C boundary and is now given back.
///
/// The identifier is moved in, so its text is freed here, once, and the caller
/// has nothing left to use or to free again.
pub fn order_list_id_free(order_list_id: OrderListId) {
    let _released = order_list_id;
}

/// Builds an identifier from the text of a Python `str`.
///
/// `value` is that text, already decoded into a string that the caller owns;
/// the identifier takes it over whole and keeps no tie to the Python object.
/// Decoding is the caller's part, since it needs the interpreter. No format
/// is asked of the text.
pub fn order_list_id_from_pystr(value: String) -> (id: OrderListId)
    ensures
        id@ == value@,
{
    OrderListId { value }
}

/// An identifier built from any text equals itself.
pub proof fn lemma_from_eq_reflexive(s: &str, id: OrderListId)
    requires
        call_ensures(OrderListId::from, (s,), id),
    ensures
        id.eq_spec(&id),
{
}

/// Identifiers built from two texts are equal exactly when the texts are. So
/// distinct texts give distinct identifiers, and two identifiers built
/// separately from one text are equal.
pub proof fn lemma_from_eq_iff_same_text(
    s1: &str,
    s2: &str,
    id1: OrderListId,
    id2: OrderListId,
)
    requires
        call_ensures(OrderListId::from, (s1,), id1),
        call_ensures(OrderListId::from, (s2,), id2),
    ensures
        id1.eq_spec(&id2) <==> s1@ == s2@,
        s1@ != s2@ ==> id1 != id2,
{
}

/// The text read back from an identifier is the text it was built from.
pub proof fn lemma_from_to_string_round_trip(s: &str, id: OrderListId, text: String)
    requires
        call_ensures(OrderListId::from, (s,), id),
        call_ensures(OrderListId::to_string, (&id,), text),
    ensures
        text@ == s@,
{
}

} // verus!
