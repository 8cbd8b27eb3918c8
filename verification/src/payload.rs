//! The payload of a token as its members: names and values.

use vstd::prelude::*;

verus! {

/// The value of one member of a token's payload.
#[derive(Debug, PartialEq, Eq)]
pub enum Member {
    /// JSON's null.
    Null,
    /// A truth value.
    Bool(bool),
    /// A number, as a whole number of 64 bits where it is one.
    Number(Option<i64>),
    /// A string.
    Text(String),
    /// An array, without its items.
    Array,
    /// An object, without its members.
    Object,
}

/// A member value as a mathematical value.
pub enum MemberView {
    Null,
    Bool(bool),
    Number(Option<i64>),
    Text(Seq<char>),
    Array,
    Object,
}

impl View for Member {
    type V = MemberView;

    open spec fn view(&self) -> MemberView {
        match self {
            Member::Null => MemberView::Null,
            Member::Bool(truth) => MemberView::Bool(*truth),
            Member::Number(number) => MemberView::Number(*number),
            Member::Text(text) => MemberView::Text(text@),
            Member::Array => MemberView::Array,
            Member::Object => MemberView::Object,
        }
    }
}

impl MemberView {
    /// The value is whole: nothing of it was left out when it was read.
    pub open spec fn is_whole(self) -> bool {
        match self {
            MemberView::Number(None) => false,
            MemberView::Array => false,
            MemberView::Object => false,
            _ => true,
        }
    }
}

/// The members of a payload, by name, in the order of the payload.
pub type Payload = Seq<(Seq<char>, MemberView)>;

/// The view of the members of a payload.
pub open spec fn payload_view(members: Seq<(String, Member)>) -> Payload {
    Seq::new(members.len(), |i: int| (members[i].0@, members[i].1@))
}

/// Every value of the payload is whole.
pub open spec fn all_whole(payload: Payload) -> bool {
    forall|i: int| 0 <= i < payload.len() ==> (#[trigger] payload[i]).1.is_whole()
}

/// The value of the first member called `name`.
pub open spec fn member(payload: Payload, name: Seq<char>) -> Option<MemberView>
    decreases payload.len(),
{
    if payload.len() == 0 {
        None
    } else if payload[0].0 == name {
        Some(payload[0].1)
    } else {
        member(payload.drop_first(), name)
    }
}

} // verus!
