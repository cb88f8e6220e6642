//! Structured values: what a decoded account payload is.

use vstd::prelude::*;

verus! {

/// A decoded value. An absent optional is `Null`; a present one is the value
/// itself. Lists and fixed-size arrays are both `List`.
#[derive(Debug, PartialEq, Eq)]
pub enum StructuredValue {
    Null,
    Bool(bool),
    Unsigned(u64),
    Signed(i64),
    Text(String),
    List(Vec<StructuredValue>),
    /// Named members, in the order in which the schema declares them.
    Record(Vec<Member>),
}

/// One named member of a record.
#[derive(Debug, PartialEq, Eq)]
pub struct Member {
    pub name: String,
    pub value: StructuredValue,
}

/// The mathematical counterpart of [`StructuredValue`].
pub enum ValueModel {
    Null,
    Bool(bool),
    Unsigned(u64),
    Signed(i64),
    Text(Seq<char>),
    List(Seq<ValueModel>),
    Record(Seq<MemberModel>),
}

/// The mathematical counterpart of [`Member`].
pub struct MemberModel {
    pub name: Seq<char>,
    pub value: ValueModel,
}

impl StructuredValue {
    /// The value as a mathematical value.
    pub open spec fn model(&self) -> ValueModel
        decreases self,
    {
        match self {
            StructuredValue::Null => ValueModel::Null,
            StructuredValue::Bool(b) => ValueModel::Bool(*b),
            StructuredValue::Unsigned(n) => ValueModel::Unsigned(*n),
            StructuredValue::Signed(n) => ValueModel::Signed(*n),
            StructuredValue::Text(s) => ValueModel::Text(s@),
            StructuredValue::List(items) => ValueModel::List(
                Seq::new(
                    items.len() as nat,
                    |i: int|
                        if 0 <= i < items.len() {
                            items[i].model()
                        } else {
                            ValueModel::Null
                        },
                ),
            ),
            StructuredValue::Record(members) => ValueModel::Record(
                Seq::new(
                    members.len() as nat,
                    |i: int|
                        if 0 <= i < members.len() {
                            MemberModel { name: members[i].name@, value: members[i].value.model() }
                        } else {
                            MemberModel { name: Seq::empty(), value: ValueModel::Null }
                        },
                ),
            ),
        }
    }
}

impl StructuredValue {
    /// A copy of the value.
    pub fn duplicate(&self) -> (r: StructuredValue)
        ensures
            r@ == self@,
        decreases self, 0nat,
    {
        match self {
            StructuredValue::Null => StructuredValue::Null,
            StructuredValue::Bool(b) => StructuredValue::Bool(*b),
            StructuredValue::Unsigned(n) => StructuredValue::Unsigned(*n),
            StructuredValue::Signed(n) => StructuredValue::Signed(*n),
            StructuredValue::Text(s) => StructuredValue::Text(s.clone()),
            StructuredValue::List(items) => {
                let copies = duplicate_values(items);
                proof {
                    lemma_list_model(copies);
                    lemma_list_model(*items);
                }
                StructuredValue::List(copies)
            },
            StructuredValue::Record(members) => {
                let copies = duplicate_members(members);
                proof {
                    lemma_record_model(copies);
                    lemma_record_model(*members);
                }
                StructuredValue::Record(copies)
            },
        }
    }
}

/// Copies of the values, in the same order.
pub fn duplicate_values(items: &Vec<StructuredValue>) -> (r: Vec<StructuredValue>)
    ensures
        values_model(r@) == values_model(items@),
    decreases items, 1nat,
{
    let mut out: Vec<StructuredValue> = Vec::new();
    let mut i: usize = 0;
    while i < items.len()
        invariant
            i <= items.len(),
            out@.len() == i,
            forall|j: int| 0 <= j < i ==> (#[trigger] out@[j])@ == items@[j]@,
        decreases items.len() - i,
    {
        out.push(items[i].duplicate());
        i += 1;
    }
    out
}

/// Copies of the members, in the same order.
pub fn duplicate_members(members: &Vec<Member>) -> (r: Vec<Member>)
    ensures
        members_model(r@) == members_model(members@),
    decreases members, 1nat,
{
    let mut out: Vec<Member> = Vec::new();
    let mut i: usize = 0;
    while i < members.len()
        invariant
            i <= members.len(),
            out@.len() == i,
            forall|j: int| 0 <= j < i ==> (#[trigger] out@[j])@ == members@[j]@,
        decreases members.len() - i,
    {
        out.push(Member { name: members[i].name.clone(), value: members[i].value.duplicate() });
        i += 1;
    }
    out
}

impl Clone for StructuredValue {
    fn clone(&self) -> (r: StructuredValue)
        ensures
            r@ == self@,
    {
        self.duplicate()
    }
}

impl Clone for Member {
    fn clone(&self) -> (r: Member)
        ensures
            r@ == self@,
    {
        Member { name: self.name.clone(), value: self.value.duplicate() }
    }
}

impl View for StructuredValue {
    type V = ValueModel;

    open spec fn view(&self) -> ValueModel {
        self.model()
    }
}

impl View for Member {
    type V = MemberModel;

    open spec fn view(&self) -> MemberModel {
        MemberModel { name: self.name@, value: self.value@ }
    }
}

/// The models of a list of values, in the same order.
pub open spec fn values_model(items: Seq<StructuredValue>) -> Seq<ValueModel> {
    Seq::new(items.len(), |i: int| items[i]@)
}

/// The models of a list of members, in the same order.
pub open spec fn members_model(members: Seq<Member>) -> Seq<MemberModel> {
    Seq::new(members.len(), |i: int| members[i]@)
}

/// The model of a list is the list of its items' models.
pub proof fn lemma_list_model(items: Vec<StructuredValue>)
    ensures
        StructuredValue::List(items)@ == ValueModel::List(values_model(items@)),
{
    let m = StructuredValue::List(items).model();
    assert(m->List_0 =~= values_model(items@));
}

/// The model of a record is the list of its members' models.
pub proof fn lemma_record_model(members: Vec<Member>)
    ensures
        StructuredValue::Record(members)@ == ValueModel::Record(members_model(members@)),
{
    let m = StructuredValue::Record(members).model();
    assert(m->Record_0 =~= members_model(members@));
}

} // verus!
