//! Program schemas: for each program, the account types it defines and the
//! ordered, typed fields of each.

use vstd::prelude::*;
use crate::text::str_eq;

verus! {

/// The type tag of one field of an account layout.
#[derive(Debug, PartialEq, Eq)]
pub enum FieldType {
    /// One byte; zero is `false`, anything else `true`.
    Bool,
    U8,
    U16,
    U32,
    U64,
    I8,
    I16,
    I32,
    I64,
    /// A 32-bit length, then that many bytes of UTF-8 text.
    Text,
    /// A 32-bit element count, then the elements.
    List(Box<FieldType>),
    /// A fixed number of elements, with no count in the payload.
    Array(Box<FieldType>, usize),
    /// One presence byte, then the value if the byte is not zero.
    Optional(Box<FieldType>),
    /// A named group of fields, laid out one after the other.
    Record(String, Vec<Field>),
    /// A tag that a schema may carry but for which there is no decoding rule.
    Unsupported(String),
}

/// A named, typed field.
#[derive(Debug, PartialEq, Eq)]
pub struct Field {
    pub name: String,
    pub ty: FieldType,
}

/// One account type of a program: its name and its fields in layout order.
#[derive(Debug, PartialEq, Eq)]
pub struct AccountType {
    pub name: String,
    pub fields: Vec<Field>,
}

/// The account types that one program defines, in declaration order.
#[derive(Debug, PartialEq, Eq)]
pub struct ProgramSchema {
    pub accounts: Vec<AccountType>,
}

/// The mathematical counterpart of [`FieldType`].
pub enum TypeModel {
    Bool,
    /// An unsigned integer of the given width in bytes.
    Unsigned(nat),
    /// A two's complement integer of the given width in bytes.
    Signed(nat),
    Text,
    List(Box<TypeModel>),
    Array(Box<TypeModel>, nat),
    Optional(Box<TypeModel>),
    Record(Seq<char>, Seq<FieldModel>),
    Unsupported(Seq<char>),
}

/// The mathematical counterpart of [`Field`].
pub struct FieldModel {
    pub name: Seq<char>,
    pub ty: TypeModel,
}

/// The mathematical counterpart of [`AccountType`].
pub struct AccountTypeModel {
    pub name: Seq<char>,
    pub fields: Seq<FieldModel>,
}

/// The mathematical counterpart of [`ProgramSchema`].
pub struct SchemaModel {
    pub accounts: Seq<AccountTypeModel>,
}

impl FieldType {
    /// The type as a mathematical value.
    pub open spec fn model(&self) -> TypeModel
        decreases self,
    {
        match self {
            FieldType::Bool => TypeModel::Bool,
            FieldType::U8 => TypeModel::Unsigned(1),
            FieldType::U16 => TypeModel::Unsigned(2),
            FieldType::U32 => TypeModel::Unsigned(4),
            FieldType::U64 => TypeModel::Unsigned(8),
            FieldType::I8 => TypeModel::Signed(1),
            FieldType::I16 => TypeModel::Signed(2),
            FieldType::I32 => TypeModel::Signed(4),
            FieldType::I64 => TypeModel::Signed(8),
            FieldType::Text => TypeModel::Text,
            FieldType::List(inner) => TypeModel::List(Box::new(inner.model())),
            FieldType::Array(inner, n) => TypeModel::Array(Box::new(inner.model()), *n as nat),
            FieldType::Optional(inner) => TypeModel::Optional(Box::new(inner.model())),
            FieldType::Record(name, fields) => TypeModel::Record(
                name@,
                Seq::new(
                    fields.len() as nat,
                    |i: int|
                        if 0 <= i < fields.len() {
                            FieldModel { name: fields[i].name@, ty: fields[i].ty.model() }
                        } else {
                            FieldModel { name: Seq::empty(), ty: TypeModel::Bool }
                        },
                ),
            ),
            FieldType::Unsupported(tag) => TypeModel::Unsupported(tag@),
        }
    }
}

impl FieldType {
    /// A copy of the type.
    pub fn duplicate(&self) -> (r: FieldType)
        ensures
            r@ == self@,
        decreases self, 0nat,
    {
        match self {
            FieldType::Bool => FieldType::Bool,
            FieldType::U8 => FieldType::U8,
            FieldType::U16 => FieldType::U16,
            FieldType::U32 => FieldType::U32,
            FieldType::U64 => FieldType::U64,
            FieldType::I8 => FieldType::I8,
            FieldType::I16 => FieldType::I16,
            FieldType::I32 => FieldType::I32,
            FieldType::I64 => FieldType::I64,
            FieldType::Text => FieldType::Text,
            FieldType::List(inner) => FieldType::List(Box::new(inner.duplicate())),
            FieldType::Array(inner, n) => FieldType::Array(Box::new(inner.duplicate()), *n),
            FieldType::Optional(inner) => FieldType::Optional(Box::new(inner.duplicate())),
            FieldType::Record(name, fields) => {
                let copies = duplicate_fields(fields);
                let label = name.clone();
                proof {
                    lemma_record_model(label, copies);
                    lemma_record_model(*name, *fields);
                }
                FieldType::Record(label, copies)
            },
            FieldType::Unsupported(tag) => FieldType::Unsupported(tag.clone()),
        }
    }
}

/// Copies of the fields, in the same order.
pub fn duplicate_fields(fields: &Vec<Field>) -> (r: Vec<Field>)
    ensures
        fields_model(r@) == fields_model(fields@),
    decreases fields, 1nat,
{
    let mut out: Vec<Field> = Vec::new();
    let mut i: usize = 0;
    while i < fields.len()
        invariant
            i <= fields.len(),
            out@.len() == i,
            forall|j: int| 0 <= j < i ==> (#[trigger] out@[j])@ == fields@[j]@,
        decreases fields.len() - i,
    {
        out.push(Field { name: fields[i].name.clone(), ty: fields[i].ty.duplicate() });
        i += 1;
    }
    out
}

impl Clone for FieldType {
    fn clone(&self) -> (r: FieldType)
        ensures
            r@ == self@,
    {
        self.duplicate()
    }
}

impl Clone for Field {
    fn clone(&self) -> (r: Field)
        ensures
            r@ == self@,
    {
        Field { name: self.name.clone(), ty: self.ty.duplicate() }
    }
}

impl Clone for AccountType {
    fn clone(&self) -> (r: AccountType)
        ensures
            r@ == self@,
    {
        AccountType { name: self.name.clone(), fields: duplicate_fields(&self.fields) }
    }
}

impl Clone for ProgramSchema {
    fn clone(&self) -> (r: ProgramSchema)
        ensures
            r@ == self@,
    {
        let mut accounts: Vec<AccountType> = Vec::new();
        let mut i: usize = 0;
        while i < self.accounts.len()
            invariant
                i <= self.accounts.len(),
                accounts@.len() == i,
                forall|j: int| 0 <= j < i ==> (#[trigger] accounts@[j])@ == self.accounts@[j]@,
            decreases self.accounts.len() - i,
        {
            accounts.push(self.accounts[i].clone());
            i += 1;
        }
        let r = ProgramSchema { accounts };
        assert(r@.accounts =~= self@.accounts);
        r
    }
}

impl View for FieldType {
    type V = TypeModel;

    open spec fn view(&self) -> TypeModel {
        self.model()
    }
}

impl View for Field {
    type V = FieldModel;

    open spec fn view(&self) -> FieldModel {
        FieldModel { name: self.name@, ty: self.ty@ }
    }
}

/// The models of a list of fields, in the same order.
pub open spec fn fields_model(fields: Seq<Field>) -> Seq<FieldModel> {
    Seq::new(fields.len(), |i: int| fields[i]@)
}

impl View for AccountType {
    type V = AccountTypeModel;

    open spec fn view(&self) -> AccountTypeModel {
        AccountTypeModel { name: self.name@, fields: fields_model(self.fields@) }
    }
}

impl View for ProgramSchema {
    type V = SchemaModel;

    open spec fn view(&self) -> SchemaModel {
        SchemaModel { accounts: Seq::new(self.accounts@.len(), |i: int| self.accounts@[i]@) }
    }
}

/// The fields of a record type, as its model lists them, are the models of
/// the fields that the type holds.
pub proof fn lemma_record_model(name: String, fields: Vec<Field>)
    ensures
        FieldType::Record(name, fields).model() == TypeModel::Record(
            name@,
            fields_model(fields@),
        ),
{
    let m = FieldType::Record(name, fields).model();
    assert(m->Record_1 =~= fields_model(fields@));
}

impl SchemaModel {
    /// The first account type of that name, if the schema defines one.
    pub open spec fn find(self, name: Seq<char>) -> Option<AccountTypeModel> {
        self.find_from(name, 0)
    }

    /// The first account type of that name at or after position `i`.
    pub open spec fn find_from(self, name: Seq<char>, i: nat) -> Option<AccountTypeModel>
        decreases self.accounts.len() - i,
    {
        if i >= self.accounts.len() {
            None
        } else if self.accounts[i as int].name == name {
            Some(self.accounts[i as int])
        } else {
            self.find_from(name, i + 1)
        }
    }
}

impl ProgramSchema {
    /// Looks an account type up by name; the first of that name wins.
    pub fn find_account(&self, name: &str) -> (r: Option<&AccountType>)
        ensures
            match r {
                Some(a) => self@.find(name@) == Some(a@),
                None => self@.find(name@) is None,
            },
    {
        let mut i: usize = 0;
        while i < self.accounts.len()
            invariant
                i <= self.accounts.len(),
                self@.find(name@) == self@.find_from(name@, i as nat),
            decreases self.accounts.len() - i,
        {
            if str_eq(self.accounts[i].name.as_str(), name) {
                return Some(&self.accounts[i]);
            }
            i += 1;
        }
        None
    }
}

} // verus!
