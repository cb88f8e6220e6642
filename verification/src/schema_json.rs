//! Schemas as JSON documents.
//!
//! A schema document is `{"accounts": [{"name": .., "fields": [{"name": ..,
//! "type": ..}]}]}`. A type is a tag name (`"bool"`, `"u8"` to `"u64"`, `"i8"`
//! to `"i64"`, `"string"`) or one of `{"vec": T}`, `{"option": T}`,
//! `{"array": [T, n]}`, `{"struct": {"name": .., "fields": [..]}}` and
//! `{"defined": name}`. Any other tag name, and every `defined` type, is kept
//! as a type without a decoding rule. Members that the shape does not name
//! are ignored.

use vstd::prelude::*;
use crate::json::{JsonModel, json_as_array, json_as_str, json_as_u64, json_get, json_model, json_models};
use crate::schema::{
    AccountType, AccountTypeModel, Field, FieldModel, FieldType, ProgramSchema, SchemaModel,
    TypeModel, fields_model,
};
use crate::text::str_eq;

verus! {

/// `item`, then what `rest` holds; nothing where `rest` is nothing.
pub open spec fn before<T>(item: T, rest: Option<Seq<T>>) -> Option<Seq<T>> {
    match rest {
        Some(more) => Some(seq![item] + more),
        None => None,
    }
}

/// `items`, then what `rest` holds; nothing where `rest` is nothing.
pub open spec fn followed<T>(items: Seq<T>, rest: Option<Seq<T>>) -> Option<Seq<T>> {
    match rest {
        Some(more) => Some(items + more),
        None => None,
    }
}

/// The type that a tag name stands for.
pub open spec fn type_of_name(name: Seq<char>) -> TypeModel {
    if name == "bool"@ {
        TypeModel::Bool
    } else if name == "u8"@ {
        TypeModel::Unsigned(1)
    } else if name == "u16"@ {
        TypeModel::Unsigned(2)
    } else if name == "u32"@ {
        TypeModel::Unsigned(4)
    } else if name == "u64"@ {
        TypeModel::Unsigned(8)
    } else if name == "i8"@ {
        TypeModel::Signed(1)
    } else if name == "i16"@ {
        TypeModel::Signed(2)
    } else if name == "i32"@ {
        TypeModel::Signed(4)
    } else if name == "i64"@ {
        TypeModel::Signed(8)
    } else if name == "string"@ {
        TypeModel::Text
    } else {
        TypeModel::Unsupported(name)
    }
}

/// The type that a JSON document describes, if it describes one.
pub open spec fn type_of_json(j: JsonModel) -> Option<TypeModel>
    decreases j, 0nat,
{
    match j {
        JsonModel::Text(name) => Some(type_of_name(name)),
        JsonModel::Object(m) => if m.contains_key("vec"@) {
            match type_of_json(m["vec"@]) {
                Some(inner) => Some(TypeModel::List(Box::new(inner))),
                None => None,
            }
        } else if m.contains_key("option"@) {
            match type_of_json(m["option"@]) {
                Some(inner) => Some(TypeModel::Optional(Box::new(inner))),
                None => None,
            }
        } else if m.contains_key("array"@) {
            match m["array"@] {
                JsonModel::Array(parts) => if parts.len() == 2 {
                    match (type_of_json(parts[0]), parts[1]) {
                        (Some(inner), JsonModel::Number(Some(n))) => if n <= usize::MAX {
                            Some(TypeModel::Array(Box::new(inner), n as nat))
                        } else {
                            None
                        },
                        _ => None,
                    }
                } else {
                    None
                },
                _ => None,
            }
        } else if m.contains_key("struct"@) {
            match m["struct"@] {
                JsonModel::Object(s) => if s.contains_key("name"@) && s.contains_key("fields"@) {
                    match (s["name"@], s["fields"@]) {
                        (JsonModel::Text(name), JsonModel::Array(items)) => match fields_of_json(
                            items,
                            0,
                        ) {
                            Some(fields) => Some(TypeModel::Record(name, fields)),
                            None => None,
                        },
                        _ => None,
                    }
                } else {
                    None
                },
                _ => None,
            }
        } else if m.contains_key("defined"@) {
            match m["defined"@] {
                JsonModel::Text(name) => Some(TypeModel::Unsupported(name)),
                _ => None,
            }
        } else {
            None
        },
        _ => None,
    }
}

/// The field that a JSON document describes, if it describes one.
pub open spec fn field_of_json(j: JsonModel) -> Option<FieldModel>
    decreases j, 1nat,
{
    match j {
        JsonModel::Object(m) => if m.contains_key("name"@) && m.contains_key("type"@) {
            match (m["name"@], type_of_json(m["type"@])) {
                (JsonModel::Text(name), Some(ty)) => Some(FieldModel { name, ty }),
                _ => None,
            }
        } else {
            None
        },
        _ => None,
    }
}

/// The fields that the documents from position `from` on describe, if each
/// of them describes one.
pub open spec fn fields_of_json(items: Seq<JsonModel>, from: nat) -> Option<Seq<FieldModel>>
    decreases items, items.len() - from,
{
    if from >= items.len() {
        Some(Seq::empty())
    } else {
        match field_of_json(items[from as int]) {
            Some(f) => before(f, fields_of_json(items, from + 1)),
            None => None,
        }
    }
}

/// The account type that a JSON document describes, if it describes one.
pub open spec fn account_of_json(j: JsonModel) -> Option<AccountTypeModel> {
    match j {
        JsonModel::Object(m) => if m.contains_key("name"@) && m.contains_key("fields"@) {
            match (m["name"@], m["fields"@]) {
                (JsonModel::Text(name), JsonModel::Array(items)) => match fields_of_json(items, 0) {
                    Some(fields) => Some(AccountTypeModel { name, fields }),
                    None => None,
                },
                _ => None,
            }
        } else {
            None
        },
        _ => None,
    }
}

/// The account types that the documents from position `from` on describe, if
/// each of them describes one.
pub open spec fn accounts_of_json(items: Seq<JsonModel>, from: nat) -> Option<
    Seq<AccountTypeModel>,
>
    decreases items.len() - from,
{
    if from >= items.len() {
        Some(Seq::empty())
    } else {
        match account_of_json(items[from as int]) {
            Some(a) => before(a, accounts_of_json(items, from + 1)),
            None => None,
        }
    }
}

/// The schema that a JSON document describes, if it describes one.
pub open spec fn schema_of_json(j: JsonModel) -> Option<SchemaModel> {
    match j {
        JsonModel::Object(m) => if m.contains_key("accounts"@) {
            match m["accounts"@] {
                JsonModel::Array(items) => match accounts_of_json(items, 0) {
                    Some(accounts) => Some(SchemaModel { accounts }),
                    None => None,
                },
                _ => None,
            }
        } else {
            None
        },
        _ => None,
    }
}

/// One more item at the end of what came first is one more item before the
/// rest.
pub proof fn lemma_followed_push<T>(items: Seq<T>, item: T, rest: Option<Seq<T>>)
    ensures
        followed(items, before(item, rest)) == followed(items.push(item), rest),
{
    match rest {
        Some(more) => {
            assert(items + (seq![item] + more) =~= items.push(item) + more);
        },
        None => {},
    }
}

/// The type that a tag name stands for.
pub fn field_type_from_name(name: &str) -> (r: FieldType)
    ensures
        r@ == type_of_name(name@),
{
    if str_eq(name, "bool") {
        FieldType::Bool
    } else if str_eq(name, "u8") {
        FieldType::U8
    } else if str_eq(name, "u16") {
        FieldType::U16
    } else if str_eq(name, "u32") {
        FieldType::U32
    } else if str_eq(name, "u64") {
        FieldType::U64
    } else if str_eq(name, "i8") {
        FieldType::I8
    } else if str_eq(name, "i16") {
        FieldType::I16
    } else if str_eq(name, "i32") {
        FieldType::I32
    } else if str_eq(name, "i64") {
        FieldType::I64
    } else if str_eq(name, "string") {
        FieldType::Text
    } else {
        FieldType::Unsupported(name.to_owned())
    }
}

/// Reads a type from a JSON document.
pub fn field_type_from_json(v: &serde_json::Value) -> (r: Option<FieldType>)
    ensures
        match r {
            Some(ty) => type_of_json(json_model(*v)) == Some(ty@),
            None => type_of_json(json_model(*v)) is None,
        },
    decreases json_model(*v), 0nat,
{
    if let Some(name) = json_as_str(v) {
        return Some(field_type_from_name(name));
    }
    if let Some(inner) = json_get(v, "vec") {
        return match field_type_from_json(inner) {
            Some(ty) => Some(FieldType::List(Box::new(ty))),
            None => None,
        };
    }
    if let Some(inner) = json_get(v, "option") {
        return match field_type_from_json(inner) {
            Some(ty) => Some(FieldType::Optional(Box::new(ty))),
            None => None,
        };
    }
    if let Some(pair) = json_get(v, "array") {
        let parts = match json_as_array(pair) {
            Some(parts) => parts,
            None => {
                return None;
            },
        };
        if parts.len() != 2 {
            return None;
        }
        let inner = match field_type_from_json(&parts[0]) {
            Some(inner) => inner,
            None => {
                return None;
            },
        };
        return match json_as_u64(&parts[1]) {
            Some(n) => if n <= usize::MAX as u64 {
                Some(FieldType::Array(Box::new(inner), n as usize))
            } else {
                None
            },
            None => None,
        };
    }
    if let Some(body) = json_get(v, "struct") {
        let name = match json_get(body, "name") {
            Some(name) => name,
            None => {
                return None;
            },
        };
        let list = match json_get(body, "fields") {
            Some(list) => list,
            None => {
                return None;
            },
        };
        let name = match json_as_str(name) {
            Some(name) => name,
            None => {
                return None;
            },
        };
        let items = match json_as_array(list) {
            Some(items) => items,
            None => {
                return None;
            },
        };
        return match fields_from_json(items) {
            Some(fields) => {
                let name = name.to_owned();
                proof {
                    crate::schema::lemma_record_model(name, fields);
                }
                Some(FieldType::Record(name, fields))
            },
            None => None,
        };
    }
    if let Some(name) = json_get(v, "defined") {
        return match json_as_str(name) {
            Some(name) => Some(FieldType::Unsupported(name.to_owned())),
            None => None,
        };
    }
    None
}

/// Reads a field from a JSON document.
pub fn field_from_json(v: &serde_json::Value) -> (r: Option<Field>)
    ensures
        match r {
            Some(f) => field_of_json(json_model(*v)) == Some(f@),
            None => field_of_json(json_model(*v)) is None,
        },
    decreases json_model(*v), 1nat,
{
    let name = match json_get(v, "name") {
        Some(name) => name,
        None => {
            return None;
        },
    };
    let ty = match json_get(v, "type") {
        Some(ty) => ty,
        None => {
            return None;
        },
    };
    let name = match json_as_str(name) {
        Some(name) => name,
        None => {
            return None;
        },
    };
    match field_type_from_json(ty) {
        Some(ty) => Some(Field { name: name.to_owned(), ty }),
        None => None,
    }
}

/// Reads a list of fields from a list of JSON documents.
pub fn fields_from_json(items: &Vec<serde_json::Value>) -> (r: Option<Vec<Field>>)
    ensures
        match r {
            Some(fields) => fields_of_json(json_models(items@), 0) == Some(fields_model(fields@)),
            None => fields_of_json(json_models(items@), 0) is None,
        },
    decreases json_models(items@), 0nat,
{
    let ghost docs = json_models(items@);
    let mut fields: Vec<Field> = Vec::new();
    let mut i: usize = 0;
    while i < items.len()
        invariant
            i <= items.len(),
            docs == json_models(items@),
            fields_of_json(docs, 0) == followed(
                fields_model(fields@),
                fields_of_json(docs, i as nat),
            ),
        decreases items.len() - i,
    {
        match field_from_json(&items[i]) {
            Some(f) => {
                proof {
                    lemma_followed_push(
                        fields_model(fields@),
                        f@,
                        fields_of_json(docs, (i + 1) as nat),
                    );
                }
                fields.push(f);
                i += 1;
            },
            None => {
                return None;
            },
        }
    }
    Some(fields)
}

/// The models of a list of account types, in the same order.
pub open spec fn accounts_model(accounts: Seq<AccountType>) -> Seq<AccountTypeModel> {
    Seq::new(accounts.len(), |i: int| accounts[i]@)
}

/// Reads an account type from a JSON document.
pub fn account_from_json(v: &serde_json::Value) -> (r: Option<AccountType>)
    ensures
        match r {
            Some(a) => account_of_json(json_model(*v)) == Some(a@),
            None => account_of_json(json_model(*v)) is None,
        },
{
    let name = match json_get(v, "name") {
        Some(name) => name,
        None => {
            return None;
        },
    };
    let list = match json_get(v, "fields") {
        Some(list) => list,
        None => {
            return None;
        },
    };
    let name = match json_as_str(name) {
        Some(name) => name,
        None => {
            return None;
        },
    };
    let items = match json_as_array(list) {
        Some(items) => items,
        None => {
            return None;
        },
    };
    match fields_from_json(items) {
        Some(fields) => Some(AccountType { name: name.to_owned(), fields }),
        None => None,
    }
}

/// Reads a list of account types from a list of JSON documents.
pub fn accounts_from_json(items: &Vec<serde_json::Value>) -> (r: Option<Vec<AccountType>>)
    ensures
        match r {
            Some(accounts) => accounts_of_json(json_models(items@), 0) == Some(
                accounts_model(accounts@),
            ),
            None => accounts_of_json(json_models(items@), 0) is None,
        },
{
    let ghost docs = json_models(items@);
    let mut accounts: Vec<AccountType> = Vec::new();
    let mut i: usize = 0;
    while i < items.len()
        invariant
            i <= items.len(),
            docs == json_models(items@),
            accounts_of_json(docs, 0) == followed(
                accounts_model(accounts@),
                accounts_of_json(docs, i as nat),
            ),
        decreases items.len() - i,
    {
        match account_from_json(&items[i]) {
            Some(a) => {
                proof {
                    lemma_followed_push(
                        accounts_model(accounts@),
                        a@,
                        accounts_of_json(docs, (i + 1) as nat),
                    );
                }
                accounts.push(a);
                i += 1;
            },
            None => {
                return None;
            },
        }
    }
    Some(accounts)
}

/// Reads a schema from a JSON document.
pub fn schema_from_json(v: &serde_json::Value) -> (r: Option<ProgramSchema>)
    ensures
        match r {
            Some(schema) => schema_of_json(json_model(*v)) == Some(schema@),
            None => schema_of_json(json_model(*v)) is None,
        },
{
    let list = match json_get(v, "accounts") {
        Some(list) => list,
        None => {
            return None;
        },
    };
    let items = match json_as_array(list) {
        Some(items) => items,
        None => {
            return None;
        },
    };
    match accounts_from_json(items) {
        Some(accounts) => {
            let schema = ProgramSchema { accounts };
            Some(schema)
        },
        None => None,
    }
}

} // verus!
