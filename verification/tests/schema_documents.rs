use vista::error::{AnchorError, IndexerError};
use vista::indexer::Indexer;
use vista::parser::AnchorParser;
use vista::providers::GeyserRpcProvider;
use vista::registry::RpcProviderRegistry;
use vista::schema::{AccountType, Field, FieldType, ProgramSchema};
use vista::schema_json::{
    account_from_json, field_from_json, field_type_from_json, field_type_from_name, schema_from_json,
};

fn document(text: &str) -> serde_json::Value {
    serde_json::from_str(text).unwrap()
}

fn field(name: &str, ty: FieldType) -> Field {
    Field { name: name.to_string(), ty }
}

#[test]
fn tag_names_stand_for_their_types() {
    assert_eq!(field_type_from_name("bool"), FieldType::Bool);
    assert_eq!(field_type_from_name("u8"), FieldType::U8);
    assert_eq!(field_type_from_name("u16"), FieldType::U16);
    assert_eq!(field_type_from_name("u32"), FieldType::U32);
    assert_eq!(field_type_from_name("u64"), FieldType::U64);
    assert_eq!(field_type_from_name("i8"), FieldType::I8);
    assert_eq!(field_type_from_name("i16"), FieldType::I16);
    assert_eq!(field_type_from_name("i32"), FieldType::I32);
    assert_eq!(field_type_from_name("i64"), FieldType::I64);
    assert_eq!(field_type_from_name("string"), FieldType::Text);
    assert_eq!(field_type_from_name("publicKey"), FieldType::Unsupported("publicKey".to_string()));
    assert_eq!(field_type_from_name("Bool"), FieldType::Unsupported("Bool".to_string()));
    assert_eq!(field_type_from_name(""), FieldType::Unsupported(String::new()));
}

#[test]
fn composite_types_are_objects_with_one_telling_member() {
    assert_eq!(
        field_type_from_json(&document(r#"{"vec": "u8"}"#)),
        Some(FieldType::List(Box::new(FieldType::U8)))
    );
    assert_eq!(
        field_type_from_json(&document(r#"{"option": {"vec": "string"}}"#)),
        Some(FieldType::Optional(Box::new(FieldType::List(Box::new(FieldType::Text)))))
    );
    assert_eq!(
        field_type_from_json(&document(r#"{"array": ["i16", 4]}"#)),
        Some(FieldType::Array(Box::new(FieldType::I16), 4))
    );
    assert_eq!(
        field_type_from_json(&document(r#"{"defined": "Point"}"#)),
        Some(FieldType::Unsupported("Point".to_string()))
    );
    assert_eq!(
        field_type_from_json(&document(
            r#"{"struct": {"name": "Point", "fields": [{"name": "x", "type": "i32"}, {"name": "y", "type": "i32"}]}}"#
        )),
        Some(FieldType::Record(
            "Point".to_string(),
            vec![field("x", FieldType::I32), field("y", FieldType::I32)]
        ))
    );
    assert_eq!(field_type_from_json(&document(r#""u64""#)), Some(FieldType::U64));
}

#[test]
fn documents_that_describe_no_type_are_refused() {
    for text in [
        "null",
        "true",
        "7",
        "[]",
        "{}",
        r#"{"list": "u8"}"#,
        r#"{"vec": 7}"#,
        r#"{"option": {}}"#,
        r#"{"array": "u8"}"#,
        r#"{"array": ["u8"]}"#,
        r#"{"array": ["u8", 2, 3]}"#,
        r#"{"array": ["u8", -1]}"#,
        r#"{"array": ["u8", 1.5]}"#,
        r#"{"array": ["u8", "2"]}"#,
        r#"{"array": [{}, 2]}"#,
        r#"{"struct": "Point"}"#,
        r#"{"struct": {"name": "Point"}}"#,
        r#"{"struct": {"fields": []}}"#,
        r#"{"struct": {"name": 1, "fields": []}}"#,
        r#"{"struct": {"name": "Point", "fields": {}}}"#,
        r#"{"struct": {"name": "Point", "fields": [{"name": "x"}]}}"#,
        r#"{"defined": 3}"#,
    ] {
        assert_eq!(field_type_from_json(&document(text)), None, "{}", text);
    }
}

#[test]
fn the_first_telling_member_decides() {
    assert_eq!(
        field_type_from_json(&document(r#"{"option": "u8", "vec": "bool"}"#)),
        Some(FieldType::List(Box::new(FieldType::Bool)))
    );
    assert_eq!(field_type_from_json(&document(r#"{"defined": "A", "vec": 1}"#)), None);
}

#[test]
fn a_field_is_a_name_and_a_type() {
    assert_eq!(
        field_from_json(&document(r#"{"name": "count", "type": "u8", "docs": ["a counter"]}"#)),
        Some(field("count", FieldType::U8))
    );
    assert_eq!(field_from_json(&document(r#"{"name": "count"}"#)), None);
    assert_eq!(field_from_json(&document(r#"{"type": "u8"}"#)), None);
    assert_eq!(field_from_json(&document(r#"{"name": 1, "type": "u8"}"#)), None);
    assert_eq!(field_from_json(&document(r#"{"name": "count", "type": 8}"#)), None);
    assert_eq!(field_from_json(&document(r#"["count", "u8"]"#)), None);
}

#[test]
fn an_account_type_is_a_name_and_fields_in_order() {
    assert_eq!(
        account_from_json(&document(
            r#"{"name": "Counter", "fields": [{"name": "count", "type": "u8"}, {"name": "flag", "type": "bool"}]}"#
        )),
        Some(AccountType {
            name: "Counter".to_string(),
            fields: vec![field("count", FieldType::U8), field("flag", FieldType::Bool)]
        })
    );
    assert_eq!(
        account_from_json(&document(r#"{"name": "Empty", "fields": []}"#)),
        Some(AccountType { name: "Empty".to_string(), fields: Vec::new() })
    );
    assert_eq!(account_from_json(&document(r#"{"name": "Counter"}"#)), None);
    assert_eq!(account_from_json(&document(r#"{"name": "Counter", "fields": [7]}"#)), None);
}

#[test]
fn a_schema_is_a_list_of_account_types() {
    let schema = schema_from_json(&document(
        r#"{"accounts": [
            {"name": "A", "fields": [{"name": "x", "type": "u8"}]},
            {"name": "B", "fields": []}]}"#,
    ))
    .unwrap();
    assert_eq!(
        schema,
        ProgramSchema {
            accounts: vec![
                AccountType { name: "A".to_string(), fields: vec![field("x", FieldType::U8)] },
                AccountType { name: "B".to_string(), fields: Vec::new() },
            ]
        }
    );
    assert_eq!(schema.find_account("B").map(|a| a.fields.len()), Some(0));
    assert_eq!(schema.find_account("C"), None);
    assert_eq!(schema_from_json(&document(r#"{"accounts": []}"#)), Some(ProgramSchema { accounts: Vec::new() }));
    assert_eq!(schema_from_json(&document(r#"{}"#)), None);
    assert_eq!(schema_from_json(&document(r#"{"accounts": {}}"#)), None);
    assert_eq!(schema_from_json(&document(r#"{"accounts": [{"name": "A"}]}"#)), None);
    assert_eq!(schema_from_json(&document(r#"[]"#)), None);
}

#[test]
fn of_two_account_types_of_one_name_the_first_is_found() {
    let schema = schema_from_json(&document(
        r#"{"accounts": [
            {"name": "A", "fields": [{"name": "x", "type": "u8"}]},
            {"name": "A", "fields": []}]}"#,
    ))
    .unwrap();
    assert_eq!(schema.find_account("A").map(|a| a.fields.len()), Some(1));
}

#[test]
fn a_text_that_is_no_schema_is_refused_and_changes_nothing() {
    let mut parser = AnchorParser::new();
    parser.add_idl("prog", r#"{"accounts": []}"#).unwrap();
    assert!(parser.has_schema("prog"));
    assert!(matches!(parser.add_idl("prog", "{not json"), Err(AnchorError::IdlParseError(_))));
    assert_eq!(
        parser.add_idl("other", r#"{"instructions": []}"#),
        Err(AnchorError::IdlParseError(
            "the document does not have the shape of a schema".to_string()
        ))
    );
    assert!(parser.has_schema("prog"));
    assert!(!parser.has_schema("other"));
}

#[test]
fn the_indexer_reports_a_refused_schema_as_its_own_error() {
    let registry: RpcProviderRegistry<GeyserRpcProvider> = RpcProviderRegistry::new();
    let mut indexer = Indexer::new(registry);
    assert_eq!(
        indexer.add_program_idl("prog", "[]"),
        Err(IndexerError::AnchorError(
            "IDL parsing error: the document does not have the shape of a schema".to_string()
        ))
    );
    assert!(!indexer.parser().has_schema("prog"));
    assert_eq!(indexer.add_program_idl("prog", r#"{"accounts": []}"#), Ok(()));
    assert!(indexer.parser().has_schema("prog"));
}
