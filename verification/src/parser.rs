//! The schema registry and the decoder that works from it.

use vstd::prelude::*;
use crate::decode::{decode_payload, payload_value};
use crate::error::{AnchorError, DecodeError};
use crate::json::{json_error_text, json_of_text, json_parse};
use crate::schema::{ProgramSchema, SchemaModel, fields_model};
use crate::schema_json::{schema_from_json, schema_of_json};
use crate::table::NameTable;
use crate::value::{StructuredValue, ValueModel};
use vstd::string::StringExecFns;

verus! {

/// The schema that a text describes: the text is read as JSON, the document
/// as a schema. Nothing where either fails.
pub open spec fn schema_of_text(text: Seq<char>) -> Option<SchemaModel> {
    match json_of_text(text) {
        Some(document) => schema_of_json(document),
        None => None,
    }
}

/// What decoding `data` as the account type `account_type` of the program
/// `program_id` gives, with the given schemas registered.
pub open spec fn decoded(
    schemas: Map<Seq<char>, SchemaModel>,
    program_id: Seq<char>,
    account_type: Seq<char>,
    data: Seq<u8>,
) -> Result<ValueModel, DecodeError> {
    if !schemas.contains_key(program_id) {
        Err(DecodeError::NotFound)
    } else {
        match schemas[program_id].find(account_type) {
            Some(account) => payload_value(account.fields, data),
            None => Err(DecodeError::NotFound),
        }
    }
}

/// Decoding depends on nothing but the fields of the account type asked for
/// and the bytes of the payload: where two registries agree on that account
/// type, they give the same value or the same failure for the same payload.
pub proof fn law_decoding_is_a_function(
    first: Map<Seq<char>, SchemaModel>,
    second: Map<Seq<char>, SchemaModel>,
    program_id: Seq<char>,
    account_type: Seq<char>,
    data: Seq<u8>,
)
    requires
        first.contains_key(program_id) == second.contains_key(program_id),
        first.contains_key(program_id) ==> {
            let a = first[program_id].find(account_type);
            let b = second[program_id].find(account_type);
            (a is Some) == (b is Some) && (a is Some ==> a->Some_0.fields == b->Some_0.fields)
        },
    ensures
        decoded(first, program_id, account_type, data) == decoded(
            second,
            program_id,
            account_type,
            data,
        ),
{
}

/// The schemas of the programs whose accounts are to be decoded, by program
/// id. A program has at most one schema; a later one replaces an earlier.
pub struct AnchorParser {
    idls: NameTable<ProgramSchema>,
}

impl View for AnchorParser {
    type V = Map<Seq<char>, SchemaModel>;

    closed spec fn view(&self) -> Map<Seq<char>, SchemaModel> {
        self.idls.as_map().map_values(|s: ProgramSchema| s@)
    }
}

impl AnchorParser {
    /// A parser that knows no schema.
    pub fn new() -> (p: Self)
        ensures
            p@ == Map::<Seq<char>, SchemaModel>::empty(),
    {
        let p = AnchorParser { idls: NameTable::new() };
        p
    }

    /// Whether a schema is registered for the program.
    pub fn has_schema(&self, program_id: &str) -> (r: bool)
        ensures
            r == self@.contains_key(program_id@),
    {
        self.idls.get(program_id).is_some()
    }

    /// Registers `schema` for the program, in place of any it had.
    pub fn add_schema(&mut self, program_id: &str, schema: ProgramSchema)
        ensures
            final(self)@ == old(self)@.insert(program_id@, schema@),
    {
        let _ = self.idls.put(program_id.to_owned(), schema);
    }

    /// Registers the schema that `idl_json` describes for the program, in
    /// place of any it had. A text that is no JSON document, or a document
    /// that is no schema, is refused and changes nothing.
    pub fn add_idl(&mut self, program_id: &str, idl_json: &str) -> (r: Result<(), AnchorError>)
        ensures
            match r {
                Ok(()) => schema_of_text(idl_json@) matches Some(schema) && final(self)@ == old(
                    self,
                )@.insert(program_id@, schema),
                Err(e) => schema_of_text(idl_json@) is None && final(self)@ == old(self)@
                    && e is IdlParseError,
            },
    {
        let document = match json_parse(idl_json) {
            Ok(document) => document,
            Err(e) => {
                return Err(AnchorError::IdlParseError(json_error_text(&e)));
            },
        };
        match schema_from_json(&document) {
            Some(schema) => {
                self.add_schema(program_id, schema);
                Ok(())
            },
            None => Err(
                AnchorError::IdlParseError(
                    String::from_str("the document does not have the shape of a schema"),
                ),
            ),
        }
    }

    /// Decodes an account payload as the named account type of the program.
    ///
    /// Fails with `NotFound` where the program has no schema or the schema no
    /// such account type; with `Truncated` where the payload is shorter than
    /// its discriminator or ends inside a field; with `UnsupportedType` and
    /// `MalformedLength` as the fields' types and the payload's length
    /// prefixes give cause. There is no partial result.
    pub fn parse_account_data(&self, program_id: &str, account_type: &str, data: &[u8]) -> (r:
        Result<StructuredValue, DecodeError>)
        ensures
            match r {
                Ok(v) => decoded(self@, program_id@, account_type@, data@) == Ok::<
                    ValueModel,
                    DecodeError,
                >(v@),
                Err(e) => decoded(self@, program_id@, account_type@, data@) == Err::<
                    ValueModel,
                    DecodeError,
                >(e),
            },
    {
        let schema = match self.idls.get(program_id) {
            Some(schema) => schema,
            None => {
                return Err(DecodeError::NotFound);
            },
        };
        let account = match schema.find_account(account_type) {
            Some(account) => account,
            None => {
                return Err(DecodeError::NotFound);
            },
        };
        decode_payload(&account.fields, data)
    }
}

} // verus!
