//! Schema-version gating. Every persistent file and versioned JSON surface
//! carries `"schema": "drakkar.<name>/<major>"` and evolves additive-only
//! within a major: a reader rejects a payload whose major exceeds the newest
//! it implements rather than best-effort parse it. An absent `schema` reads
//! as major 1.

use vstd::prelude::*;

use crate::error::{DkError, DkErrorView, ErrorCode, ErrorContext, error_new, error_with_context};
use crate::error::context::{CtxVal, ctx_insert};
use crate::ids::{SchemaTag, schema_tag_parse};
use crate::text::{debug_quoted, nat_decimal, push_str, push_u64, str_debug};

verus! {

/// Where a versioned payload came from, which decides how a too-new major is
/// handled.
#[derive(Clone, Copy, Debug)]
pub enum Surface<'a> {
    /// A user-owned file: a too-new major is the named hard error
    /// `config.invalid_value`.
    UserOwned {
        /// The file path, named in the error message.
        file: &'a str,
    },
    /// A reconstructible store-managed file: a too-new major is not an
    /// error; the file is regenerated on the next write.
    ReconstructibleStore,
}

/// The outcome of reading a versioned payload.
#[derive(Clone, PartialEq, Eq, Debug)]
pub enum VersionedRead<T> {
    /// The payload was within the supported major and deserialized.
    Value(T),
    /// A store-managed file was a newer major; regenerate it on next write.
    Regenerate {
        /// The major found in the file.
        found_major: u32,
        /// The newest major this build implements.
        supported_major: u32,
    },
}

/// A payload's `schema` member as `schema_gate` reads it.
#[derive(Clone, PartialEq, Eq, Debug)]
pub enum SchemaField {
    /// No `schema` member.
    Absent,
    /// A string tag.
    Text(String),
    /// Some other JSON value, by its compact JSON text.
    Other(String),
}

/// What `schema_gate` decides before any deserialization.
#[derive(Clone, Copy, PartialEq, Eq, Debug, Structural)]
pub enum Gate {
    /// Within the supported major: deserialize the payload.
    Deserialize,
    /// A newer store-managed file: regenerate it.
    Regenerate {
        /// The major found.
        found_major: u32,
        /// The newest major implemented.
        supported_major: u32,
    },
}

/// The major a `schema` string tag carries, if it is a well-formed tag.
pub fn payload_major(schema: &SchemaField) -> (r: Option<u32>)
    ensures
        schema matches SchemaField::Text(t) ==> (match schema_tag_parse(t@) {
            Some(p) => r == Some(p.1 as u32),
            None => r is None,
        }),
        !(schema is Text) ==> r is None,
{
    match schema {
        SchemaField::Text(tag) => match SchemaTag::parse(tag.as_str()) {
            Some(p) => Some(p.major),
            None => None,
        },
        _ => None,
    }
}

/// The file a surface names in errors.
pub open spec fn surface_file(surface: Surface) -> Seq<char> {
    match surface {
        Surface::UserOwned { file } => file@,
        Surface::ReconstructibleStore => "payload"@,
    }
}

/// The error for a malformed `schema` member.
pub open spec fn malformed_view(tag: Seq<char>, file: Seq<char>) -> DkErrorView {
    error_with_context(
        error_new(
            ErrorCode::ConfigInvalidValue,
            file + " has a malformed schema tag "@ + str_debug(tag)
                + "; expected \"drakkar.<name>/<major>\"."@,
        ),
        ctx_insert(
            ctx_insert(
                ctx_insert(
                    ctx_insert(Seq::empty(), "file"@, CtxVal::Str(file)),
                    "key"@,
                    CtxVal::Str("schema"@),
                ),
                "expected"@,
                CtxVal::Str("drakkar.<name>/<major>"@),
            ),
            "value"@,
            CtxVal::Str(tag),
        ),
    )
}

/// The error for a user-owned file of a newer major.
pub open spec fn too_new_view(file: Seq<char>, found: u32, supported: u32) -> DkErrorView {
    error_with_context(
        error_new(
            ErrorCode::ConfigInvalidValue,
            file + " is schema major "@ + nat_decimal(found as nat)
                + ", but this build supports up to major "@ + nat_decimal(supported as nat)
                + ". Upgrade DRAKKAR, or regenerate the file with the current version."@,
        ),
        ctx_insert(
            ctx_insert(
                ctx_insert(
                    ctx_insert(
                        ctx_insert(
                            ctx_insert(Seq::empty(), "file"@, CtxVal::Str(file)),
                            "found_major"@,
                            CtxVal::Int(found as i64),
                        ),
                        "supported_major"@,
                        CtxVal::Int(supported as i64),
                    ),
                    "key"@,
                    CtxVal::Str("schema"@),
                ),
                "expected"@,
                CtxVal::Str("major <= "@ + nat_decimal(supported as nat)),
            ),
            "value"@,
            CtxVal::Str("major "@ + nat_decimal(found as nat)),
        ),
    )
}

fn malformed_schema(tag: &str, surface: Surface) -> (r: DkError)
    ensures
        r@ == malformed_view(tag@, surface_file(surface)),
{
    let file = match surface {
        Surface::UserOwned { file } => file,
        Surface::ReconstructibleStore => "payload",
    };
    let mut m = String::new();
    push_str(&mut m, file);
    push_str(&mut m, " has a malformed schema tag ");
    let q = debug_quoted(tag);
    push_str(&mut m, q.as_str());
    push_str(&mut m, "; expected \"drakkar.<name>/<major>\".");
    DkError::new(ErrorCode::ConfigInvalidValue, m).with_context(
        ErrorContext::new().with_str("file", file).with_str("key", "schema").with_str(
            "expected",
            "drakkar.<name>/<major>",
        ).with_str("value", tag),
    )
}

fn too_new_major(file: &str, found: u32, supported: u32) -> (r: DkError)
    ensures
        r@ == too_new_view(file@, found, supported),
{
    let mut m = String::new();
    push_str(&mut m, file);
    push_str(&mut m, " is schema major ");
    push_u64(&mut m, found as u64);
    push_str(&mut m, ", but this build supports up to major ");
    push_u64(&mut m, supported as u64);
    push_str(
        &mut m,
        ". Upgrade DRAKKAR, or regenerate the file with the current version.",
    );
    let mut expected = String::new();
    push_str(&mut expected, "major <= ");
    push_u64(&mut expected, supported as u64);
    let mut value = String::new();
    push_str(&mut value, "major ");
    push_u64(&mut value, found as u64);
    DkError::new(ErrorCode::ConfigInvalidValue, m).with_context(
        ErrorContext::new().with_str("file", file).with_int("found_major", found as i64).with_int(
            "supported_major",
            supported as i64,
        ).with_str("key", "schema").with_str("expected", expected.as_str()).with_str(
            "value",
            value.as_str(),
        ),
    )
}

/// The decision of `schema_gate`: the found major (1 when absent), then either
/// deserialize, regenerate a newer store file, or the error for a newer
/// user-owned file or a malformed tag.
pub open spec fn gate_spec(schema: SchemaField, supported_major: u32, surface: Surface) -> Result<
    Gate,
    DkErrorView,
> {
    let found: Result<u32, DkErrorView> = match schema {
        SchemaField::Absent => Ok(1u32),
        SchemaField::Text(tag) => match schema_tag_parse(tag@) {
            Some(p) => Ok(p.1 as u32),
            None => Err(malformed_view(tag@, surface_file(surface))),
        },
        SchemaField::Other(text) => Err(malformed_view(text@, surface_file(surface))),
    };
    match found {
        Err(e) => Err(e),
        Ok(f) => if f > supported_major {
            match surface {
                Surface::UserOwned { file } => Err(too_new_view(file@, f, supported_major)),
                Surface::ReconstructibleStore => Ok(
                    Gate::Regenerate { found_major: f, supported_major },
                ),
            }
        } else {
            Ok(Gate::Deserialize)
        },
    }
}

/// Gates a versioned payload by its `schema` member before it is
/// deserialized.
pub fn schema_gate(schema: &SchemaField, supported_major: u32, surface: Surface) -> (r: Result<
    Gate,
    DkError,
>)
    ensures
        match gate_spec(*schema, supported_major, surface) {
            Ok(g) => r == Ok::<Gate, DkError>(g),
            Err(e) => r matches Err(x) && x@ == e,
        },
{
    let found = match schema {
        SchemaField::Absent => 1,
        SchemaField::Text(tag) => match SchemaTag::parse(tag.as_str()) {
            Some(p) => p.major,
            None => {
                return Err(malformed_schema(tag.as_str(), surface));
            },
        },
        SchemaField::Other(text) => {
            return Err(malformed_schema(text.as_str(), surface));
        },
    };
    if found > supported_major {
        match surface {
            Surface::UserOwned { file } => Err(too_new_major(file, found, supported_major)),
            Surface::ReconstructibleStore => Ok(
                Gate::Regenerate { found_major: found, supported_major },
            ),
        }
    } else {
        Ok(Gate::Deserialize)
    }
}

/// A payload within the supported major is always read, whatever its
/// surface; a newer major is never silently read.
pub proof fn lemma_gate_never_reads_a_newer_major(
    schema: SchemaField,
    supported_major: u32,
    surface: Surface,
)
    ensures
        gate_spec(schema, supported_major, surface) == Ok::<Gate, DkErrorView>(Gate::Deserialize)
            ==> match schema {
            SchemaField::Absent => 1 <= supported_major,
            SchemaField::Text(t) => schema_tag_parse(t@) matches Some(p) && p.1 <= supported_major,
            SchemaField::Other(_) => false,
        },
        schema is Absent && supported_major >= 1 ==> gate_spec(schema, supported_major, surface)
            == Ok::<Gate, DkErrorView>(Gate::Deserialize),
{
}

} // verus!
