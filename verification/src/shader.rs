//! The sources of shader modules read from a trace's data files.
//!
//! A trace stores each shader module in a data file of its own, either as
//! WGSL text or as a module serialized in RON. [`shader_source`] turns the
//! text of such a file into the source that a shader module is created from.
use vstd::prelude::*;
use std::borrow::Cow;
use wgpu_core::pipeline::ShaderModuleSource;
use ron::error::SpannedError;
use crate::plan::ShaderFormat;

verus! {

/// The source of a shader module, as `wgpu-core` takes it.
#[verifier::external_type_specification]
#[verifier::external_body]
pub struct ExShaderModuleSource<'a>(ShaderModuleSource<'a>);

/// A RON parse error with its position in the text.
#[verifier::external_type_specification]
#[verifier::external_body]
pub struct ExSpannedError(SpannedError);

/// The shader source that holds the WGSL text `code`.
pub uninterp spec fn wgsl_source(code: Seq<char>) -> ShaderModuleSource<'static>;

/// The failure of parsing `code` as a RON-serialized shader module: `None`
/// when the text parses, else the error that the parse stops with. The
/// parsed module itself is no function of the text alone: its interned
/// types sit in a hash set whose hasher each parse seeds anew.
pub uninterp spec fn ron_parse_failure(code: Seq<char>) -> Option<SpannedError>;

/// Why a shader source could not be made from a data file's text.
#[derive(Debug)]
pub enum ShaderSourceError {
    /// The text is not a RON-serialized shader module.
    Parse(SpannedError),
}

/// Wraps `code` into `ShaderModuleSource::Wgsl`, owning the text.
#[verifier::external_body]
fn wgsl_module_source(code: String) -> (r: ShaderModuleSource<'static>)
    ensures
        r == wgsl_source(code@),
{
    ShaderModuleSource::Wgsl(Cow::Owned(code))
}

/// Parses `code` with `ron::de::from_str` into a shader module, and wraps
/// it into `ShaderModuleSource::Naga`. The contract says whether the text
/// parses and, when it does not, names the error; when it does, it says that
/// the source is a parsed module and no WGSL text. It leaves the parsed
/// module itself unsaid, since two parses of one text build unequal hash
/// sets.
#[verifier::external_body]
fn parse_module_source(code: &str) -> (r: Result<ShaderModuleSource<'static>, SpannedError>)
    ensures
        r is Ok <==> ron_parse_failure(code@) is None,
        r matches Err(e) ==> ron_parse_failure(code@) == Some(e),
        r matches Ok(s) ==> forall|t: Seq<char>| #[trigger] wgsl_source(t) != s,
{
    ron::de::from_str(code).map(ShaderModuleSource::Naga)
}

/// The source of a shader module whose data file holds `code` in `format`.
pub fn shader_source(format: ShaderFormat, code: String) -> (r: Result<
    ShaderModuleSource<'static>,
    ShaderSourceError,
>)
    ensures
        format == ShaderFormat::Wgsl ==> r == Ok::<_, ShaderSourceError>(wgsl_source(code@)),
        format == ShaderFormat::Ron ==> (r is Ok <==> ron_parse_failure(code@) is None),
        format == ShaderFormat::Ron ==> (r matches Err(ShaderSourceError::Parse(e))
            ==> ron_parse_failure(code@) == Some(e)),
        format == ShaderFormat::Ron ==> (r matches Ok(s) ==> forall|t: Seq<char>|
            #[trigger] wgsl_source(t) != s),
{
    match format {
        ShaderFormat::Wgsl => Ok(wgsl_module_source(code)),
        ShaderFormat::Ron => match parse_module_source(code.as_str()) {
            Ok(source) => Ok(source),
            Err(e) => Err(ShaderSourceError::Parse(e)),
        },
    }
}

} // verus!
