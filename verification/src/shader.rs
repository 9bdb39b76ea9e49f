//! Loading cooked shader packages: decoding the bytes of a package file, and
//! picking the entry point of a stage.
//!
//! The file is read by the host. The bytes are decoded by `bincode` into the
//! renderer's own package type, which is carried here as it is.

use vstd::prelude::*;
use vstd::string::*;

verus! {

/// A shader package together with the hash of its contents.
#[verifier::external_type_specification]
#[verifier::external_body]
pub struct ExHashedShaderPackage(rafx::api::RafxHashedShaderPackage);

/// The reflection data of one entry point of a shader package.
#[verifier::external_type_specification]
#[verifier::external_body]
pub struct ExReflectedEntryPoint(rafx::api::RafxReflectedEntryPoint);

/// The graphics backend that a device runs on.
#[verifier::external_type_specification]
#[verifier::external_body]
pub struct ExApiType(rafx::api::RafxApiType);

/// What went wrong in decoding.
#[verifier::external_type_specification]
#[verifier::external_body]
pub struct ExDecodeErrorKind(bincode::ErrorKind);

/// The package that `bincode::deserialize` decodes `bytes` into, as a
/// `RafxHashedShaderPackage`; `None` where it fails.
pub uninterp spec fn decoded_shader_package(bytes: Seq<u8>) -> Option<
    rafx::api::RafxHashedShaderPackage,
>;

/// What `RafxShaderPackage::find_entry_point` finds in `package` for the
/// backend `api` under the name `name`.
pub uninterp spec fn entry_point_of(
    package: rafx::api::RafxHashedShaderPackage,
    api: rafx::api::RafxApiType,
    name: Seq<char>,
) -> Option<rafx::api::RafxReflectedEntryPoint>;

/// Whether `bytes` are the encoding of a cooked shader package.
pub open spec fn is_cooked_shader_package(bytes: Seq<u8>) -> bool {
    decoded_shader_package(bytes) is Some
}

/// Calls `bincode::deserialize` for a `RafxHashedShaderPackage`. Decoding
/// reads nothing but `bytes`, so what it gives is a function of them: the
/// contract gives that function its name and claims nothing else.
#[verifier::external_body]
fn deserialize_package(bytes: &[u8]) -> (result: Result<
    rafx::api::RafxHashedShaderPackage,
    Box<bincode::ErrorKind>,
>)
    ensures
        result is Ok <==> decoded_shader_package(bytes@) is Some,
        result is Ok ==> decoded_shader_package(bytes@) == Some(result->Ok_0),
{
    bincode::deserialize::<rafx::api::RafxHashedShaderPackage>(bytes)
}

/// Formats a decoding error with its `Debug` impl. Nothing is claimed of the
/// text.
#[verifier::external_body]
fn describe_decode_error(error: &Box<bincode::ErrorKind>) -> String {
    format!("{:?}", error)
}

/// Calls `RafxShaderPackage::find_entry_point` on the package, and clones
/// what it finds. The search reads nothing but the package, the backend and
/// the name, so what it finds is a function of them: the contract gives that
/// function its name and claims nothing else.
#[verifier::external_body]
fn find_entry_point(
    package: &rafx::api::RafxHashedShaderPackage,
    api: rafx::api::RafxApiType,
    entry_point_name: &str,
) -> (found: Option<rafx::api::RafxReflectedEntryPoint>)
    ensures
        found == entry_point_of(*package, api, entry_point_name@),
{
    package.shader_package().find_entry_point(api, entry_point_name).cloned()
}

/// What the reason of a decoding error starts with.
pub open spec fn decode_error_prefix() -> Seq<char> {
    "Failed to deserialize cooked shader: "@
}

/// Why a shader stage could not be loaded.
#[derive(Debug)]
pub enum ShaderLoadError {
    /// The bytes are not the encoding of a cooked shader package. The reason
    /// is `Failed to deserialize cooked shader: `, and what the decoder says.
    Deserialize { reason: String },
    /// The package has no reflection data for the entry point asked for, on
    /// the backend asked for.
    MissingEntryPoint,
}

/// A shader stage that is ready to be made into a shader module: the
/// package, and the reflection data of the stage's entry point.
pub struct CookedShaderStage {
    pub package: rafx::api::RafxHashedShaderPackage,
    pub entry_point: rafx::api::RafxReflectedEntryPoint,
}

/// Decodes the bytes of a cooked shader package file.
///
/// Gives the package that the bytes encode; on bytes that encode none the
/// error is [`ShaderLoadError::Deserialize`].
pub fn load_cooked_shader_stage(bytes: &[u8]) -> (result: Result<
    rafx::api::RafxHashedShaderPackage,
    ShaderLoadError,
>)
    ensures
        match decoded_shader_package(bytes@) {
            Some(package) => result is Ok && result->Ok_0 == package,
            None => result is Err && result->Err_0 is Deserialize
                && decode_error_prefix().is_prefix_of(result->Err_0->reason@),
        },
{
    match deserialize_package(bytes) {
        Ok(package) => Ok(package),
        Err(error) => {
            let said = describe_decode_error(&error);
            let reason = String::from_str("Failed to deserialize cooked shader: ").concat(
                said.as_str(),
            );
            let ghost prefix = decode_error_prefix();
            assert(reason@.subrange(0, prefix.len() as int) =~= prefix);
            Err(ShaderLoadError::Deserialize { reason })
        },
    }
}

/// Makes a stage of a package and of the outcome of looking its entry point
/// up: the stage where the entry point was found, and
/// [`ShaderLoadError::MissingEntryPoint`] where it was not.
pub fn stage_from_lookup(
    package: rafx::api::RafxHashedShaderPackage,
    found: Option<rafx::api::RafxReflectedEntryPoint>,
) -> (result: Result<CookedShaderStage, ShaderLoadError>)
    ensures
        match found {
            Some(entry_point) => result is Ok && result->Ok_0.package == package
                && result->Ok_0.entry_point == entry_point,
            None => result is Err && result->Err_0 is MissingEntryPoint,
        },
{
    match found {
        Some(entry_point) => Ok(CookedShaderStage { package, entry_point }),
        None => Err(ShaderLoadError::MissingEntryPoint),
    }
}

/// Decodes a cooked shader package and looks up the entry point named
/// `entry_point_name` for the backend `api`.
///
/// Fails with [`ShaderLoadError::Deserialize`] exactly on the bytes that do
/// not encode a package. On the others the result is the stage of the
/// decoded package and the entry point found in it, exactly where the
/// package has the entry point, and [`ShaderLoadError::MissingEntryPoint`]
/// where it has not.
pub fn load_shader_stage(
    bytes: &[u8],
    api: rafx::api::RafxApiType,
    entry_point_name: &str,
) -> (result: Result<CookedShaderStage, ShaderLoadError>)
    ensures
        match decoded_shader_package(bytes@) {
            None => result is Err && result->Err_0 is Deserialize
                && decode_error_prefix().is_prefix_of(result->Err_0->reason@),
            Some(package) => match entry_point_of(package, api, entry_point_name@) {
                Some(entry_point) => result is Ok && result->Ok_0.package == package
                    && result->Ok_0.entry_point == entry_point,
                None => result is Err && result->Err_0 is MissingEntryPoint,
            },
        },
{
    match load_cooked_shader_stage(bytes) {
        Err(error) => Err(error),
        Ok(package) => {
            let found = find_entry_point(&package, api, entry_point_name);
            stage_from_lookup(package, found)
        },
    }
}

} // verus!
