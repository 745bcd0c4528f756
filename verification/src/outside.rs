//! Types of other crates that the library carries without looking inside.

use rquickjs::Array as EngineArray;
use rquickjs::ArrayBuffer as EngineBuffer;
use rquickjs::Constructor as EngineConstructor;
use rquickjs::Ctx;
use rquickjs::Error as EngineError;
use rquickjs::Function as EngineFunction;
use rquickjs::Object as EngineObject;
use rquickjs::Persistent;
use rquickjs::Promise as EnginePromise;
use rquickjs::Value;
use serde_json::Error as JsonError;
use vstd::prelude::*;

verus! {

/// `std::io::Error`.
#[verifier::external_type_specification]
#[verifier::external_body]
pub struct ExIoError(std::io::Error);

/// `serde_json::Error`.
#[verifier::external_type_specification]
#[verifier::external_body]
pub struct ExJsonError(JsonError);

/// `rquickjs::Error`.
#[verifier::external_type_specification]
#[verifier::external_body]
pub struct ExEngineError(EngineError);

/// `rquickjs::Ctx`.
#[verifier::external_type_specification]
#[verifier::external_body]
pub struct ExCtx<'js>(Ctx<'js>);

/// `rquickjs::Value`.
#[verifier::external_type_specification]
#[verifier::external_body]
pub struct ExValue<'js>(Value<'js>);

/// `rquickjs::Object`.
#[verifier::external_type_specification]
#[verifier::external_body]
pub struct ExObject<'js>(EngineObject<'js>);

/// `rquickjs::Function`.
#[verifier::external_type_specification]
#[verifier::external_body]
pub struct ExFunction<'js>(EngineFunction<'js>);

/// `rquickjs::Constructor`.
#[verifier::external_type_specification]
#[verifier::external_body]
pub struct ExConstructor<'js>(EngineConstructor<'js>);

/// `rquickjs::Promise`.
#[verifier::external_type_specification]
#[verifier::external_body]
pub struct ExPromise<'js>(EnginePromise<'js>);

/// `rquickjs::Array`.
#[verifier::external_type_specification]
#[verifier::external_body]
pub struct ExArray<'js>(EngineArray<'js>);

/// `rquickjs::ArrayBuffer`.
#[verifier::external_type_specification]
#[verifier::external_body]
pub struct ExBuffer<'js>(EngineBuffer<'js>);

/// `bytes::Bytes`.
#[verifier::external_type_specification]
#[verifier::external_body]
pub struct ExBytes(bytes::Bytes);

/// `rquickjs::Persistent`.
#[verifier::external_type_specification]
#[verifier::external_body]
#[verifier::reject_recursive_types(T)]
pub struct ExPersistent<T>(Persistent<T>);

/// `tokio_util::sync::CancellationToken`.
#[verifier::external_type_specification]
#[verifier::external_body]
pub struct ExCancellationToken(tokio_util::sync::CancellationToken);

/// `std::time::Instant`.
#[verifier::external_type_specification]
#[verifier::external_body]
pub struct ExInstant(std::time::Instant);

} // verus!
