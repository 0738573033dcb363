//! The sandbox runtime as the host uses it: whether an instance exports a function, and
//! the call of a function on bytes.

use vstd::prelude::*;

verus! {

/// `extism::Plugin`: one instance of a plugin inside the sandbox.
#[verifier::external_type_specification]
#[verifier::external_body]
pub struct ExLoadedPlugin(extism::Plugin);

/// `extism::Error`: what the sandbox reports when a call fails.
#[verifier::external_type_specification]
#[verifier::external_body]
pub struct ExRuntimeError(extism::Error);

/// The names under which a loaded plugin can be called. They are fixed when the plugin is
/// loaded.
pub uninterp spec fn callable_exports(plugin: extism::Plugin) -> Set<Seq<char>>;

/// `extism::Plugin::function_exists`: whether the plugin's main module exports a function
/// of that name that takes nothing and returns nothing or one 32-bit integer.
#[verifier::external_body]
pub(crate) fn function_exists(plugin: &extism::Plugin, function: &str) -> (r: bool)
    ensures
        r == callable_exports(*plugin).contains(function@),
{
    plugin.function_exists(function)
}

/// `extism::Plugin::call` on bytes: runs the named function on the input and hands back
/// its output, or the runtime's error. The call leaves the plugin's exports as they were.
#[verifier::external_body]
pub(crate) fn call_function(plugin: &mut extism::Plugin, function: &str, input: &[u8]) -> (r: Result<
    Vec<u8>,
    extism::Error,
>)
    ensures
        callable_exports(*final(plugin)) == callable_exports(*old(plugin)),
{
    plugin.call::<&[u8], Vec<u8>>(function, input)
}

/// Writes the field `id` of an `extism::Plugin`, by which the runtime names the instance
/// in its log and to its timer; the exports of the instance do not depend on it.
#[verifier::external_body]
pub(crate) fn set_instance_id(plugin: &mut extism::Plugin, id: u128)
    ensures
        callable_exports(*final(plugin)) == callable_exports(*old(plugin)),
{
    plugin.id = uuid::Uuid::from_u128(id);
}

} // verus!
