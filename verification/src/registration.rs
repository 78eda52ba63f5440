use vstd::prelude::*;

verus! {

/// The environment handle of the Java VM, carried through unchanged.
#[verifier::external_type_specification]
#[verifier::external_body]
pub struct ExJniEnv<'a>(jni::JNIEnv<'a>);

/// The error type of every fallible call of the `jni` crate.
#[verifier::external_type_specification]
#[verifier::external_body]
pub struct ExJniError(jni::errors::Error);

/// What initialisation answers once the registration of the native methods
/// has come back: success when the registration succeeded, and otherwise the
/// registration's own error, passed on unchanged.
pub fn finish_init(registered: Result<(), jni::errors::Error>) -> (r: Result<(), jni::errors::Error>)
    ensures
        r == registered,
        r is Ok <==> registered is Ok,
{
    match registered {
        Ok(unit) => Ok(unit),
        Err(e) => Err(e),
    }
}

/// Initialises the helper classes by registering their native methods with
/// the VM behind `env`; this must run before any helper is used.
///
/// `register_natives` is the step that binds the Java classes to their native
/// implementations; it is handed the same `env`, and whatever it reports is
/// what `init` reports.
pub fn init<'a, F>(env: &jni::JNIEnv<'a>, register_natives: F) -> (r: Result<(), jni::errors::Error>) where
    F: FnOnce(&jni::JNIEnv<'a>) -> Result<(), jni::errors::Error>,

    requires
        call_requires(register_natives, (env,)),
    ensures
        call_ensures(register_natives, (env,), r),
{
    let registered = register_natives(env);
    finish_init(registered)
}

} // verus!
