//! The Windows Runtime as a whole: start-up, activation by class name,
//! type information and statistics.
//!
//! The runtime state, the registry slot and the handle counter are passed
//! in explicitly; the functions here compute how that state changes.

use vstd::prelude::*;

use crate::activation::{
    self, activation_done, with_builtin_factories, FactoryInfo, FactoryRegistry, WinRtObject,
};
use crate::metadata::{self, builtin_index, builtin_type_views, WinRtMetadata, WinRtTypeDef};

verus! {

/// Errors of the runtime.
#[derive(Debug, Clone)]
pub enum WinRtError {
    /// The runtime is not initialized.
    NotInitialized,
    /// Activation failed with this HRESULT.
    ActivationFailed(i32),
    /// Class not found.
    ClassNotFound(String),
    /// Metadata error.
    MetadataError(String),
}

/// State of an initialized runtime: the metadata it loaded.
pub struct WinRtState {
    initialized: bool,
    metadata: WinRtMetadata,
}

impl WinRtState {
    /// Whether the runtime has been initialized.
    pub closed spec fn is_initialized(&self) -> bool {
        self.initialized
    }

    /// The metadata the runtime loaded.
    pub closed spec fn metadata(&self) -> WinRtMetadata {
        self.metadata
    }

    #[verifier::type_invariant]
    closed spec fn inv(self) -> bool {
        self.metadata.wf()
    }

    /// The metadata of a runtime state is always well formed. (An exec
    /// function: the type invariant can be drawn only from an exec value.)
    pub fn metadata_wf(&self)
        ensures
            self.metadata().wf(),
    {
        proof {
            use_type_invariant(self);
        }
    }
}

/// Runtime statistics.
#[derive(Debug, Clone)]
pub struct WinRtStats {
    pub factory_count: usize,
    pub object_count: usize,
    pub type_count: usize,
}

/// Initializes the runtime: sets up the registry slot, registers the
/// built-in factories and loads the built-in metadata.
pub fn init(runtime: &mut Option<WinRtState>, registry: &mut Option<FactoryRegistry>)
    ensures
        *final(registry) matches Some(reg) && reg.factories() == with_builtin_factories(
            match *old(registry) {
                Some(r) => r.factories(),
                None => Seq::<FactoryInfo>::empty(),
            },
        ) && reg.objects() == match *old(registry) {
            Some(r) => r.objects(),
            None => Map::<u64, WinRtObject>::empty(),
        },
        *final(runtime) matches Some(s) && s.is_initialized() && s.metadata().types@.map_values(
            |t: WinRtTypeDef| t@,
        ) == builtin_type_views() && s.metadata().index_view() == builtin_index()
            && s.metadata().namespaces_view() == seq![
            "Windows.Foundation"@,
            "Windows.Storage"@,
            "Windows.UI"@,
            "Windows.Networking"@,
        ],
{
    activation::init(registry);
    match registry {
        Some(reg) => activation::register_builtin_factories(reg),
        None => {},
    }
    let meta = metadata::builtin_metadata();
    *runtime = Some(WinRtState { initialized: true, metadata: meta });
}

/// The activation answer inside a runtime answer: the handle, or the
/// HRESULT that `ActivationFailed` carries (0 for any other error).
pub open spec fn as_hresult(r: Result<u64, WinRtError>) -> Result<u64, i32> {
    match r {
        Ok(h) => Ok(h),
        Err(WinRtError::ActivationFailed(e)) => Err(e),
        Err(_) => Err(0),
    }
}

/// Whether the runtime state is present and initialized.
pub open spec fn is_running(runtime: Option<WinRtState>) -> bool {
    runtime matches Some(s) && s.is_initialized()
}

/// `RoActivateInstance` through the runtime: `NotInitialized` unless the
/// runtime is initialized; otherwise the activation, with its HRESULT
/// wrapped in `ActivationFailed`.
pub fn activate_instance(
    runtime: &Option<WinRtState>,
    registry: &mut Option<FactoryRegistry>,
    next_handle: &mut u64,
    class_name: &str,
) -> (r: Result<u64, WinRtError>)
    requires
        is_running(*runtime) ==> (*old(registry) matches Some(reg) && (reg.has_factory(class_name@)
            ==> *old(next_handle) < u64::MAX)),
    ensures
        !is_running(*runtime) ==> {
            &&& r matches Err(WinRtError::NotInitialized)
            &&& *final(registry) == *old(registry)
            &&& *final(next_handle) == *old(next_handle)
        },
        is_running(*runtime) ==> (*old(registry) matches Some(old_reg)
            && *final(registry) matches Some(new_reg) && activation_done(
            old_reg,
            new_reg,
            *old(next_handle),
            *final(next_handle),
            class_name@,
            as_hresult(r),
        ) && (r is Ok || r matches Err(WinRtError::ActivationFailed(_)))),
{
    let running = match runtime {
        Some(s) => s.initialized,
        None => false,
    };
    if !running {
        return Err(WinRtError::NotInitialized);
    }
    match registry {
        Some(reg) => match activation::ro_activate_instance(reg, next_handle, class_name) {
            Ok(h) => Ok(h),
            Err(e) => Err(WinRtError::ActivationFailed(e)),
        },
        None => Err(WinRtError::NotInitialized),
    }
}

/// Whether a factory is registered for `class_name`.
pub fn is_class_available(registry: &FactoryRegistry, class_name: &str) -> (r: bool)
    ensures
        r == registry.has_factory(class_name@),
{
    activation::ro_has_factory(registry, class_name)
}

/// A copy of the definition the runtime's metadata gives for `full_name`.
pub fn get_type_info(runtime: &Option<WinRtState>, full_name: &str) -> (r: Option<WinRtTypeDef>)
    ensures
        match *runtime {
            Some(s) => match s.metadata().lookup(full_name@) {
                Some(i) => r matches Some(t) && t@ == s.metadata().types@[i]@,
                None => r is None,
            },
            None => r is None,
        },
{
    match runtime {
        Some(s) => {
            s.metadata_wf();
            proof {
                metadata::lemma_lookup_is_last_added(s.metadata(), full_name@);
            }
            match s.metadata.get_type(full_name) {
                Some(t) => Some(t.copy()),
                None => None,
            }
        },
        None => None,
    }
}

/// Runtime statistics: registered factories, live objects, and the types
/// of the loaded metadata (0 without a runtime state).
pub fn stats(registry: &FactoryRegistry, runtime: &Option<WinRtState>) -> (r: WinRtStats)
    ensures
        r.factory_count == registry.factories().len(),
        r.object_count == registry.objects().len(),
        r.type_count == match *runtime {
            Some(s) => s.metadata().types@.len(),
            None => 0,
        },
{
    let factory_count = registry.factory_count();
    let object_count = registry.object_count();
    let type_count = match runtime {
        Some(s) => s.metadata.types.len(),
        None => 0,
    };
    WinRtStats { factory_count, object_count, type_count }
}

} // verus!
