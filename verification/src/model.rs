//! Model lifecycle manager: a default slot and an optional shadowing
//! custom slot, each holding at most one recognition model, with
//! explicit load / unload / path-switch transitions.
//!
//! Constructing or dropping the native engine context happens outside
//! the library; transitions take the outcome of that outside work as a
//! plain value and the state machine is verified over every outcome.
//! The caller serializes access (one exclusive lock around the
//! manager), so the transitions themselves are plain sequential code.

use vstd::prelude::*;
use crate::wav::DecodeError;

verus! {

/// Error taxonomy of the core.
#[derive(Debug)]
pub enum ModelError {
    /// Unsupported or corrupt container.
    Decode(DecodeError),
    /// Native inference-library failure, with its own message.
    Engine(String),
    /// No input device available, or a device failed to open.
    Device(String),
    /// Invalid lifecycle transition.
    State(String),
    /// A resource or model path is missing.
    Io(String),
}

/// One logical model slot.
#[derive(Debug)]
pub enum ModelSlot {
    /// No model configured.
    Absent,
    /// A model is configured at `path` but its engine is not resident.
    Unloaded { path: String, use_gpu: bool },
    /// The engine for the model at `path` is resident.
    Loaded { path: String, use_gpu: bool },
}

impl ModelSlot {
    /// Whether an engine context is resident for this slot.
    pub open spec fn spec_is_loaded(self) -> bool {
        self is Loaded
    }

    pub fn is_loaded(&self) -> (b: bool)
        ensures
            b == self.spec_is_loaded(),
    {
        match self {
            ModelSlot::Loaded { .. } => true,
            _ => false,
        }
    }

    /// Whether the engine must be constructed before this slot can
    /// complete a load.
    pub fn needs_engine(&self) -> (b: bool)
        ensures
            b == (*self is Unloaded),
    {
        match self {
            ModelSlot::Unloaded { .. } => true,
            _ => false,
        }
    }

    /// Drop the resident engine and return to `Unloaded` at the same
    /// path. Only valid from `Loaded`; an `Absent` or already-unloaded
    /// slot fails with a state error.
    pub fn unload(self) -> (r: Result<ModelSlot, ModelError>)
        ensures
            self matches ModelSlot::Loaded { path, use_gpu } ==> r == Ok::<ModelSlot, ModelError>(
                ModelSlot::Unloaded { path, use_gpu },
            ),
            !(self is Loaded) ==> (r matches Err(e) && e is State),
            r is Ok <==> self is Loaded,
    {
        match self {
            ModelSlot::Loaded { path, use_gpu } => Ok(ModelSlot::Unloaded { path, use_gpu }),
            _ => Err(ModelError::State(String::from_str("nothing is loaded"))),
        }
    }

    /// Point the slot at a new model path, keeping the backend kind.
    ///
    /// Fails without changing anything when the path does not exist
    /// (the caller reports whether it does). A loaded slot drops its
    /// engine and becomes `Unloaded` at the new path — never silently
    /// staying loaded at the old one. An absent slot becomes an
    /// unloaded slot of the default kind.
    pub fn switch_path(self, new_path: String, path_exists: bool) -> (r: Result<
        ModelSlot,
        ModelError,
    >)
        ensures
            !path_exists ==> (r matches Err(e) && e is Io),
            path_exists ==> r is Ok,
            path_exists && self is Absent ==> r == Ok::<ModelSlot, ModelError>(
                ModelSlot::Unloaded { path: new_path, use_gpu: false },
            ),
            self matches ModelSlot::Unloaded { use_gpu, .. } ==> (path_exists ==> r == Ok::<
                ModelSlot,
                ModelError,
            >(ModelSlot::Unloaded { path: new_path, use_gpu })),
            self matches ModelSlot::Loaded { use_gpu, .. } ==> (path_exists ==> r == Ok::<
                ModelSlot,
                ModelError,
            >(ModelSlot::Unloaded { path: new_path, use_gpu })),
    {
        if !path_exists {
            return Err(ModelError::Io(String::from_str("model path does not exist")));
        }
        match self {
            ModelSlot::Absent => Ok(ModelSlot::Unloaded { path: new_path, use_gpu: false }),
            ModelSlot::Unloaded { use_gpu, .. } => Ok(
                ModelSlot::Unloaded { path: new_path, use_gpu },
            ),
            ModelSlot::Loaded { use_gpu, .. } => Ok(
                ModelSlot::Unloaded { path: new_path, use_gpu },
            ),
        }
    }

    /// Complete a load.
    ///
    /// Only an `Unloaded` slot consumes the outcome of the outside
    /// engine construction (the caller builds the engine exactly when
    /// `needs_engine` says so, and reports how long it took). A slot
    /// that is already `Loaded` is a no-op returning zero elapsed
    /// time; an `Absent` slot has nothing to load and fails with a
    /// state error.
    pub fn load(self, engine: Result<(), String>, elapsed_ms: u64) -> (r: Result<
        (ModelSlot, u64),
        ModelError,
    >)
        ensures
            self is Loaded ==> r == Ok::<(ModelSlot, u64), ModelError>((self, 0u64)),
            self is Absent ==> (r matches Err(e) && e is State),
            self matches ModelSlot::Unloaded { path, use_gpu } ==> (engine is Ok ==> r == Ok::<
                (ModelSlot, u64),
                ModelError,
            >((ModelSlot::Loaded { path, use_gpu }, elapsed_ms))),
            engine matches Err(m) ==> (self is Unloaded ==> r == Err::<
                (ModelSlot, u64),
                ModelError,
            >(ModelError::Engine(m))),
    {
        match self {
            ModelSlot::Loaded { path, use_gpu } => Ok((ModelSlot::Loaded { path, use_gpu }, 0)),
            ModelSlot::Absent => Err(
                ModelError::State(String::from_str("no model configured to load")),
            ),
            ModelSlot::Unloaded { path, use_gpu } => match engine {
                Ok(()) => Ok((ModelSlot::Loaded { path, use_gpu }, elapsed_ms)),
                Err(m) => Err(ModelError::Engine(m)),
            },
        }
    }
}

/// The default model slot plus the optional shadowing custom slot.
#[derive(Debug)]
pub struct ModelManager {
    pub default_slot: ModelSlot,
    pub custom_slot: ModelSlot,
}

impl ModelManager {
    /// A manager starts with the given default slot and no custom
    /// model.
    pub fn new(default_slot: ModelSlot) -> (m: ModelManager)
        ensures
            m.default_slot == default_slot,
            m.custom_slot is Absent,
    {
        ModelManager { default_slot, custom_slot: ModelSlot::Absent }
    }

    /// Whether inference would use the custom slot: it shadows the
    /// default exactly when it is present.
    pub open spec fn spec_uses_custom(self) -> bool {
        !(self.custom_slot is Absent)
    }

    pub fn uses_custom(&self) -> (b: bool)
        ensures
            b == self.spec_uses_custom(),
    {
        match self.custom_slot {
            ModelSlot::Absent => false,
            _ => true,
        }
    }

    /// The slot inference calls go to: the custom slot when present,
    /// else the default slot.
    pub fn active_slot(&self) -> (s: &ModelSlot)
        ensures
            self.spec_uses_custom() ==> s == &self.custom_slot,
            !self.spec_uses_custom() ==> s == &self.default_slot,
    {
        match self.custom_slot {
            ModelSlot::Absent => &self.default_slot,
            _ => &self.custom_slot,
        }
    }

    /// Replace the custom model with one at `path`.
    ///
    /// The caller hands over the outcome of constructing the new
    /// engine context: on success the previous custom slot is dropped
    /// deterministically and replaced by the new loaded slot; on
    /// failure the manager is left unchanged.
    pub fn replace_custom_model(&mut self, path: String, use_gpu: bool, engine: Result<(), String>)
        -> (r: Result<(), ModelError>)
        ensures
            final(self).default_slot == old(self).default_slot,
            engine is Ok ==> r is Ok && final(self).custom_slot == (ModelSlot::Loaded {
                path,
                use_gpu,
            }),
            engine matches Err(m) ==> r == Err::<(), ModelError>(ModelError::Engine(m))
                && final(self).custom_slot == old(self).custom_slot,
    {
        match engine {
            Ok(()) => {
                self.custom_slot = ModelSlot::Loaded { path, use_gpu };
                Ok(())
            },
            Err(m) => Err(ModelError::Engine(m)),
        }
    }

    /// Remove the custom model, dropping its engine context; inference
    /// reverts to the default slot.
    pub fn remove_custom_model(&mut self)
        ensures
            final(self).default_slot == old(self).default_slot,
            final(self).custom_slot is Absent,
    {
        self.custom_slot = ModelSlot::Absent;
    }

    /// A short description of the model inference would use.
    pub fn get_model_info(&self) -> (s: String)
        ensures
            !self.spec_uses_custom() ==> s@ == "Default Model"@,
            self.custom_slot matches ModelSlot::Unloaded { path, .. } ==> s@ ==
                "Custom Model at: "@ + path@,
            self.custom_slot matches ModelSlot::Loaded { path, .. } ==> s@ ==
                "Custom Model at: "@ + path@,
    {
        match &self.custom_slot {
            ModelSlot::Absent => String::from_str("Default Model"),
            ModelSlot::Unloaded { path, .. } => String::from_str("Custom Model at: ").concat(
                path.as_str(),
            ),
            ModelSlot::Loaded { path, .. } => String::from_str("Custom Model at: ").concat(
                path.as_str(),
            ),
        }
    }
}


impl ModelError {
    /// The flat user-facing message for this error: a fixed phrase for
    /// a decode failure, and the carried message otherwise.
    pub fn message(self) -> (r: String)
        ensures
            self is Decode ==> r@ == "unsupported audio format"@,
            self matches ModelError::Engine(m) ==> r == m,
            self matches ModelError::Device(m) ==> r == m,
            self matches ModelError::State(m) ==> r == m,
            self matches ModelError::Io(m) ==> r == m,
    {
        match self {
            ModelError::Decode(_) => String::from_str("unsupported audio format"),
            ModelError::Engine(m) => m,
            ModelError::Device(m) => m,
            ModelError::State(m) => m,
            ModelError::Io(m) => m,
        }
    }
}

} // verus!
