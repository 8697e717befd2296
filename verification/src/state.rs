//! The registry as a mathematical value: two maps that mirror each other,
//! the operations on them, and what holds of every sequence of operations.

use vstd::prelude::*;
use crate::descriptor::{record_of, OpenRequest, WindowDescriptor, WindowOpenOptions, WindowRecord};
use crate::error::{PlatformError, WindowError};
use crate::ident::{MainContext, NativeWindowId, SceneWindowId};
use crate::scale::resolved;

verus! {

/// What a registry holds.
pub struct RegistryState {
    /// The context that may change the registry.
    pub owner: MainContext,
    /// The native window of each registered scene window.
    pub by_scene: Map<SceneWindowId, NativeWindowId>,
    /// The scene window of each registered native window.
    pub by_native: Map<NativeWindowId, SceneWindowId>,
}

/// One change that a caller may ask of the registry.
pub enum Operation {
    /// A window was to be created, and the platform answered with `opened`.
    Create {
        ctx: MainContext,
        scene: SceneWindowId,
        options: WindowOpenOptions,
        opened: Result<NativeWindowId, PlatformError>,
    },
    /// The pair of a native window was to be forgotten.
    Remove { ctx: MainContext, native: NativeWindowId },
    /// The pair of a scene window was to be forgotten.
    RemoveScene { ctx: MainContext, scene: SceneWindowId },
}

impl RegistryState {
    /// The registry of `owner` with no window in it.
    pub open spec fn empty(owner: MainContext) -> RegistryState {
        RegistryState { owner, by_scene: Map::empty(), by_native: Map::empty() }
    }

    /// The two maps are inverse to each other: every pair of one is, turned
    /// round, a pair of the other.
    pub open spec fn mirrored(self) -> bool {
        &&& forall|s: SceneWindowId| #[trigger]
            self.by_scene.contains_key(s) ==> self.by_native.contains_pair(self.by_scene[s], s)
        &&& forall|n: NativeWindowId| #[trigger]
            self.by_native.contains_key(n) ==> self.by_scene.contains_pair(self.by_native[n], n)
    }

    /// The native window registered for `scene`.
    pub open spec fn native_of(self, scene: SceneWindowId) -> Option<NativeWindowId> {
        if self.by_scene.contains_key(scene) {
            Some(self.by_scene[scene])
        } else {
            None
        }
    }

    /// The scene window registered for `native`.
    pub open spec fn scene_of(self, native: NativeWindowId) -> Option<SceneWindowId> {
        if self.by_native.contains_key(native) {
            Some(self.by_native[native])
        } else {
            None
        }
    }

    /// The registry without the pair of `native`, if it has one.
    pub open spec fn without_native(self, native: NativeWindowId) -> RegistryState {
        match self.scene_of(native) {
            Some(scene) => RegistryState {
                owner: self.owner,
                by_scene: self.by_scene.remove(scene),
                by_native: self.by_native.remove(native),
            },
            None => self,
        }
    }

    /// The registry without the pair of `scene`, if it has one.
    pub open spec fn without_scene(self, scene: SceneWindowId) -> RegistryState {
        match self.native_of(scene) {
            Some(native) => RegistryState {
                owner: self.owner,
                by_scene: self.by_scene.remove(scene),
                by_native: self.by_native.remove(native),
            },
            None => self,
        }
    }

    /// The registry with the pair of `scene` and `native` in it. A pair that
    /// either of them had before is dropped whole, so that no window is left
    /// with half a pair.
    pub open spec fn with_pair(self, scene: SceneWindowId, native: NativeWindowId) -> RegistryState {
        let base = self.without_scene(scene).without_native(native);
        RegistryState {
            owner: self.owner,
            by_scene: base.by_scene.insert(scene, native),
            by_native: base.by_native.insert(native, scene),
        }
    }

    /// Whether a window may be opened for `scene`, and if so what the
    /// platform is asked to open.
    ///
    /// A caller on another context is refused first, then a scene window
    /// that is registered already, then a scale factor that is not valid.
    pub open spec fn admission(
        self,
        ctx: MainContext,
        scene: SceneWindowId,
        options: WindowOpenOptions,
    ) -> Result<OpenRequest, WindowError> {
        if ctx != self.owner {
            Err(WindowError::WrongThread)
        } else if self.by_scene.contains_key(scene) {
            Err(WindowError::DuplicateWindow)
        } else {
            match resolved(options.scale, options.size) {
                Ok(scale) => Ok(
                    OpenRequest { parent: options.parent, size: scale.physical, scale: scale.factor },
                ),
                Err(e) => Err(e),
            }
        }
    }

    /// What creating a window returns, given the platform's answer `opened`.
    pub open spec fn created(
        self,
        ctx: MainContext,
        scene: SceneWindowId,
        descriptor: WindowDescriptor,
        options: WindowOpenOptions,
        opened: Result<NativeWindowId, PlatformError>,
    ) -> Result<WindowRecord, WindowError> {
        match self.admission(ctx, scene, options) {
            Err(e) => Err(e),
            Ok(request) => match opened {
                Err(cause) => Err(WindowError::NativeOpenFailed(cause)),
                Ok(_) => Ok(record_of(descriptor, request)),
            },
        }
    }

    /// The registry after creating a window, given the platform's answer
    /// `opened`: with the new pair if all went well, unchanged if not.
    pub open spec fn after_create(
        self,
        ctx: MainContext,
        scene: SceneWindowId,
        options: WindowOpenOptions,
        opened: Result<NativeWindowId, PlatformError>,
    ) -> RegistryState {
        match (self.admission(ctx, scene, options), opened) {
            (Ok(_), Ok(native)) => self.with_pair(scene, native),
            _ => self,
        }
    }

    /// What removing a pair returns: only a caller on another context is
    /// refused.
    pub open spec fn removed(self, ctx: MainContext) -> Result<(), WindowError> {
        if ctx != self.owner {
            Err(WindowError::WrongThread)
        } else {
            Ok(())
        }
    }

    /// The registry after the pair of `native` was to be removed.
    pub open spec fn after_remove(self, ctx: MainContext, native: NativeWindowId) -> RegistryState {
        if ctx != self.owner {
            self
        } else {
            self.without_native(native)
        }
    }

    /// The registry after the pair of `scene` was to be removed.
    pub open spec fn after_remove_scene(self, ctx: MainContext, scene: SceneWindowId) -> RegistryState {
        if ctx != self.owner {
            self
        } else {
            self.without_scene(scene)
        }
    }

    /// The registry after one operation.
    pub open spec fn step(self, op: Operation) -> RegistryState {
        match op {
            Operation::Create { ctx, scene, options, opened } => self.after_create(
                ctx,
                scene,
                options,
                opened,
            ),
            Operation::Remove { ctx, native } => self.after_remove(ctx, native),
            Operation::RemoveScene { ctx, scene } => self.after_remove_scene(ctx, scene),
        }
    }

    /// The registry after a sequence of operations, the first one first.
    pub open spec fn replay(self, ops: Seq<Operation>) -> RegistryState
        decreases ops.len(),
    {
        if ops.len() == 0 {
            self
        } else {
            self.replay(ops.drop_last()).step(ops.last())
        }
    }
}

/// The empty registry mirrors itself.
pub proof fn lemma_empty_is_mirrored(owner: MainContext)
    ensures
        RegistryState::empty(owner).mirrored(),
{
}

/// In a registry whose maps mirror each other, the two lookups agree:
/// `scene` leads to `native` exactly when `native` leads to `scene`.
pub proof fn lemma_lookups_agree(state: RegistryState, scene: SceneWindowId, native: NativeWindowId)
    requires
        state.mirrored(),
    ensures
        state.native_of(scene) == Some(native) <==> state.scene_of(native) == Some(scene),
{
}

/// In a registry whose maps mirror each other the pairs are one to one: no
/// two scene windows lead to the same native window, and no two native
/// windows to the same scene window.
pub proof fn lemma_pairs_are_one_to_one(
    state: RegistryState,
    scene: SceneWindowId,
    other_scene: SceneWindowId,
    native: NativeWindowId,
    other_native: NativeWindowId,
)
    requires
        state.mirrored(),
    ensures
        state.native_of(scene) == Some(native) && state.native_of(other_scene) == Some(native)
            ==> scene == other_scene,
        state.scene_of(native) == Some(scene) && state.scene_of(other_native) == Some(scene)
            ==> native == other_native,
{
}

/// Dropping the pair of a native window keeps the maps mirrored.
pub proof fn lemma_without_native_keeps_mirror(state: RegistryState, native: NativeWindowId)
    requires
        state.mirrored(),
    ensures
        state.without_native(native).mirrored(),
{
}

/// Dropping the pair of a scene window keeps the maps mirrored.
pub proof fn lemma_without_scene_keeps_mirror(state: RegistryState, scene: SceneWindowId)
    requires
        state.mirrored(),
    ensures
        state.without_scene(scene).mirrored(),
{
}

/// Entering a pair keeps the maps mirrored, whatever was registered for
/// either window before.
pub proof fn lemma_with_pair_keeps_mirror(
    state: RegistryState,
    scene: SceneWindowId,
    native: NativeWindowId,
)
    requires
        state.mirrored(),
    ensures
        state.with_pair(scene, native).mirrored(),
        state.with_pair(scene, native).native_of(scene) == Some(native),
        state.with_pair(scene, native).scene_of(native) == Some(scene),
{
    lemma_without_scene_keeps_mirror(state, scene);
    lemma_without_native_keeps_mirror(state.without_scene(scene), native);
}

/// No operation breaks the mirror, and none changes the owner.
pub proof fn lemma_step_keeps_mirror(state: RegistryState, op: Operation)
    requires
        state.mirrored(),
    ensures
        state.step(op).mirrored(),
        state.step(op).owner == state.owner,
{
    match op {
        Operation::Create { ctx, scene, options, opened } => {
            if let Ok(native) = opened {
                lemma_with_pair_keeps_mirror(state, scene, native);
            }
        },
        Operation::Remove { ctx, native } => {
            lemma_without_native_keeps_mirror(state, native);
        },
        Operation::RemoveScene { ctx, scene } => {
            lemma_without_scene_keeps_mirror(state, scene);
        },
    }
}

/// No sequence of operations breaks the mirror.
pub proof fn lemma_replay_keeps_mirror(state: RegistryState, ops: Seq<Operation>)
    requires
        state.mirrored(),
    ensures
        state.replay(ops).mirrored(),
        state.replay(ops).owner == state.owner,
    decreases ops.len(),
{
    if ops.len() > 0 {
        lemma_replay_keeps_mirror(state, ops.drop_last());
        lemma_step_keeps_mirror(state.replay(ops.drop_last()), ops.last());
    }
}

/// After any sequence of creations and removals on a registry that began
/// empty, the two lookups agree: `scene` leads to `native` exactly when
/// `native` leads to `scene`.
pub proof fn lemma_lookups_agree_after_any_history(
    owner: MainContext,
    ops: Seq<Operation>,
    scene: SceneWindowId,
    native: NativeWindowId,
)
    ensures
        RegistryState::empty(owner).replay(ops).native_of(scene) == Some(native)
            <==> RegistryState::empty(owner).replay(ops).scene_of(native) == Some(scene),
{
    lemma_empty_is_mirrored(owner);
    lemma_replay_keeps_mirror(RegistryState::empty(owner), ops);
    lemma_lookups_agree(RegistryState::empty(owner).replay(ops), scene, native);
}

/// Creating a window for a scene window that is registered is refused with
/// `DuplicateWindow`, whatever else is asked and whatever the platform
/// would answer, and leaves the registry as it was.
pub proof fn lemma_registered_scene_is_refused(
    state: RegistryState,
    scene: SceneWindowId,
    descriptor: WindowDescriptor,
    options: WindowOpenOptions,
    opened: Result<NativeWindowId, PlatformError>,
)
    requires
        state.native_of(scene) is Some,
    ensures
        state.created(state.owner, scene, descriptor, options, opened) == Err::<
            WindowRecord,
            WindowError,
        >(WindowError::DuplicateWindow),
        state.after_create(state.owner, scene, options, opened) == state,
{
}

/// A second creation for the same scene window, with no removal between the
/// two, is refused with `DuplicateWindow`, and the scene window still leads
/// to the native window of the first.
pub proof fn lemma_second_create_is_refused(
    state: RegistryState,
    ctx: MainContext,
    scene: SceneWindowId,
    descriptor: WindowDescriptor,
    options: WindowOpenOptions,
    native: NativeWindowId,
    again_descriptor: WindowDescriptor,
    again_options: WindowOpenOptions,
    again_opened: Result<NativeWindowId, PlatformError>,
)
    requires
        state.mirrored(),
        state.created(ctx, scene, descriptor, options, Ok(native)) is Ok,
    ensures
        ({
            let first = state.after_create(ctx, scene, options, Ok(native));
            let second = first.after_create(ctx, scene, again_options, again_opened);
            &&& first.native_of(scene) == Some(native)
            &&& first.created(ctx, scene, again_descriptor, again_options, again_opened) == Err::<
                WindowRecord,
                WindowError,
            >(WindowError::DuplicateWindow)
            &&& second == first
            &&& second.native_of(scene) == Some(native)
        }),
{
    lemma_with_pair_keeps_mirror(state, scene, native);
}

/// A creation that fails, for whatever reason, leaves the registry as it
/// was.
pub proof fn lemma_failed_create_changes_nothing(
    state: RegistryState,
    ctx: MainContext,
    scene: SceneWindowId,
    descriptor: WindowDescriptor,
    options: WindowOpenOptions,
    opened: Result<NativeWindowId, PlatformError>,
)
    requires
        state.created(ctx, scene, descriptor, options, opened) is Err,
    ensures
        state.after_create(ctx, scene, options, opened) == state,
{
}

/// If the platform is asked to open the window and fails, the creation
/// fails with the platform's cause and the scene window has no native
/// window afterwards: nothing of the pair was entered.
pub proof fn lemma_failed_open_leaves_no_trace(
    state: RegistryState,
    ctx: MainContext,
    scene: SceneWindowId,
    descriptor: WindowDescriptor,
    options: WindowOpenOptions,
    cause: PlatformError,
)
    requires
        state.admission(ctx, scene, options) is Ok,
    ensures
        state.created(ctx, scene, descriptor, options, Err(cause)) == Err::<
            WindowRecord,
            WindowError,
        >(WindowError::NativeOpenFailed(cause)),
        state.after_create(ctx, scene, options, Err(cause)) == state,
        state.after_create(ctx, scene, options, Err(cause)).native_of(scene) is None,
{
}

/// A creation succeeds exactly when the caller is the owner, the scene
/// window is not registered, the scale factor is valid and the platform
/// opened the window; the new pair can then be looked up from both sides.
pub proof fn lemma_create_succeeds_exactly_when_admitted(
    state: RegistryState,
    ctx: MainContext,
    scene: SceneWindowId,
    descriptor: WindowDescriptor,
    options: WindowOpenOptions,
    opened: Result<NativeWindowId, PlatformError>,
)
    requires
        state.mirrored(),
    ensures
        state.created(ctx, scene, descriptor, options, opened) is Ok <==> {
            &&& ctx == state.owner
            &&& state.native_of(scene) is None
            &&& resolved(options.scale, options.size) is Ok
            &&& opened is Ok
        },
        state.created(ctx, scene, descriptor, options, opened) is Ok ==> {
            let then = state.after_create(ctx, scene, options, opened);
            &&& then.native_of(scene) == Some(opened->Ok_0)
            &&& then.scene_of(opened->Ok_0) == Some(scene)
        },
{
    if let Ok(native) = opened {
        lemma_with_pair_keeps_mirror(state, scene, native);
    }
}

/// Removing a native window that is not registered changes nothing.
pub proof fn lemma_remove_absent_changes_nothing(
    state: RegistryState,
    ctx: MainContext,
    native: NativeWindowId,
)
    requires
        state.scene_of(native) is None,
    ensures
        state.after_remove(ctx, native) == state,
{
}

/// Removing a native window leaves every other pair as it was: another
/// native window leads where it led before, and so does every scene window
/// but the one that was paired with the removed window.
pub proof fn lemma_remove_spares_other_pairs(
    state: RegistryState,
    ctx: MainContext,
    native: NativeWindowId,
    other_native: NativeWindowId,
    other_scene: SceneWindowId,
)
    requires
        state.mirrored(),
        other_native != native,
        state.native_of(other_scene) != Some(native),
    ensures
        state.after_remove(ctx, native).scene_of(other_native) == state.scene_of(other_native),
        state.after_remove(ctx, native).native_of(other_scene) == state.native_of(other_scene),
{
}

/// After the owner removed a native window, neither it nor the scene window
/// it was paired with can be looked up, and removing it once more changes
/// nothing.
pub proof fn lemma_remove_forgets_both_sides(state: RegistryState, native: NativeWindowId)
    requires
        state.mirrored(),
    ensures
        state.after_remove(state.owner, native).scene_of(native) is None,
        state.scene_of(native) matches Some(scene) ==> state.after_remove(
            state.owner,
            native,
        ).native_of(scene) is None,
        state.after_remove(state.owner, native).after_remove(state.owner, native)
            == state.after_remove(state.owner, native),
{
}

} // verus!
