//! The window registry itself: two hash maps that are only ever changed
//! together.

use vstd::prelude::*;
use crate::descriptor::{OpenRequest, WindowDescriptor, WindowOpenOptions, WindowRecord};
use crate::error::{PlatformError, WindowError};
use crate::id_map::{id_map_entries, id_map_get, id_map_insert, id_map_new, id_map_remove, IdMap};
use crate::ident::{MainContext, NativeWindowId, SceneWindowId};
use crate::scale::resolve_scale;
use crate::state::RegistryState;

verus! {

/// The pairs of scene window and native window, findable from either side.
///
/// Both maps are private and every operation changes both or neither, so
/// that they always mirror each other.
#[derive(Debug)]
pub struct BaseviewWindows {
    window_entity_to_baseview: IdMap,
    baseview_to_window_entity: IdMap,
    owner: MainContext,
    // Some window functions hang the process when they are called off the
    // main thread. This marker keeps the registry from being sent to, or
    // shared with, another thread.
    _not_send_sync: core::marker::PhantomData<std::rc::Rc<()>>,
}

/// A table from scene bits to native numbers, read as a map between the two
/// kinds of identity.
spec fn scene_keyed(entries: Map<u64, u64>) -> Map<SceneWindowId, NativeWindowId> {
    Map::new(
        |s: SceneWindowId| entries.contains_key(s.0),
        |s: SceneWindowId| NativeWindowId(entries[s.0]),
    )
}

/// A table from native numbers to scene bits, read as a map between the two
/// kinds of identity.
spec fn native_keyed(entries: Map<u64, u64>) -> Map<NativeWindowId, SceneWindowId> {
    Map::new(
        |n: NativeWindowId| entries.contains_key(n.0),
        |n: NativeWindowId| SceneWindowId(entries[n.0]),
    )
}

impl View for BaseviewWindows {
    type V = RegistryState;

    closed spec fn view(&self) -> RegistryState {
        RegistryState {
            owner: self.owner,
            by_scene: scene_keyed(id_map_entries(self.window_entity_to_baseview)),
            by_native: native_keyed(id_map_entries(self.baseview_to_window_entity)),
        }
    }
}

impl BaseviewWindows {
    /// The registry is well formed when its two maps mirror each other.
    pub open spec fn wf(&self) -> bool {
        self@.mirrored()
    }

    /// An empty registry that `owner` alone may change.
    pub fn new(owner: &MainContext) -> (windows: BaseviewWindows)
        ensures
            windows.wf(),
            windows@ == RegistryState::empty(*owner),
    {
        let windows = BaseviewWindows {
            window_entity_to_baseview: id_map_new(),
            baseview_to_window_entity: id_map_new(),
            owner: *owner,
            _not_send_sync: core::marker::PhantomData,
        };
        assert(windows@.by_scene =~= Map::empty());
        assert(windows@.by_native =~= Map::empty());
        windows
    }

    /// The scene window that `native` was opened for, if it is registered.
    pub fn lookup_scene(&self, native: NativeWindowId) -> (scene: Option<SceneWindowId>)
        ensures
            scene == self@.scene_of(native),
    {
        match id_map_get(&self.baseview_to_window_entity, native.0) {
            Some(bits) => Some(SceneWindowId(bits)),
            None => None,
        }
    }

    /// The native window that was opened for `scene`, if it is registered.
    pub fn lookup_native(&self, scene: SceneWindowId) -> (native: Option<NativeWindowId>)
        ensures
            native == self@.native_of(scene),
    {
        match id_map_get(&self.window_entity_to_baseview, scene.0) {
            Some(number) => Some(NativeWindowId(number)),
            None => None,
        }
    }

    /// The scene window of the native window numbered `id`, if it is
    /// registered.
    pub fn get_window_id(&self, id: u64) -> (scene: Option<SceneWindowId>)
        ensures
            scene == self@.scene_of(NativeWindowId(id)),
    {
        self.lookup_scene(NativeWindowId(id))
    }

    /// Drops the pair of `native`, if there is one.
    fn unlink_native(&mut self, native: NativeWindowId)
        requires
            old(self).wf(),
        ensures
            final(self).wf(),
            final(self)@ == old(self)@.without_native(native),
    {
        match id_map_remove(&mut self.baseview_to_window_entity, native.0) {
            Some(bits) => {
                id_map_remove(&mut self.window_entity_to_baseview, bits);
                assert(self@.by_scene =~= old(self)@.without_native(native).by_scene);
                assert(self@.by_native =~= old(self)@.without_native(native).by_native);
            },
            None => {
                assert(self@.by_native =~= old(self)@.by_native);
            },
        }
    }

    /// Drops the pair of `scene`, if there is one.
    fn unlink_scene(&mut self, scene: SceneWindowId)
        requires
            old(self).wf(),
        ensures
            final(self).wf(),
            final(self)@ == old(self)@.without_scene(scene),
    {
        match id_map_remove(&mut self.window_entity_to_baseview, scene.0) {
            Some(number) => {
                id_map_remove(&mut self.baseview_to_window_entity, number);
                assert(self@.by_scene =~= old(self)@.without_scene(scene).by_scene);
                assert(self@.by_native =~= old(self)@.without_scene(scene).by_native);
            },
            None => {
                assert(self@.by_scene =~= old(self)@.by_scene);
            },
        }
    }

    /// Enters the pair of `scene`, which has none yet, and `native`. A pair
    /// that `native` still has from an earlier window is dropped first.
    fn link(&mut self, scene: SceneWindowId, native: NativeWindowId)
        requires
            old(self).wf(),
            old(self)@.native_of(scene) is None,
        ensures
            final(self).wf(),
            final(self)@ == old(self)@.with_pair(scene, native),
    {
        self.unlink_native(native);
        let ghost base = self@;
        id_map_insert(&mut self.baseview_to_window_entity, native.0, scene.0);
        id_map_insert(&mut self.window_entity_to_baseview, scene.0, native.0);
        assert(self@.by_scene =~= base.by_scene.insert(scene, native));
        assert(self@.by_native =~= base.by_native.insert(native, scene));
    }

    /// Decides whether a window may be opened for `scene`, and says what the
    /// platform is then to open. The registry is not changed.
    pub fn prepare_window(
        &self,
        ctx: &MainContext,
        scene: SceneWindowId,
        options: &WindowOpenOptions,
    ) -> (request: Result<OpenRequest, WindowError>)
        ensures
            request == self@.admission(*ctx, scene, *options),
    {
        if ctx.id != self.owner.id {
            return Err(WindowError::WrongThread);
        }
        if id_map_get(&self.window_entity_to_baseview, scene.0).is_some() {
            return Err(WindowError::DuplicateWindow);
        }
        match resolve_scale(options.scale, options.size) {
            Ok(scale) => Ok(
                OpenRequest { parent: options.parent, size: scale.physical, scale: scale.factor },
            ),
            Err(e) => Err(e),
        }
    }

    /// Finishes the creation of a window for `scene` once the platform has
    /// answered with `opened`.
    ///
    /// If the window may not be opened, or the platform failed, the error is
    /// returned and the registry stays as it was. Otherwise the pair of
    /// `scene` and the new native window is entered and the window's record
    /// returned.
    pub fn register_opened(
        &mut self,
        ctx: &MainContext,
        scene: SceneWindowId,
        descriptor: &WindowDescriptor,
        options: &WindowOpenOptions,
        opened: Result<NativeWindowId, PlatformError>,
    ) -> (record: Result<WindowRecord, WindowError>)
        requires
            old(self).wf(),
        ensures
            final(self).wf(),
            record == old(self)@.created(*ctx, scene, *descriptor, *options, opened),
            final(self)@ == old(self)@.after_create(*ctx, scene, *options, opened),
    {
        let request = match self.prepare_window(ctx, scene, options) {
            Ok(request) => request,
            Err(e) => {
                return Err(e);
            },
        };
        match opened {
            Err(cause) => Err(WindowError::NativeOpenFailed(cause)),
            Ok(native) => {
                self.link(scene, native);
                Ok(
                    WindowRecord {
                        position: descriptor.position,
                        size: request.size,
                        scale: request.scale,
                        parent: request.parent,
                    },
                )
            },
        }
    }

    /// Creates a native window for `scene` and registers the pair.
    ///
    /// `open` is what opens the native window: it is handed the request and
    /// answers with the new window's identity or with the platform's error.
    /// It is called only if the window may be opened, and then once. Whatever
    /// it answers, the outcome is that of `register_opened` on that answer.
    pub fn create_window<F>(
        &mut self,
        ctx: &MainContext,
        scene: SceneWindowId,
        descriptor: &WindowDescriptor,
        options: &WindowOpenOptions,
        open: F,
    ) -> (record: Result<WindowRecord, WindowError>) where
        F: FnOnce(OpenRequest) -> Result<NativeWindowId, PlatformError>,

        requires
            old(self).wf(),
            old(self)@.admission(*ctx, scene, *options) matches Ok(request) ==> open.requires(
                (request,),
            ),
        ensures
            final(self).wf(),
            match old(self)@.admission(*ctx, scene, *options) {
                Err(e) => record == Err::<WindowRecord, WindowError>(e) && final(self)@ == old(
                    self,
                )@,
                Ok(request) => exists|opened: Result<NativeWindowId, PlatformError>|
                    {
                        &&& open.ensures((request,), opened)
                        &&& record == old(self)@.created(*ctx, scene, *descriptor, *options, opened)
                        &&& final(self)@ == old(self)@.after_create(*ctx, scene, *options, opened)
                    },
            },
    {
        let request = match self.prepare_window(ctx, scene, options) {
            Ok(request) => request,
            Err(e) => {
                return Err(e);
            },
        };
        let opened = open(request);
        self.register_opened(ctx, scene, descriptor, options, opened)
    }

    /// Forgets the pair of `native`. A native window that is not registered
    /// is no error: nothing changes then.
    pub fn remove(&mut self, ctx: &MainContext, native: NativeWindowId) -> (done: Result<
        (),
        WindowError,
    >)
        requires
            old(self).wf(),
        ensures
            final(self).wf(),
            done == old(self)@.removed(*ctx),
            final(self)@ == old(self)@.after_remove(*ctx, native),
    {
        if ctx.id != self.owner.id {
            return Err(WindowError::WrongThread);
        }
        self.unlink_native(native);
        Ok(())
    }

    /// Forgets the pair of `scene`. A scene window that is not registered is
    /// no error: nothing changes then.
    pub fn remove_scene(&mut self, ctx: &MainContext, scene: SceneWindowId) -> (done: Result<
        (),
        WindowError,
    >)
        requires
            old(self).wf(),
        ensures
            final(self).wf(),
            done == old(self)@.removed(*ctx),
            final(self)@ == old(self)@.after_remove_scene(*ctx, scene),
    {
        if ctx.id != self.owner.id {
            return Err(WindowError::WrongThread);
        }
        self.unlink_scene(scene);
        Ok(())
    }
}

} // verus!
