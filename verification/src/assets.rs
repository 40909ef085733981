//! The loading state of an asset bundle: not loaded, loading behind a
//! barrier, or loaded.
use vstd::prelude::*;

verus! {

/// A bundle of assets `T` and the state of its loading; `B` is the barrier
/// that tells when all of its assets have arrived.
pub enum AssetBundle<T, B> {
    NotLoaded,
    Loading(T, B),
    Loaded(T),
}

impl<T, B> AssetBundle<T, B> {
    /// A bundle that has not started loading.
    pub fn new() -> (r: Self)
        ensures
            r is NotLoaded,
    {
        AssetBundle::NotLoaded
    }

    /// Whether a load request starts loading: only a bundle that has not
    /// been loaded or started.
    pub fn accepts_load(&self) -> (r: bool)
        ensures
            r == (*self is NotLoaded),
    {
        match self {
            AssetBundle::NotLoaded => true,
            _ => false,
        }
    }

    /// Starts loading `bundle` behind `barrier`; a bundle that is loading or
    /// loaded already stays as it is. Returns whether loading started.
    pub fn begin_loading(&mut self, bundle: T, barrier: B) -> (started: bool)
        ensures
            started == (*old(self) is NotLoaded),
            started ==> *final(self) == AssetBundle::<T, B>::Loading(bundle, barrier),
            !started ==> *final(self) == *old(self),
    {
        match self {
            AssetBundle::NotLoaded => {
                *self = AssetBundle::Loading(bundle, barrier);
                true
            },
            _ => false,
        }
    }

    /// The barrier of a loading bundle.
    pub fn loading_barrier(&self) -> (r: Option<&B>)
        ensures
            *self is Loading <==> r is Some,
            r matches Some(b) ==> *b == self->Loading_1,
    {
        match self {
            AssetBundle::Loading(_, b) => Some(b),
            _ => None,
        }
    }

    /// Whether the bundle should be finished now: it is loading and its
    /// barrier reports every asset ready.
    pub fn should_finish(&self, barrier_ready: bool) -> (r: bool)
        ensures
            r == (*self is Loading && barrier_ready),
    {
        match self {
            AssetBundle::Loading(_, _) => barrier_ready,
            _ => false,
        }
    }

    /// Finishes loading: a loading bundle becomes loaded with its assets and
    /// the barrier is dropped; returns whether that happened (and the loaded
    /// event is sent). A bundle in any other state is reset to not loaded.
    pub fn finish_loading(&mut self) -> (finished: bool)
        ensures
            finished == (*old(self) is Loading),
            finished ==> *final(self) == AssetBundle::<T, B>::Loaded(old(self)->Loading_0),
            !finished ==> *final(self) is NotLoaded,
    {
        let mut placeholder = AssetBundle::NotLoaded;
        std::mem::swap(self, &mut placeholder);
        match placeholder {
            AssetBundle::Loading(inner, _) => {
                *self = AssetBundle::Loaded(inner);
                true
            },
            _ => false,
        }
    }
}

} // verus!
