//! The per-window storage that owns the proxy.
//!
//! The subclassing facility gives each installation one word of storage. The
//! bridge keeps the proxy there: moved in when the bridge is installed, lent
//! out while the window lives, moved out once when the window is destroyed.
use vstd::prelude::*;

verus! {

/// The owner of a window's proxy, from installation to destruction.
///
/// The proxy is any value `P` through which events can be injected. The slot
/// never looks into it. Its view is the proxy that it holds, or `None` once
/// the proxy has been reclaimed.
#[derive(Debug)]
pub struct ContextSlot<P> {
    proxy: Option<P>,
}

impl<P> View for ContextSlot<P> {
    type V = Option<P>;

    closed spec fn view(&self) -> Option<P> {
        self.proxy
    }
}

impl<P> ContextSlot<P> {
    /// Moves `proxy` into a fresh slot.
    pub fn install(proxy: P) -> (slot: Self)
        ensures
            slot@ == Some(proxy),
        no_unwind
    {
        ContextSlot { proxy: Some(proxy) }
    }

    /// Whether the slot still holds its proxy.
    pub fn is_live(&self) -> (live: bool)
        ensures
            live == self@.is_some(),
        no_unwind
    {
        match &self.proxy {
            Some(_) => true,
            None => false,
        }
    }

    /// Lends the proxy out. After the proxy has been reclaimed there is
    /// nothing to lend, and the answer is `None`.
    pub fn proxy(&self) -> (proxy: Option<&P>)
        ensures
            match proxy {
                Some(p) => self@ == Some(*p),
                None => self@.is_none(),
            },
        no_unwind
    {
        match &self.proxy {
            Some(proxy) => Some(proxy),
            None => None,
        }
    }

    /// Moves the proxy out and leaves the slot empty. Only the destruction of
    /// the window leads here.
    pub(crate) fn reclaim(&mut self) -> (proxy: Option<P>)
        ensures
            proxy == old(self)@,
            final(self)@.is_none(),
        no_unwind
    {
        let mut proxy: Option<P> = None;
        core::mem::swap(&mut self.proxy, &mut proxy);
        proxy
    }
}

} // verus!
