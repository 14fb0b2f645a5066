//! The GPU context broker: one surface and one rendering context, lent out
//! to one user at a time.
//!
//! The host makes the context current after it acquires it and not current
//! before it gives it back; the broker holds the context only while no one
//! uses it, so a second acquisition cannot happen while a lease is out.

use vstd::prelude::*;
use crate::compositor::{GlObjects, Renderer, RendererError, FRAMEBUFFER_COMPLETE};

verus! {

/// The surface, and the context while it is not lent out.
pub struct BrokerView<S, C> {
    pub surface: Option<S>,
    pub context: Option<C>,
}

pub struct GpuBroker<S, C> {
    surface: Option<S>,
    context: Option<C>,
}

/// An acquisition: the context leaves the slot when the broker holds both
/// surface and context; otherwise nothing happens.
pub open spec fn acquire_spec<S, C>(b: BrokerView<S, C>) -> (BrokerView<S, C>, Option<C>) {
    if b.surface is Some && b.context is Some {
        (BrokerView { surface: b.surface, context: None }, b.context)
    } else {
        (b, None)
    }
}

/// A lent context given back to its slot.
pub open spec fn release_spec<S, C>(b: BrokerView<S, C>, context: C) -> BrokerView<S, C> {
    BrokerView { surface: b.surface, context: Some(context) }
}

/// Whether a context is lent out: the surface is there and the slot is empty.
pub open spec fn is_lent<S, C>(b: BrokerView<S, C>) -> bool {
    b.surface is Some && b.context is None
}

impl<S, C> View for GpuBroker<S, C> {
    type V = BrokerView<S, C>;

    closed spec fn view(&self) -> BrokerView<S, C> {
        BrokerView { surface: self.surface, context: self.context }
    }
}

impl<S, C> GpuBroker<S, C> {
    /// A broker that holds nothing yet.
    pub fn new() -> (r: Self)
        ensures
            r@.surface is None,
            r@.context is None,
    {
        GpuBroker { surface: None, context: None }
    }

    /// Takes the context for exclusive use; `None` when there is none to
    /// take (before creation, after teardown, or while it is lent out).
    pub fn acquire(&mut self) -> (r: Option<C>)
        ensures
            (final(self)@, r) == acquire_spec(old(self)@),
    {
        if self.surface.is_some() && self.context.is_some() {
            self.context.take()
        } else {
            None
        }
    }

    /// Gives a lent context back.
    pub fn release(&mut self, context: C)
        requires
            is_lent(old(self)@),
        ensures
            final(self)@ == release_spec(old(self)@, context),
    {
        self.context = Some(context);
    }

    pub fn surface(&self) -> (r: Option<&S>)
        ensures
            r matches Some(s) ==> self@.surface == Some(*s),
            r is None ==> self@.surface is None,
    {
        self.surface.as_ref()
    }
}

/// Stores the surface and a context that the host has made current once,
/// set its swap interval on, and made not current again.
pub fn create_gl<S, C>(broker: &mut GpuBroker<S, C>, surface: S, context: C)
    ensures
        final(broker)@ == (BrokerView { surface: Some(surface), context: Some(context) }),
{
    broker.surface = Some(surface);
    broker.context = Some(context);
}

/// Releases the surface and the context; the broker then lends nothing.
pub fn drop_gl<S, C>(broker: &mut GpuBroker<S, C>)
    ensures
        final(broker)@.surface is None,
        final(broker)@.context is None,
{
    broker.surface = None;
    broker.context = None;
}

/// Makes the compositor over the host's GL objects and keeps it in `slot`;
/// the slot is left as it was when the video framebuffer is not complete.
pub fn create_renderer(
    slot: &mut Option<Renderer>,
    objects: GlObjects,
    default_size: (i32, i32),
    refresh_rate: u32,
    framebuffer_status: u32,
) -> (r: Result<(), RendererError>)
    requires
        default_size.0 >= 0,
        default_size.1 >= 0,
    ensures
        framebuffer_status == FRAMEBUFFER_COMPLETE ==> (r is Ok && (*final(slot) matches Some(c) && c.wf()
            && c.width == default_size.0 && c.height == default_size.1
            && c.refresh_rate == refresh_rate && c.fbo == objects.fbo)),
        framebuffer_status != FRAMEBUFFER_COMPLETE ==> r == Err::<(), RendererError>(
            RendererError::FramebufferIncomplete(framebuffer_status),
        ) && *final(slot) == *old(slot),
{
    match Renderer::new(objects, default_size, refresh_rate, framebuffer_status) {
        Ok(renderer) => {
            *slot = Some(renderer);
            Ok(())
        },
        Err(e) => Err(e),
    }
}

/// Takes the compositor out of its slot so that the host can release its GL
/// objects; taking from an empty slot gives nothing.
pub fn drop_renderer(slot: &mut Option<Renderer>) -> (r: Option<Renderer>)
    ensures
        *final(slot) is None,
        r == *old(slot),
{
    slot.take()
}

/// Two acquisitions are serialized: while a context is lent out a second
/// acquisition gets nothing and changes nothing, and once the context is
/// given back the next acquisition gets that same context, with the same
/// surface in place.
pub proof fn lemma_acquire_serializes<S, C>(b: BrokerView<S, C>)
    requires
        b.surface is Some,
        b.context is Some,
    ensures
        ({
            let (lent, first) = acquire_spec(b);
            let (still, second) = acquire_spec(lent);
            let back = release_spec(lent, first->Some_0);
            let (again, third) = acquire_spec(back);
            &&& first == b.context
            &&& is_lent(lent)
            &&& second is None
            &&& still == lent
            &&& third == first
            &&& again.surface == b.surface
        }),
{
}

} // verus!
