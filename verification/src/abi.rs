//! The contract between the host and a loadable module.

use vstd::prelude::*;

verus! {

/// The module that holds the renderer.
pub const MODULE_NAME: &'static str = "sandbox_render";

/// The directory, relative to the host, in which builds leave their artifacts.
pub const BUILD_DIR: &'static str = "target/deps";

/// The symbol under which a module exports its factory.
pub const FACTORY_SYMBOL: &'static str = "module_factory";

/// The signature of a module's factory: from the host's resources `D` and the
/// predecessor's frozen state `F`, if there is one, to the component.
pub type ModuleFactory<D, F, T: ?Sized> = fn(&D, Option<F>) -> Box<T>;

/// Names the display handle among the host's resources.
pub struct DisplayKey;

/// A component whose state can be carried over to a successor.
pub trait Reload {
    /// What the component leaves behind.
    type Frozen;

    /// Ends the component and hands out what of its state should survive.
    fn freeze(self: Box<Self>) -> Self::Frozen;
}

/// A component that draws.
pub trait Renderer: Reload {
    /// Draws one frame.
    fn render(&mut self);
}

} // verus!
