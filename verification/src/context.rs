//! The global plotting context.

use vstd::prelude::*;

use crate::PlotUi;

verus! {

/// Exclusive ownership of the native library's global plotting state.
///
/// The native library allows exactly one context per process; creating it
/// also installs the default font and style state every later plot uses.
/// The shell owns the process-wide flag saying whether a context exists and
/// whether the host GUI layer is initialized, and passes both to
/// [`Context::create`], which decides. The type cannot be constructed any
/// other way.
#[derive(Debug)]
pub struct Context {
    pub(crate) live: bool,
}

impl Context {
    /// Decide a context creation request: it succeeds exactly when the host
    /// GUI layer is initialized and no context exists yet. On `Some` the
    /// shell forwards the native create call; on `None` it must fail loudly
    /// and make no native call, since a second live context is undefined
    /// behavior in the native library.
    pub fn create(gui_initialized: bool, context_exists: bool) -> (r: Option<Context>)
        ensures
            r is Some <==> gui_initialized && !context_exists,
    {
        if gui_initialized && !context_exists {
            Some(Context { live: true })
        } else {
            None
        }
    }

    /// A per-frame plotting handle scoped to this context: all three style
    /// stacks empty and no plot scope open, matching the native state at the
    /// start of a frame.
    pub fn get_plot_ui(&self) -> (ui: PlotUi)
        ensures
            ui.colormaps() == Seq::<crate::ColormapEntry>::empty(),
            ui.style_colors() == Seq::<crate::StyleColorEntry>::empty(),
            ui.style_vars() == Seq::<crate::StyleVarEntry>::empty(),
            !ui.is_plot_open(),
    {
        PlotUi::new_frame()
    }

    /// Give the context up, consuming it. The shell forwards the native
    /// destroy call; plot and stack tokens that referenced this context must
    /// already be gone, as operations through them would touch freed native
    /// state.
    pub fn destroy(self) {
    }
}

} // verus!
